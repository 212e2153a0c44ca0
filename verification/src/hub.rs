//! The motor application: a kick at the start, then either a short demo for the
//! next development cycle, or motors under the control of the buttons.
use crate::button::{
    button_adc_acts, init_button_adc, read_adc, read_adc_acts, BTN_CENTER, BTN_LEFT, BTN_RIGHT,
    CENTER_CHANNEL, SIDE_CHANNEL,
};
use crate::clock::{init_clocks, init_clocks_acts};
use crate::matrix::{
    painted, pattern_brightness, speed_brightness, CHECK, HEART, Matrix, PAUSE, PIXELS,
};
use crate::motor::{
    all_spare_bridges, coast_all_acts, coast_all_coasts_both, driven, init_power_and_gpio,
    init_timer, init_timer_acts, is_coasting, load_vbus, load_vbus_acts, motor_coast_all,
    motor_set_all, power_and_gpio_acts, set_all_acts, set_all_drives_both, spared_run,
    usb_vbus_detected, Motor,
};
use crate::plan::{group_run, run, Act, Op, Plan, Regs};
use crate::power::{
    power_held, power_off, power_off_acts, power_off_releases, pre_init, pre_init_acts,
    request_dfu, request_dfu_acts,
};
use crate::tlc5955::{
    init_led_matrix, led_matrix_acts, matrix_frame_acts, matrix_frame_spares_bridges,
};
use vstd::prelude::*;

verus! {

/// Ticks of 50 ms after which a held center button switches the hub off.
pub const LONG_PRESS: u32 = 40;

/// Milliseconds of a tick.
pub const TICK_MS: u32 = 50;

/// What a side button changes the speed by.
pub const SPEED_STEP: i16 = 200;

/// Speed at the start.
pub const START_SPEED: i16 = 400;

// ---------------------------------------------------------------------------
// Start
// ---------------------------------------------------------------------------

/// Power, clocks, motors, matrix and buttons set up, and a heart shown.
pub open spec fn hub_init_acts(frame: Seq<u8>) -> Seq<Act> {
    pre_init_acts() + init_clocks_acts() + power_and_gpio_acts() + init_timer_acts()
        + led_matrix_acts() + button_adc_acts() + matrix_frame_acts(
        painted(frame, pattern_brightness(HEART@, 50), PIXELS as int),
    )
}

/// Sets up the hardware and shows a heart.
pub fn hub_init(matrix: &mut Matrix) -> (p: Plan)
    ensures
        p@ == hub_init_acts(old(matrix).frame@),
        final(matrix).frame@ == painted(
            old(matrix).frame@,
            pattern_brightness(HEART@, 50),
            PIXELS as int,
        ),
{
    let mut p: Plan = pre_init();
    p.append(init_clocks());
    p.append(init_power_and_gpio());
    p.append(init_timer());
    p.append(init_led_matrix());
    p.append(init_button_adc());
    p.append(matrix.show_pattern(&HEART, 50));
    p
}

/// Both motors run for a while, then coast.
pub open spec fn burst_acts(duty: i16, ms: u32) -> Seq<Act> {
    set_all_acts(duty).push(Act::DelayMs { ms }) + coast_all_acts()
}

/// Runs both motors for a while, then lets them coast.
pub fn burst(duty: i16, ms: u32) -> (p: Plan)
    ensures
        p@ == burst_acts(duty, ms),
{
    let mut p: Plan = motor_set_all(duty);
    p.push(Op::DelayMs { ms });
    p.append(motor_coast_all());
    p
}

/// A short move forward and back, to feel that the hub is alive.
pub open spec fn kick_acts() -> Seq<Act> {
    coast_all_acts().push(Act::DelayMs { ms: 500 }) + burst_acts(400, 150).push(
        Act::DelayMs { ms: 500 },
    ) + burst_acts((-400) as i16, 150).push(Act::DelayMs { ms: 1000 })
}

/// Kicks both motors forward and back.
pub fn kick() -> (p: Plan)
    ensures
        p@ == kick_acts(),
{
    let mut p: Plan = motor_coast_all();
    p.push(Op::DelayMs { ms: 500 });
    let mut forward: Plan = burst(400, 150);
    forward.push(Op::DelayMs { ms: 500 });
    p.append(forward);
    let mut back: Plan = burst(-400, 150);
    back.push(Op::DelayMs { ms: 1000 });
    p.append(back);
    p
}

/// The kick, then a look at the USB supply.
pub open spec fn motor_demo_acts() -> Seq<Act> {
    kick_acts() + load_vbus_acts()
}

/// Kicks the motors and loads what tells whether a USB cable is plugged in.
pub fn motor_demo() -> (p: Plan)
    ensures
        p@ == motor_demo_acts(),
{
    let mut p: Plan = kick();
    p.append(load_vbus());
    p
}

/// The picture that ends a development cycle.
pub open spec fn check_frame(frame: Seq<u8>) -> Seq<u8> {
    painted(frame, pattern_brightness(CHECK@, 80), PIXELS as int)
}

/// A burst forward, a burst back, a check mark, and on to the next firmware.
pub open spec fn dev_demo_acts(frame: Seq<u8>) -> Seq<Act> {
    burst_acts(500, 400).push(Act::DelayMs { ms: 300 }) + burst_acts((-500) as i16, 400)
        + matrix_frame_acts(check_frame(frame)).push(Act::DelayMs { ms: 300 }) + request_dfu_acts()
}

/// Runs the demo of a development cycle and asks for the ROM bootloader.
pub fn dev_demo(matrix: &mut Matrix) -> (p: Plan)
    ensures
        p@ == dev_demo_acts(old(matrix).frame@),
        final(matrix).frame@ == check_frame(old(matrix).frame@),
{
    let mut p: Plan = burst(500, 400);
    p.push(Op::DelayMs { ms: 300 });
    p.append(burst(-500, 400));
    let mut shown: Plan = matrix.show_pattern(&CHECK, 80);
    shown.push(Op::DelayMs { ms: 300 });
    p.append(shown);
    p.append(request_dfu());
    p
}

/// Both ladders converted: the center button's value first.
pub open spec fn sample_buttons_acts() -> Seq<Act> {
    read_adc_acts(CENTER_CHANNEL) + read_adc_acts(SIDE_CHANNEL)
}

/// Loads the values that tell of the buttons.
pub fn sample_buttons() -> (p: Plan)
    ensures
        p@ == sample_buttons_acts(),
{
    let mut p: Plan = read_adc(CENTER_CHANNEL);
    p.append(read_adc(SIDE_CHANNEL));
    p
}

/// What comes after the kick.
#[derive(Clone, Copy, Debug, PartialEq, Eq, Structural)]
pub enum HubMode {
    /// A USB cable is plugged in: a short demo, and on to the next firmware.
    Dev,
    /// The motors are under the control of the buttons.
    Interactive,
}

/// Decides, by the value of port A, what comes after the kick.
pub fn after_kick(idr: u32) -> (m: HubMode)
    ensures
        m == (if idr & (1u32 << 9) != 0 {
            HubMode::Dev
        } else {
            HubMode::Interactive
        }),
{
    if usb_vbus_detected(idr) {
        HubMode::Dev
    } else {
        HubMode::Interactive
    }
}

// ---------------------------------------------------------------------------
// Interactive mode
// ---------------------------------------------------------------------------

/// Motors under the control of the buttons.
pub struct Hub {
    pub paused: bool,
    pub speed: i16,
    /// Buttons at the last tick.
    pub prev_btns: u8,
    /// Ticks that the center button has been held.
    pub center_hold: u32,
    pub matrix: Matrix,
}

/// Frame with a speed shown.
pub open spec fn speed_frame(frame: Seq<u8>, speed: i16) -> Seq<u8> {
    painted(frame, speed_brightness(speed), PIXELS as int)
}

/// Frame with the pause sign shown.
pub open spec fn pause_frame(frame: Seq<u8>) -> Seq<u8> {
    painted(frame, pattern_brightness(PAUSE@, 50), PIXELS as int)
}

/// Both motors at a speed, and the speed shown.
pub open spec fn go_acts(frame: Seq<u8>, speed: i16) -> Seq<Act> {
    set_all_acts(speed) + matrix_frame_acts(speed_frame(frame, speed))
}

/// Both motors coasting, and the pause sign shown.
pub open spec fn halt_acts(frame: Seq<u8>) -> Seq<Act> {
    coast_all_acts() + matrix_frame_acts(pause_frame(frame))
}

/// Slower, or faster in reverse.
pub open spec fn stepped_down(speed: i16) -> i16 {
    if speed - SPEED_STEP < -1000 {
        (-1000) as i16
    } else {
        (speed - SPEED_STEP) as i16
    }
}

/// Faster, or slower in reverse.
pub open spec fn stepped_up(speed: i16) -> i16 {
    if speed + SPEED_STEP > 1000 {
        1000
    } else {
        (speed + SPEED_STEP) as i16
    }
}

/// State of the application without its frame.
pub struct Drive {
    pub paused: bool,
    pub speed: i16,
    pub prev: u8,
    pub hold: u32,
}

/// Whether a tick switches the hub off: the center button has been held for long.
pub open spec fn switches_off(d: Drive, btns: u8) -> bool {
    btns & BTN_CENTER != 0 && d.hold + 1 >= LONG_PRESS
}

/// Whether a tick ends a short press of the center button.
pub open spec fn ends_press(d: Drive, btns: u8) -> bool {
    btns & BTN_CENTER == 0 && d.prev & BTN_CENTER != 0 && 0 < d.hold < LONG_PRESS
}

/// Whether the application is paused after a tick: a short press toggles it.
pub open spec fn paused_after(d: Drive, btns: u8) -> bool {
    if ends_press(d, btns) {
        !d.paused
    } else {
        d.paused
    }
}

/// Whether a tick takes the speed down: the left button goes down, and the
/// motors run.
pub open spec fn steps_down(d: Drive, btns: u8) -> bool {
    !paused_after(d, btns) && (btns & !d.prev) & BTN_LEFT != 0
}

/// Whether a tick takes the speed up.
pub open spec fn steps_up(d: Drive, btns: u8) -> bool {
    !paused_after(d, btns) && (btns & !d.prev) & BTN_RIGHT != 0
}

/// Speed after the left button.
pub open spec fn speed_after_left(d: Drive, btns: u8) -> i16 {
    if steps_down(d, btns) {
        stepped_down(d.speed)
    } else {
        d.speed
    }
}

/// Speed after both side buttons.
pub open spec fn speed_after(d: Drive, btns: u8) -> i16 {
    if steps_up(d, btns) {
        stepped_up(speed_after_left(d, btns))
    } else {
        speed_after_left(d, btns)
    }
}

/// State after a tick.
pub open spec fn ticked(d: Drive, btns: u8) -> Drive {
    Drive {
        paused: paused_after(d, btns),
        speed: speed_after(d, btns),
        prev: btns,
        hold: if btns & BTN_CENTER != 0 {
            (d.hold + 1) as u32
        } else {
            0
        },
    }
}

/// What the end of a press does.
pub open spec fn press_acts(d: Drive, btns: u8, frame: Seq<u8>) -> Seq<Act> {
    if !ends_press(d, btns) {
        Seq::empty()
    } else if paused_after(d, btns) {
        halt_acts(frame)
    } else {
        go_acts(frame, d.speed)
    }
}

pub open spec fn frame_after_press(d: Drive, btns: u8, frame: Seq<u8>) -> Seq<u8> {
    if !ends_press(d, btns) {
        frame
    } else if paused_after(d, btns) {
        pause_frame(frame)
    } else {
        speed_frame(frame, d.speed)
    }
}

/// What the left button does.
pub open spec fn left_acts(d: Drive, btns: u8, frame: Seq<u8>) -> Seq<Act> {
    if steps_down(d, btns) {
        go_acts(frame_after_press(d, btns, frame), speed_after_left(d, btns))
    } else {
        Seq::empty()
    }
}

pub open spec fn frame_after_left(d: Drive, btns: u8, frame: Seq<u8>) -> Seq<u8> {
    if steps_down(d, btns) {
        speed_frame(frame_after_press(d, btns, frame), speed_after_left(d, btns))
    } else {
        frame_after_press(d, btns, frame)
    }
}

/// What the right button does.
pub open spec fn right_acts(d: Drive, btns: u8, frame: Seq<u8>) -> Seq<Act> {
    if steps_up(d, btns) {
        go_acts(frame_after_left(d, btns, frame), speed_after(d, btns))
    } else {
        Seq::empty()
    }
}

/// Frame after a tick.
pub open spec fn frame_after(d: Drive, btns: u8, frame: Seq<u8>) -> Seq<u8> {
    if steps_up(d, btns) {
        speed_frame(frame_after_left(d, btns, frame), speed_after(d, btns))
    } else {
        frame_after_left(d, btns, frame)
    }
}

/// Both motors coasting, and the power released.
pub open spec fn shutdown_acts() -> Seq<Act> {
    coast_all_acts() + power_off_acts()
}

/// What a tick does.
pub open spec fn tick_acts(d: Drive, btns: u8, frame: Seq<u8>) -> Seq<Act> {
    if switches_off(d, btns) {
        shutdown_acts()
    } else {
        (press_acts(d, btns, frame) + left_acts(d, btns, frame) + right_acts(d, btns, frame)).push(
            Act::DelayMs { ms: TICK_MS },
        )
    }
}

/// Lets the motors coast and switches the hub off.
pub fn shutdown() -> (p: Plan)
    ensures
        p@ == shutdown_acts(),
{
    let mut p: Plan = motor_coast_all();
    p.append(power_off());
    p
}

impl Hub {
    pub open spec fn drive(&self) -> Drive {
        Drive {
            paused: self.paused,
            speed: self.speed,
            prev: self.prev_btns,
            hold: self.center_hold,
        }
    }

    /// The speed is in range and a press has not yet switched the hub off.
    pub open spec fn wf(&self) -> bool {
        -1000 <= self.speed <= 1000 && self.center_hold < LONG_PRESS
    }

    /// Starts interactive mode. Buttons that are already down count as pressed
    /// before.
    pub fn start(matrix: Matrix, btns: u8) -> (r: (Hub, Plan))
        ensures
            r.0.wf(),
            r.0.drive() == (Drive { paused: false, speed: START_SPEED, prev: btns, hold: 0 }),
            r.0.matrix.frame@ == speed_frame(matrix.frame@, START_SPEED),
            r.1@ == matrix_frame_acts(speed_frame(matrix.frame@, START_SPEED)) + set_all_acts(
                START_SPEED,
            ),
    {
        let mut m: Matrix = matrix;
        let mut p: Plan = m.show_speed_led(START_SPEED);
        p.append(motor_set_all(START_SPEED));
        (
            Hub { paused: false, speed: START_SPEED, prev_btns: btns, center_hold: 0, matrix: m },
            p,
        )
    }

    fn go(&mut self) -> (p: Plan)
        ensures
            p@ == go_acts(old(self).matrix.frame@, old(self).speed),
            final(self).matrix.frame@ == speed_frame(old(self).matrix.frame@, old(self).speed),
            final(self).drive() == old(self).drive(),
    {
        let mut p: Plan = motor_set_all(self.speed);
        p.append(self.matrix.show_speed_led(self.speed));
        p
    }

    fn halt(&mut self) -> (p: Plan)
        ensures
            p@ == halt_acts(old(self).matrix.frame@),
            final(self).matrix.frame@ == pause_frame(old(self).matrix.frame@),
            final(self).drive() == old(self).drive(),
    {
        let mut p: Plan = motor_coast_all();
        p.append(self.matrix.show_paused_led());
        p
    }

    /// Takes a tick with the buttons that are down. The second result says that
    /// the hub is off; the state then stays as it was.
    pub fn tick(&mut self, btns: u8) -> (r: (Plan, bool))
        requires
            old(self).wf(),
        ensures
            r.0@ == tick_acts(old(self).drive(), btns, old(self).matrix.frame@),
            r.1 == switches_off(old(self).drive(), btns),
            final(self).wf(),
            r.1 ==> *final(self) == *old(self),
            !r.1 ==> {
                &&& final(self).drive() == ticked(old(self).drive(), btns)
                &&& final(self).matrix.frame@ == frame_after(
                    old(self).drive(),
                    btns,
                    old(self).matrix.frame@,
                )
            },
    {
        let ghost d = self.drive();
        let ghost frame = self.matrix.frame@;
        let mut p: Plan = Plan::new();
        if btns & BTN_CENTER != 0 {
            if self.center_hold >= LONG_PRESS - 1 {
                return (shutdown(), true);
            }
            self.center_hold = self.center_hold + 1;
        } else {
            if self.prev_btns & BTN_CENTER != 0 && self.center_hold > 0 && self.center_hold
                < LONG_PRESS {
                self.paused = !self.paused;
                if self.paused {
                    p = self.halt();
                } else {
                    p = self.go();
                }
            }
            self.center_hold = 0;
        }
        assert(p@ =~= press_acts(d, btns, frame));
        assert(self.matrix.frame@ == frame_after_press(d, btns, frame));
        let rising: u8 = btns & !self.prev_btns;
        if !self.paused {
            if rising & BTN_LEFT != 0 {
                self.speed = if self.speed - SPEED_STEP < -1000 {
                    -1000
                } else {
                    self.speed - SPEED_STEP
                };
                p.append(self.go());
            }
            assert(p@ =~= press_acts(d, btns, frame) + left_acts(d, btns, frame));
            if rising & BTN_RIGHT != 0 {
                self.speed = if self.speed + SPEED_STEP > 1000 {
                    1000
                } else {
                    self.speed + SPEED_STEP
                };
                p.append(self.go());
            }
        }
        assert(p@ =~= press_acts(d, btns, frame) + left_acts(d, btns, frame) + right_acts(
            d,
            btns,
            frame,
        ));
        self.prev_btns = btns;
        p.push(Op::DelayMs { ms: TICK_MS });
        (p, false)
    }
}

// ---------------------------------------------------------------------------
// What interactive mode promises
// ---------------------------------------------------------------------------

/// A speed in range, in whole steps, and no press that is already too long.
pub open spec fn sane(d: Drive) -> bool {
    -1000 <= d.speed <= 1000 && d.speed % 200 == 0 && d.hold < LONG_PRESS
}

/// The speed never leaves its range or its steps, whatever the buttons do.
pub proof fn ticks_stay_sane(d: Drive, btns: u8)
    requires
        sane(d),
        !switches_off(d, btns),
    ensures
        sane(ticked(d, btns)),
{
}

/// While the motors run, right takes back what left did, unless left met the end
/// of the range.
pub proof fn right_undoes_left(speed: i16)
    requires
        -800 <= speed <= 1000,
    ensures
        stepped_up(stepped_down(speed)) == speed,
{
}

/// While paused, the side buttons change nothing.
pub proof fn pause_freezes_speed(d: Drive, btns: u8, frame: Seq<u8>)
    requires
        paused_after(d, btns),
    ensures
        ticked(d, btns).speed == d.speed,
        left_acts(d, btns, frame).len() == 0,
        right_acts(d, btns, frame).len() == 0,
{
}

/// State after the first `n` ticks.
pub open spec fn drives(d: Drive, btns: Seq<u8>, n: nat) -> Drive
    decreases n,
{
    if n == 0 {
        d
    } else {
        ticked(drives(d, btns, (n - 1) as nat), btns[n - 1])
    }
}

/// Holding the center button counts its ticks and leaves the pause alone; it
/// switches the hub off at the fortieth tick, which is two seconds, and not
/// before.
pub proof fn held_center_switches_off(d: Drive, btns: Seq<u8>, n: nat)
    requires
        d.hold == 0,
        n < btns.len(),
        n < LONG_PRESS,
        forall|i: int| 0 <= i < btns.len() ==> #[trigger] btns[i] & BTN_CENTER != 0,
    ensures
        drives(d, btns, n).hold == n,
        drives(d, btns, n).paused == d.paused,
        switches_off(drives(d, btns, n), btns[n as int]) == (n == LONG_PRESS - 1),
    decreases n,
{
    assert(btns[n as int] & BTN_CENTER != 0);
    if n > 0 {
        held_center_switches_off(d, btns, (n - 1) as nat);
        assert(btns[n - 1] & BTN_CENTER != 0);
    }
}

/// A press that ends before it is long toggles the pause exactly once, when the
/// button is let go.
pub proof fn short_press_toggles_pause(d: Drive, btns: Seq<u8>, n: nat, released: u8)
    requires
        d.hold == 0,
        0 < n < LONG_PRESS,
        n == btns.len(),
        forall|i: int| 0 <= i < btns.len() ==> #[trigger] btns[i] & BTN_CENTER != 0,
        released & BTN_CENTER == 0,
    ensures
        drives(d, btns, n).paused == d.paused,
        ticked(drives(d, btns, n), released).paused == !d.paused,
{
    held_center_switches_off(d, btns, (n - 1) as nat);
    assert(btns[n - 1] & BTN_CENTER != 0);
}

/// The motors do what the state says: coast while paused, else run at the speed.
pub open spec fn motors_follow(d: Drive, regs: Regs) -> bool {
    if d.paused {
        is_coasting(regs, Motor::A) && is_coasting(regs, Motor::B)
    } else {
        driven(regs, Motor::A, d.speed) && driven(regs, Motor::B, d.speed)
    }
}

proof fn go_drives(frame: Seq<u8>, speed: i16, regs: Regs)
    ensures
        driven(run(go_acts(frame, speed), regs), Motor::A, speed),
        driven(run(go_acts(frame, speed), regs), Motor::B, speed),
{
    broadcast use group_run;

    set_all_drives_both(speed, regs);
    matrix_frame_spares_bridges(speed_frame(frame, speed));
    spared_run(matrix_frame_acts(speed_frame(frame, speed)), run(set_all_acts(speed), regs));
}

proof fn halt_coasts(frame: Seq<u8>, regs: Regs)
    ensures
        is_coasting(run(halt_acts(frame), regs), Motor::A),
        is_coasting(run(halt_acts(frame), regs), Motor::B),
{
    broadcast use group_run;

    coast_all_coasts_both(regs);
    matrix_frame_spares_bridges(pause_frame(frame));
    spared_run(matrix_frame_acts(pause_frame(frame)), run(coast_all_acts(), regs));
}

/// Interactive mode starts with both motors at their first speed.
pub proof fn motors_follow_start(frame: Seq<u8>, btns: u8, regs: Regs)
    ensures
        ({
            let acts = matrix_frame_acts(speed_frame(frame, START_SPEED)) + set_all_acts(
                START_SPEED,
            );
            let d = Drive { paused: false, speed: START_SPEED, prev: btns, hold: 0 };
            motors_follow(d, run(acts, regs))
        }),
{
    broadcast use group_run;

    let shown = run(matrix_frame_acts(speed_frame(frame, START_SPEED)), regs);
    set_all_drives_both(START_SPEED, shown);
}

/// The motors follow the state through every tick: a paused hub never drives
/// them, and a running hub drives both at its speed.
pub proof fn motors_follow_ticks(d: Drive, btns: u8, frame: Seq<u8>, regs: Regs)
    requires
        motors_follow(d, regs),
        !switches_off(d, btns),
    ensures
        motors_follow(ticked(d, btns), run(tick_acts(d, btns, frame), regs)),
{
    broadcast use group_run;

    let press = press_acts(d, btns, frame);
    let left = left_acts(d, btns, frame);
    let right = right_acts(d, btns, frame);
    go_drives(frame, d.speed, regs);
    halt_coasts(frame, regs);
    let pressed = run(press, regs);
    assert(motors_follow(Drive { paused: paused_after(d, btns), ..d }, pressed));
    go_drives(frame_after_press(d, btns, frame), speed_after_left(d, btns), pressed);
    let lefted = run(left, pressed);
    assert(motors_follow(
        Drive { paused: paused_after(d, btns), speed: speed_after_left(d, btns), ..d },
        lefted,
    ));
    go_drives(frame_after_left(d, btns, frame), speed_after(d, btns), lefted);
    let righted = run(right, lefted);
    assert(run(press + left, regs) == lefted);
    assert(run(press + left + right, regs) == righted);
    assert(run(tick_acts(d, btns, frame), regs) == righted);
}

/// Switching off stops both motors and releases the power.
pub proof fn shutdown_stops_and_releases(regs: Regs)
    ensures
        ({
            let after = run(shutdown_acts(), regs);
            &&& is_coasting(after, Motor::A)
            &&& is_coasting(after, Motor::B)
            &&& !power_held(after)
        }),
        shutdown_acts().last() == Act::Sleep,
{
    broadcast use group_run;

    let coasting = run(coast_all_acts(), regs);
    coast_all_coasts_both(regs);
    assert(all_spare_bridges(power_off_acts()));
    spared_run(power_off_acts(), coasting);
    power_off_releases(coasting);
}

// ---------------------------------------------------------------------------
// Interactive mode in numbers
// ---------------------------------------------------------------------------

/// What a tick makes of the state. The left button, as it goes down, takes 200 off the speed,
/// down to -1000; the right one adds 200, up to 1000; neither does while the hub is paused. The
/// center button, let go after one to thirty-nine ticks, toggles the pause.
pub proof fn ticks_in_numbers(d: Drive, btns: u8)
    requires
        -1000 <= d.speed <= 1000,
        d.hold < 40,
    ensures
        ({
            let after = ticked(d, btns);
            let center = btns & 1 != 0;
            let paused = if !center && d.prev & 1 != 0 && d.hold > 0 {
                !d.paused
            } else {
                d.paused
            };
            let left = btns & 2 != 0 && d.prev & 2 == 0;
            let right = btns & 4 != 0 && d.prev & 4 == 0;
            &&& after.paused == paused
            &&& after.prev == btns
            &&& after.hold == if center {
                d.hold + 1
            } else {
                0
            }
            &&& paused || (!left && !right) ==> after.speed == d.speed
            &&& !paused && left && !right ==> after.speed == if d.speed < -800 {
                -1000
            } else {
                d.speed - 200
            }
            &&& !paused && right && !left ==> after.speed == if d.speed > 800 {
                1000
            } else {
                d.speed + 200
            }
            &&& !paused && right && left ==> after.speed == if d.speed < -800 {
                -800
            } else {
                d.speed as int
            }
            &&& switches_off(d, btns) <==> center && d.hold == 39
        }),
{
    let prev = d.prev;
    assert(((btns & !prev) & 2 != 0 <==> btns & 2 != 0 && prev & 2 == 0) && ((btns & !prev) & 4 != 0
        <==> btns & 4 != 0 && prev & 4 == 0)) by (bit_vector);
}

/// What a tick does: nothing where no button counts, and always a pause of 50 ms; the end of a
/// short press lets both motors coast under the pause sign, or runs them again; a step of the
/// speed runs both motors at it and shows it; a long press switches off.
pub proof fn ticks_act_in_order(d: Drive, btns: u8, frame: Seq<u8>)
    ensures
        switches_off(d, btns) ==> tick_acts(d, btns, frame) == shutdown_acts(),
        !switches_off(d, btns) ==> tick_acts(d, btns, frame).last() == (Act::DelayMs { ms: 50 }),
        !switches_off(d, btns) && ticked(d, btns).paused == d.paused && ticked(d, btns).speed
            == d.speed && (btns & !d.prev) & 6 == 0 ==> tick_acts(d, btns, frame) == seq![
            Act::DelayMs { ms: 50 },
        ],
        !switches_off(d, btns) && ticked(d, btns).paused && !d.paused ==> tick_acts(d, btns, frame)
            == coast_all_acts() + matrix_frame_acts(
            painted(frame, pattern_brightness(PAUSE@, 50), 25),
        ) + seq![Act::DelayMs { ms: 50 }],
        !switches_off(d, btns) && !ticked(d, btns).paused && d.paused && (btns & !d.prev) & 6 == 0
            ==> tick_acts(d, btns, frame) == set_all_acts(d.speed) + matrix_frame_acts(
            painted(frame, speed_brightness(d.speed), 25),
        ) + seq![Act::DelayMs { ms: 50 }],
        !switches_off(d, btns) && !d.paused && !ticked(d, btns).paused && ((btns & !d.prev) & 6 == 2
            || (btns & !d.prev) & 6 == 4) ==> tick_acts(d, btns, frame) == set_all_acts(
            ticked(d, btns).speed,
        ) + matrix_frame_acts(painted(frame, speed_brightness(ticked(d, btns).speed), 25)) + seq![
            Act::DelayMs { ms: 50 },
        ],
{
    let r = btns & !d.prev;
    assert((r & 6 == 0 <==> r & 2 == 0 && r & 4 == 0) && (r & 6 == 2 <==> r & 2 != 0 && r & 4 == 0)
        && (r & 6 == 4 <==> r & 2 == 0 && r & 4 != 0)) by (bit_vector);
    let wait = seq![Act::DelayMs { ms: 50 }];
    if !switches_off(d, btns) {
        let all = press_acts(d, btns, frame) + left_acts(d, btns, frame) + right_acts(
            d,
            btns,
            frame,
        );
        assert(tick_acts(d, btns, frame) =~= all + wait);
        if r & 6 == 0 {
            assert(all =~= press_acts(d, btns, frame));
        } else if ticked(d, btns).paused {
            assert(all =~= press_acts(d, btns, frame));
        } else if d.paused == ticked(d, btns).paused && r & 6 == 2 {
            assert(all =~= left_acts(d, btns, frame));
        } else if d.paused == ticked(d, btns).paused && r & 6 == 4 {
            assert(all =~= right_acts(d, btns, frame));
        }
        assert(Seq::<Act>::empty() + wait =~= wait);
    }
}

/// Interactive mode starts with both motors forward at 400: that is what the compare
/// registers of their first pins hold.
pub proof fn first_speed_is_400(frame: Seq<u8>, regs: Regs)
    ensures
        ({
            let acts = matrix_frame_acts(speed_frame(frame, START_SPEED)) + set_all_acts(
                START_SPEED,
            );
            let after = run(acts, regs);
            &&& after[0x4001_0034u32] == 400
            &&& after[0x4001_003Cu32] == 400
            &&& START_SPEED == 400
        }),
{
    motors_follow_start(frame, 0, regs);
}

/// The side buttons do nothing while the hub is paused. Where both go down at once, the step
/// down comes first, and both speeds are driven and shown. Those that go down at the end of a
/// press that lets the motors run again come behind it.
pub proof fn ticks_take_buttons_in_order(d: Drive, btns: u8, frame: Seq<u8>)
    requires
        -1000 <= d.speed <= 1000,
        !switches_off(d, btns),
    ensures
        ({
            let after = ticked(d, btns);
            let sides = (btns & !d.prev) & 6;
            let wait = seq![Act::DelayMs { ms: 50 }];
            let start = painted(frame, speed_brightness(d.speed), 25);
            let first = if d.paused {
                start
            } else {
                frame
            };
            let again = if d.paused {
                set_all_acts(d.speed) + matrix_frame_acts(start)
            } else {
                Seq::empty()
            };
            let low = if d.speed < -800 {
                -1000i16
            } else {
                (d.speed - 200) as i16
            };
            let shown = painted(first, speed_brightness(low), 25);
            &&& d.paused && after.paused ==> tick_acts(d, btns, frame) == wait
            &&& !after.paused && sides == 6 ==> tick_acts(d, btns, frame) == again + (set_all_acts(
                low,
            ) + matrix_frame_acts(shown)) + (set_all_acts(after.speed) + matrix_frame_acts(
                painted(shown, speed_brightness(after.speed), 25),
            )) + wait
            &&& !after.paused && (sides == 2 || sides == 4) ==> tick_acts(d, btns, frame) == again
                + (set_all_acts(after.speed) + matrix_frame_acts(
                painted(first, speed_brightness(after.speed), 25),
            )) + wait
        }),
{
    let r = btns & !d.prev;
    assert((r & 6 == 6 <==> r & 2 != 0 && r & 4 != 0) && (r & 6 == 2 <==> r & 2 != 0 && r & 4 == 0)
        && (r & 6 == 4 <==> r & 2 == 0 && r & 4 != 0)) by (bit_vector);
    let wait = seq![Act::DelayMs { ms: 50 }];
    let press = press_acts(d, btns, frame);
    let left = left_acts(d, btns, frame);
    let right = right_acts(d, btns, frame);
    assert(tick_acts(d, btns, frame) =~= press + left + right + wait);
    if ticked(d, btns).paused {
        assert(press + left + right + wait =~= press + wait);
        assert(Seq::<Act>::empty() + wait =~= wait);
    } else if r & 6 == 2 {
        assert(press + left + right + wait =~= press + left + wait);
    } else if r & 6 == 4 {
        assert(press + left + right + wait =~= press + right + wait);
    }
}

proof fn repainted(frame: Seq<u8>, a: spec_fn(int) -> u16, b: spec_fn(int) -> u16)
    ensures
        painted(painted(frame, a, 25), b, 25) == painted(frame, b, 25),
{
    assert(painted(painted(frame, a, 25), b, 25) =~= painted(frame, b, 25));
}

/// What is shown after a tick: the pause sign where it paused, the bar of the speed where it
/// let the motors run again or a side button counted, and else what was shown before.
pub proof fn matrix_follows_ticks(d: Drive, btns: u8, frame: Seq<u8>)
    ensures
        ({
            let after = ticked(d, btns);
            let sides = (btns & !d.prev) & 6;
            frame_after(d, btns, frame) == if after.paused {
                if d.paused {
                    frame
                } else {
                    painted(frame, pattern_brightness(PAUSE@, 50), 25)
                }
            } else if d.paused || sides != 0 {
                painted(frame, speed_brightness(after.speed), 25)
            } else {
                frame
            }
        }),
{
    let r = btns & !d.prev;
    assert(r & 6 == 0 <==> r & 2 == 0 && r & 4 == 0) by (bit_vector);
    let start = speed_brightness(d.speed);
    let low = speed_brightness(speed_after_left(d, btns));
    let new = speed_brightness(speed_after(d, btns));
    repainted(frame, start, low);
    repainted(frame, start, new);
    repainted(frame, low, new);
}

} // verus!
