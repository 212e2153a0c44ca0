//! The LED application: a light show with random motor moves, started and stopped
//! by pressing both side buttons.
use crate::button::{button_adc_acts, init_button_adc, BTN_CENTER, BTN_LEFT, BTN_RIGHT};
use crate::clock::{
    beep, beep_acts, beep_period_acts, beep_start_acts, beep_stop_acts, beep_wave_acts,
    init_clocks_acts, init_clocks_unless_running, pll_selected, HCLK_HZ,
};
use crate::hub::{shutdown, shutdown_acts};
use crate::matrix::{channels_are_distinct, led_channel, LED_CHANNELS};
use crate::motor::{
    all_spare_bridges, coast_all_acts, coast_all_coasts_both, init_motor_hw, is_coasting,
    motor_coast_all, motor_drive_acts, motor_drive_drives, motor_hw_acts, motor_pins_acts,
    motors_start_coasting, other, port_power_acts, same_bridge, set_motor_a, set_motor_b,
    spared_run, timer_setup_acts, Motor,
};
use crate::plan::{group_run, run, Act, Op, Plan, Regs};
use crate::rng::{xorshift, Rng};
use crate::tlc5955::{
    chip_append, chip_quiet, chip_run, control_bytes, frame_acts, frame_is_latched,
    frame_spares_bridges, grey_bytes, setup_is_quiet, tlc5955_init_hw, tlc5955_init_hw_acts,
    tlc5955_send_control, tlc5955_send_gs, CHANNELS, Chip,
};
use crate::trace::fields_by_division;
use vstd::prelude::*;

verus! {

/// Milliseconds of a tick.
pub const LOOP_MS: u32 = 20;

/// Ticks after which a held center button switches the hub off: 2 s.
pub const CENTER_LONG_PRESS_TICKS: u32 = 100;

/// Ticks for which a side button that went down waits for the other: 160 ms.
pub const SIDE_SYNC_WINDOW_TICKS: u32 = 8;

/// Ticks between two moves: at least 800 ms, and up to 1200 ms more.
pub const MOTOR_MIN_PERIOD: u32 = 40;

pub const MOTOR_PERIOD_RANGE: u32 = 60;

/// Ticks of a move: at least 60 ms, and up to 100 ms more.
pub const MOTOR_MIN_ON: u32 = 3;

pub const MOTOR_ON_RANGE: u32 = 5;

/// Duty of a move.
pub const MOTOR_DUTY: i16 = 500;

/// Both side buttons.
pub const BTN_SIDES: u8 = 0x06;

// ---------------------------------------------------------------------------
// Frames
// ---------------------------------------------------------------------------

/// Levels while idle: the middle light, and the upper status LED in soft blue.
pub open spec fn idle_levels() -> Seq<u16> {
    Seq::new(
        CHANNELS as nat,
        |ch: int|
            if ch == led_channel(12) {
                0x1000u16
            } else if ch == 3 {
                0x0800u16
            } else {
                0u16
            },
    )
}

/// Shows that the application is idle.
pub fn show_idle_frame() -> (p: Plan)
    ensures
        p@ == frame_acts(grey_bytes(idle_levels())),
{
    let mut gs: [u16; CHANNELS] = [0; CHANNELS];
    proof {
        channels_are_distinct(12);
    }
    gs[LED_CHANNELS[12] as usize] = 0x1000;
    gs[3] = 0x0800;
    assert(gs@ =~= idle_levels());
    tlc5955_send_gs(&gs)
}

/// Level of the breathing status LED: up for ten frames, down for ten.
pub open spec fn breath(frame: u32) -> u16 {
    let p = frame as int % 20;
    (0x0800 + 0x0200 * (if p < 10 {
        p
    } else {
        19 - p
    })) as u16
}

/// The light that the show has reached.
pub open spec fn dot(frame: u32) -> int {
    frame as int % 25
}

/// Levels of a frame of the show: a breathing status LED, a dot that runs over
/// the matrix with a tail behind it, and the Bluetooth LED.
pub open spec fn resident_levels(frame: u32) -> Seq<u16> {
    Seq::new(
        CHANNELS as nat,
        |ch: int|
            if ch == 18 || ch == 19 {
                0x0800u16
            } else if ch == led_channel((dot(frame) + 24) % 25) {
                0x1000u16
            } else if ch == led_channel(dot(frame)) {
                0x3000u16
            } else if ch == 4 {
                breath(frame)
            } else {
                0u16
            },
    )
}

/// Shows a frame of the show.
pub fn show_resident_frame(frame: u32) -> (p: Plan)
    ensures
        p@ == frame_acts(grey_bytes(resident_levels(frame))),
{
    let mut gs: [u16; CHANNELS] = [0; CHANNELS];
    let p: u32 = frame % 20;
    let tri: u16 = if p < 10 {
        p as u16
    } else {
        (19 - p) as u16
    };
    gs[4] = 0x0800 + tri * 0x0200;
    let idx: usize = (frame % 25) as usize;
    let tail: usize = (idx + 24) % 25;
    proof {
        channels_are_distinct(idx as int);
        channels_are_distinct(tail as int);
    }
    gs[LED_CHANNELS[idx] as usize] = 0x3000;
    gs[LED_CHANNELS[tail] as usize] = 0x1000;
    gs[19] = 0x0800;
    gs[18] = 0x0800;
    assert(gs@ =~= resident_levels(frame));
    tlc5955_send_gs(&gs)
}

/// Every frame of the show lights the dot and the tail behind it as they should
/// be: no other LED of the show shares their channels.
pub proof fn show_keeps_dot_visible(frame: u32)
    ensures
        resident_levels(frame)[led_channel(dot(frame))] == 0x3000,
        resident_levels(frame)[led_channel((dot(frame) + 24) % 25)] == 0x1000,
        0x0800 <= resident_levels(frame)[4] <= 0x1A00,
{
    channels_are_distinct(dot(frame));
    channels_are_distinct((dot(frame) + 24) % 25);
}

/// The channels that a frame of the show lights.
pub open spec fn shown_channels(frame: u32) -> Seq<int> {
    seq![4, 18, 19, led_channel(dot(frame)), led_channel((dot(frame) + 24) % 25)]
}

/// Every frame of the show lights five channels, no two of them the same, and no
/// other channel.
pub proof fn show_lights_five_channels(frame: u32)
    ensures
        shown_channels(frame).len() == 5,
        shown_channels(frame).no_duplicates(),
        forall|ch: int|
            0 <= ch < CHANNELS ==> (#[trigger] resident_levels(frame)[ch] != 0
                <==> shown_channels(frame).contains(ch)),
        forall|i: int| 0 <= i < 5 ==> 0 <= #[trigger] shown_channels(frame)[i] < CHANNELS,
{
    let lit = shown_channels(frame);
    channels_are_distinct(dot(frame));
    channels_are_distinct((dot(frame) + 24) % 25);
    assert(lit[0] == 4 && lit[1] == 18 && lit[2] == 19 && lit[3] == led_channel(dot(frame))
        && lit[4] == led_channel((dot(frame) + 24) % 25));
}

/// The show repeats itself after a hundred frames.
pub proof fn show_repeats(frame: u32)
    requires
        frame + 100 <= u32::MAX,
    ensures
        resident_levels((frame + 100) as u32) == resident_levels(frame),
{
    assert(dot((frame + 100) as u32) == dot(frame));
    assert(breath((frame + 100) as u32) == breath(frame));
    assert(resident_levels((frame + 100) as u32) =~= resident_levels(frame));
}

// ---------------------------------------------------------------------------
// Start
// ---------------------------------------------------------------------------

/// Clocks, if the monitor has not set them up.
pub open spec fn clocks_acts(cfgr: u32) -> Seq<Act> {
    if pll_selected(cfgr) {
        Seq::empty()
    } else {
        init_clocks_acts()
    }
}

/// Clocks, two beeps, the driver with its control frame twice, buttons, motors,
/// and the idle frame.
pub open spec fn led_start_acts(cfgr: u32) -> Seq<Act> {
    clocks_acts(cfgr) + beep_acts(80, 1500).push(Act::DelayMs { ms: 80 }) + beep_acts(80, 2000)
        + tlc5955_init_hw_acts() + frame_acts(control_bytes()) + frame_acts(control_bytes())
        + button_adc_acts() + motor_hw_acts() + frame_acts(grey_bytes(idle_levels()))
}

/// Sets the application up, by the clock configuration it finds.
pub fn led_start(cfgr: u32) -> (p: Plan)
    ensures
        p@ == led_start_acts(cfgr),
{
    let mut p: Plan = init_clocks_unless_running(cfgr);
    let mut first: Plan = beep(80, 1500);
    first.push(Op::DelayMs { ms: 80 });
    p.append(first);
    p.append(beep(80, 2000));
    p.append(tlc5955_init_hw());
    p.append(tlc5955_send_control());
    p.append(tlc5955_send_control());
    p.append(init_button_adc());
    p.append(init_motor_hw());
    p.append(show_idle_frame());
    p
}

// ---------------------------------------------------------------------------
// Both side buttons
// ---------------------------------------------------------------------------

/// The detector of both side buttons.
#[derive(Clone, Copy, Debug, PartialEq, Eq, Structural)]
pub struct Combo {
    /// Both have been seen; they have to part before they count again.
    pub latch: bool,
    /// The side button that waits for the other; 0 where none does.
    pub pending_side: u8,
    /// Ticks that it still waits.
    pub pending_ticks: u32,
}

/// The button that waits, after a tick's edges.
pub open spec fn waiting(c: Combo, rising: u8) -> u8 {
    let side = rising & BTN_SIDES;
    if side == BTN_LEFT || side == BTN_RIGHT {
        side
    } else {
        c.pending_side
    }
}

/// Ticks that it waits.
pub open spec fn waiting_ticks(c: Combo, rising: u8) -> u32 {
    let side = rising & BTN_SIDES;
    if side == BTN_LEFT || side == BTN_RIGHT {
        SIDE_SYNC_WINDOW_TICKS
    } else {
        c.pending_ticks
    }
}

/// The other side button.
pub open spec fn opposite(side: u8) -> u8 {
    if side == BTN_LEFT {
        BTN_RIGHT
    } else {
        BTN_LEFT
    }
}

/// Whether a tick toggles the show: both buttons went down at once, or the one
/// that waits is still down and the other is down too.
pub open spec fn toggles(c: Combo, btns: u8, rising: u8) -> bool {
    !c.latch && {
        ||| rising & BTN_SIDES == BTN_SIDES
        ||| waiting(c, rising) != 0 && btns & waiting(c, rising) != 0 && btns & opposite(
            waiting(c, rising),
        ) != 0
    }
}

/// The detector after a tick.
pub open spec fn combined(c: Combo, btns: u8, rising: u8) -> Combo {
    let both = btns & BTN_SIDES == BTN_SIDES;
    if c.latch {
        Combo { latch: both, ..c }
    } else if toggles(c, btns, rising) {
        Combo { latch: both, pending_side: 0, pending_ticks: 0 }
    } else {
        let w = waiting(c, rising);
        let t = waiting_ticks(c, rising);
        if w == 0 {
            Combo { latch: false, pending_side: 0, pending_ticks: t }
        } else {
            let left = if t > 0 {
                (t - 1) as u32
            } else {
                0u32
            };
            Combo {
                latch: false,
                pending_side: if left == 0 || btns & w == 0 {
                    0
                } else {
                    w
                },
                pending_ticks: left,
            }
        }
    }
}

impl Combo {
    /// Nothing pressed so far.
    pub fn new() -> (c: Combo)
        ensures
            c == (Combo { latch: false, pending_side: 0, pending_ticks: 0 }),
    {
        Combo { latch: false, pending_side: 0, pending_ticks: 0 }
    }

    /// Takes a tick, and says whether it toggles the show.
    pub fn step(&mut self, btns: u8, rising: u8) -> (toggled: bool)
        ensures
            toggled == toggles(*old(self), btns, rising),
            *final(self) == combined(*old(self), btns, rising),
    {
        let mut toggled: bool = false;
        if !self.latch {
            let side_rising: u8 = rising & BTN_SIDES;
            if side_rising == BTN_SIDES {
                toggled = true;
                self.latch = true;
                self.pending_side = 0;
                self.pending_ticks = 0;
            } else {
                if side_rising == BTN_LEFT || side_rising == BTN_RIGHT {
                    self.pending_side = side_rising;
                    self.pending_ticks = SIDE_SYNC_WINDOW_TICKS;
                }
                if self.pending_side != 0 {
                    let other: u8 = if self.pending_side == BTN_LEFT {
                        BTN_RIGHT
                    } else {
                        BTN_LEFT
                    };
                    let pending_still_down: bool = btns & self.pending_side != 0;
                    let other_now_down: bool = btns & other != 0;
                    if pending_still_down && other_now_down {
                        toggled = true;
                        self.latch = true;
                        self.pending_side = 0;
                        self.pending_ticks = 0;
                    } else {
                        if self.pending_ticks > 0 {
                            self.pending_ticks = self.pending_ticks - 1;
                        }
                        if self.pending_ticks == 0 || !pending_still_down {
                            self.pending_side = 0;
                        }
                    }
                }
            }
        }
        if btns & BTN_SIDES != BTN_SIDES {
            self.latch = false;
        }
        toggled
    }
}

// ---------------------------------------------------------------------------
// The show
// ---------------------------------------------------------------------------

/// Ticks of a move, by a random number.
pub open spec fn move_ticks(r: u32) -> u32 {
    (MOTOR_MIN_ON + r as int % (MOTOR_ON_RANGE + 1)) as u32
}

/// Duty of a move, by a random number.
pub open spec fn move_duty(r: u32) -> i16 {
    if r & 0x100 != 0 {
        MOTOR_DUTY
    } else {
        (-MOTOR_DUTY) as i16
    }
}

/// Ticks until the next move, by a random number.
pub open spec fn move_period(r: u32) -> u32 {
    (MOTOR_MIN_PERIOD + r as int % (MOTOR_PERIOD_RANGE + 1)) as u32
}

/// State of the show.
#[derive(Clone, Copy, Debug, PartialEq, Eq, Structural)]
pub struct Show {
    pub running: bool,
    pub frame: u32,
    /// Ticks until the next move.
    pub countdown: u32,
    /// Ticks that the motors still run.
    pub on_left: u32,
    pub on_right: u32,
    pub rng: Rng,
}

/// Frames are counted in 32 bits.
pub open spec fn next_frame(frame: u32) -> u32 {
    ((frame + 1) % 0x1_0000_0000) as u32
}

/// Ticks left after one has passed.
pub open spec fn one_less(n: u32) -> u32 {
    if n > 0 {
        (n - 1) as u32
    } else {
        0
    }
}

/// The random numbers of a move.
pub open spec fn draw1(s: Show) -> u32 {
    xorshift(s.rng.state)
}

pub open spec fn draw2(s: Show) -> u32 {
    xorshift(draw1(s))
}

pub open spec fn draw3(s: Show) -> u32 {
    xorshift(draw2(s))
}

/// The show once a move that is due has begun.
pub open spec fn moved(s: Show) -> Show {
    if s.countdown == 0 {
        Show {
            countdown: move_period(draw3(s)),
            on_left: move_ticks(draw1(s)),
            on_right: move_ticks(draw2(s)),
            rng: Rng { state: draw3(s) },
            ..s
        }
    } else {
        Show { countdown: (s.countdown - 1) as u32, ..s }
    }
}

/// What a move that is due does: each motor its own way.
pub open spec fn move_acts(s: Show) -> Seq<Act> {
    if s.countdown == 0 {
        motor_drive_acts(Motor::A, move_duty(draw1(s))) + motor_drive_acts(
            Motor::B,
            move_duty(draw2(s)),
        )
    } else {
        Seq::empty()
    }
}

/// What ends a motor's move: it coasts when its ticks are over.
pub open spec fn rest_acts(motor: Motor, on: u32) -> Seq<Act> {
    if on == 1 {
        motor_drive_acts(motor, 0)
    } else {
        Seq::empty()
    }
}

/// The show after a tick.
pub open spec fn shown_on(s: Show) -> Show {
    if s.running {
        let m = moved(s);
        Show {
            on_left: one_less(m.on_left),
            on_right: one_less(m.on_right),
            frame: next_frame(s.frame),
            ..m
        }
    } else {
        s
    }
}

/// What the show does in a tick: the next frame, a move that is due, and the end
/// of moves.
pub open spec fn show_acts(s: Show) -> Seq<Act> {
    if s.running {
        frame_acts(grey_bytes(resident_levels(s.frame))) + move_acts(s) + rest_acts(
            Motor::A,
            moved(s).on_left,
        ) + rest_acts(Motor::B, moved(s).on_right)
    } else {
        Seq::empty()
    }
}

/// The show toggled, from its first frame.
pub open spec fn toggled(s: Show) -> Show {
    Show { running: !s.running, frame: 0, ..s }
}

/// What toggling does: motors coast, and the first or the idle frame is shown.
pub open spec fn toggle_acts(running: bool) -> Seq<Act> {
    if running {
        frame_acts(grey_bytes(resident_levels(0))) + coast_all_acts()
    } else {
        coast_all_acts() + frame_acts(grey_bytes(idle_levels()))
    }
}

impl Show {
    /// A show that has not been started.
    pub fn new(rng: Rng) -> (s: Show)
        ensures
            s == (Show {
                running: false,
                frame: 0,
                countdown: 0,
                on_left: 0,
                on_right: 0,
                rng,
            }),
    {
        Show { running: false, frame: 0, countdown: 0, on_left: 0, on_right: 0, rng }
    }

    /// Starts or stops the show.
    pub fn toggle_resident_program(&mut self) -> (p: Plan)
        ensures
            *final(self) == toggled(*old(self)),
            p@ == toggle_acts(!old(self).running),
    {
        self.running = !self.running;
        self.frame = 0;
        if self.running {
            let mut p: Plan = show_resident_frame(0);
            p.append(motor_coast_all());
            p
        } else {
            let mut p: Plan = motor_coast_all();
            p.append(show_idle_frame());
            p
        }
    }

    /// Takes the show one tick on.
    pub fn step(&mut self) -> (p: Plan)
        ensures
            *final(self) == shown_on(*old(self)),
            p@ == show_acts(*old(self)),
    {
        let ghost s = *self;
        let mut p: Plan = Plan::new();
        if !self.running {
            return p;
        }
        p.append(show_resident_frame(self.frame));
        if self.countdown == 0 {
            let r: u32 = self.rng.rng_next();
            let r2: u32 = self.rng.rng_next();
            self.on_left = MOTOR_MIN_ON + r % (MOTOR_ON_RANGE + 1);
            self.on_right = MOTOR_MIN_ON + r2 % (MOTOR_ON_RANGE + 1);
            let dir_a: i16 = if r & 0x100 != 0 {
                MOTOR_DUTY
            } else {
                -MOTOR_DUTY
            };
            let dir_b: i16 = if r2 & 0x100 != 0 {
                MOTOR_DUTY
            } else {
                -MOTOR_DUTY
            };
            p.append(set_motor_a(dir_a));
            p.append(set_motor_b(dir_b));
            let r3: u32 = self.rng.rng_next();
            self.countdown = MOTOR_MIN_PERIOD + r3 % (MOTOR_PERIOD_RANGE + 1);
        } else {
            self.countdown = self.countdown - 1;
        }
        assert(p@ =~= frame_acts(grey_bytes(resident_levels(s.frame))) + move_acts(s));
        assert(*self == moved(s));
        if self.on_left > 0 {
            self.on_left = self.on_left - 1;
            if self.on_left == 0 {
                p.append(set_motor_a(0));
            }
        }
        assert(p@ =~= frame_acts(grey_bytes(resident_levels(s.frame))) + move_acts(s) + rest_acts(
            Motor::A,
            moved(s).on_left,
        ));
        if self.on_right > 0 {
            self.on_right = self.on_right - 1;
            if self.on_right == 0 {
                p.append(set_motor_b(0));
            }
        }
        self.frame = self.frame.wrapping_add(1);
        assert(p@ =~= show_acts(s));
        p
    }
}

// ---------------------------------------------------------------------------
// The application
// ---------------------------------------------------------------------------

/// State of the application.
pub struct LedTest {
    /// Buttons at the last tick.
    pub prev_btns: u8,
    /// Ticks that the center button has been held.
    pub center_hold: u32,
    pub combo: Combo,
    pub show: Show,
}

/// Whether a tick switches the hub off.
pub open spec fn led_switches_off(hold: u32, btns: u8) -> bool {
    btns & BTN_CENTER != 0 && hold + 1 >= CENTER_LONG_PRESS_TICKS
}

/// A click whenever a button goes down.
pub open spec fn click_acts(rising: u8) -> Seq<Act> {
    if rising != 0 {
        beep_acts(10, 4000)
    } else {
        Seq::empty()
    }
}

/// The show after the side buttons.
pub open spec fn show_after_sides(c: Combo, s: Show, btns: u8, rising: u8) -> Show {
    if toggles(c, btns, rising) {
        toggled(s)
    } else {
        s
    }
}

pub open spec fn sides_acts(c: Combo, s: Show, btns: u8, rising: u8) -> Seq<Act> {
    if toggles(c, btns, rising) {
        toggle_acts(!s.running)
    } else {
        Seq::empty()
    }
}

/// What a tick does.
pub open spec fn led_tick_acts(prev: u8, hold: u32, c: Combo, s: Show, btns: u8) -> Seq<Act> {
    let rising = btns & !prev;
    if led_switches_off(hold, btns) {
        click_acts(rising) + shutdown_acts()
    } else {
        (click_acts(rising) + sides_acts(c, s, btns, rising) + show_acts(
            show_after_sides(c, s, btns, rising),
        )).push(Act::DelayMs { ms: LOOP_MS })
    }
}

impl LedTest {
    /// A press has not yet switched the hub off.
    pub open spec fn wf(&self) -> bool {
        self.center_hold < CENTER_LONG_PRESS_TICKS
    }

    /// The application before its first tick.
    pub fn new(btns: u8, rng: Rng) -> (t: LedTest)
        ensures
            t.wf(),
            t.prev_btns == btns,
            t.center_hold == 0,
            t.combo == (Combo { latch: false, pending_side: 0, pending_ticks: 0 }),
            t.show == (Show {
                running: false,
                frame: 0,
                countdown: 0,
                on_left: 0,
                on_right: 0,
                rng,
            }),
    {
        LedTest { prev_btns: btns, center_hold: 0, combo: Combo::new(), show: Show::new(rng) }
    }

    /// Takes a tick with the buttons that are down. The second result says that
    /// the hub is off; the state then stays as it was.
    pub fn tick(&mut self, btns: u8) -> (r: (Plan, bool))
        requires
            old(self).wf(),
        ensures
            r.0@ == led_tick_acts(
                old(self).prev_btns,
                old(self).center_hold,
                old(self).combo,
                old(self).show,
                btns,
            ),
            r.1 == led_switches_off(old(self).center_hold, btns),
            final(self).wf(),
            r.1 ==> *final(self) == *old(self),
            !r.1 ==> {
                let rising = btns & !old(self).prev_btns;
                &&& final(self).prev_btns == btns
                &&& final(self).center_hold == if btns & BTN_CENTER != 0 {
                    (old(self).center_hold + 1) as u32
                } else {
                    0
                }
                &&& final(self).combo == combined(old(self).combo, btns, rising)
                &&& final(self).show == shown_on(
                    show_after_sides(old(self).combo, old(self).show, btns, rising),
                )
            },
    {
        let ghost c = self.combo;
        let ghost s = self.show;
        let rising: u8 = btns & !self.prev_btns;
        let mut p: Plan = if rising != 0 {
            beep(10, 4000)
        } else {
            Plan::new()
        };
        if btns & BTN_CENTER != 0 {
            if self.center_hold >= CENTER_LONG_PRESS_TICKS - 1 {
                p.append(shutdown());
                return (p, true);
            }
            self.center_hold = self.center_hold + 1;
        } else {
            self.center_hold = 0;
        }
        if self.combo.step(btns, rising) {
            p.append(self.show.toggle_resident_program());
        }
        assert(p@ =~= click_acts(rising) + sides_acts(c, s, btns, rising));
        p.append(self.show.step());
        self.prev_btns = btns;
        p.push(Op::DelayMs { ms: LOOP_MS });
        (p, false)
    }
}

// ---------------------------------------------------------------------------
// What the application promises
// ---------------------------------------------------------------------------

/// What a detector knows about the buttons of the last tick: a button that waits
/// is down, and the other is up.
pub open spec fn combo_fits(c: Combo, prev: u8) -> bool {
    &&& c.pending_side == 0 || c.pending_side == BTN_LEFT || c.pending_side == BTN_RIGHT
    &&& c.pending_ticks <= SIDE_SYNC_WINDOW_TICKS
    &&& !c.latch && c.pending_side != 0 ==> prev & c.pending_side != 0 && prev & opposite(
        c.pending_side,
    ) == 0
    &&& c.latch ==> c.pending_side == 0
}

proof fn side_bits(btns: u8, prev: u8)
    ensures
        ({
            let r = btns & !prev;
            &&& r & 6 == 0 || r & 6 == 2 || r & 6 == 4 || r & 6 == 6
            &&& r & 6 == 6 ==> btns & 6 == 6
            &&& r & 6 == 2 ==> btns & 2 != 0
            &&& r & 6 == 4 ==> btns & 4 != 0
            &&& btns & 6 == 6 <==> btns & 2 != 0 && btns & 4 != 0
            &&& r & 6 == 0 && btns & 2 != 0 ==> prev & 2 != 0
            &&& r & 6 == 0 && btns & 4 != 0 ==> prev & 4 != 0
        }),
{
    assert({
        let r = btns & !prev;
        &&& r & 6 == 0 || r & 6 == 2 || r & 6 == 4 || r & 6 == 6
        &&& r & 6 == 6 ==> btns & 6 == 6
        &&& r & 6 == 2 ==> btns & 2 != 0
        &&& r & 6 == 4 ==> btns & 4 != 0
        &&& btns & 6 == 6 <==> btns & 2 != 0 && btns & 4 != 0
        &&& r & 6 == 0 && btns & 2 != 0 ==> prev & 2 != 0
        &&& r & 6 == 0 && btns & 4 != 0 ==> prev & 4 != 0
    }) by (bit_vector);
}

/// What the detector knows stays true through every tick.
pub proof fn combo_keeps_fitting(c: Combo, prev: u8, btns: u8)
    requires
        combo_fits(c, prev),
    ensures
        combo_fits(combined(c, btns, btns & !prev), btns),
{
    side_bits(btns, prev);
}

/// The show is toggled exactly when the side buttons meet: both are down, one of
/// them has just gone down, and they have been apart since the last time.
pub proof fn sides_toggle_when_they_meet(c: Combo, prev: u8, btns: u8)
    requires
        combo_fits(c, prev),
    ensures
        toggles(c, btns, btns & !prev) <==> {
            &&& !c.latch
            &&& btns & BTN_LEFT != 0
            &&& btns & BTN_RIGHT != 0
            &&& (btns & !prev) & BTN_SIDES != 0
        },
{
    side_bits(btns, prev);
}

/// Holding both buttons toggles the show once, and not again until they part.
pub proof fn held_sides_toggle_once(c: Combo, prev: u8, btns: u8, later: u8)
    requires
        combo_fits(c, prev),
        toggles(c, btns, btns & !prev),
        later & BTN_SIDES == BTN_SIDES,
    ensures
        ({
            let once = combined(c, btns, btns & !prev);
            &&& once.latch
            &&& !toggles(once, later, later & !btns)
            &&& combined(once, later, later & !btns).latch
        }),
{
    side_bits(btns, prev);
}

/// A move lasts 60 to 160 ms at half power, and the next one begins 0.8 to 2 s
/// after it did.
pub proof fn moves_are_bounded(r: u32)
    ensures
        3 <= move_ticks(r) <= 8,
        move_duty(r) == 500 || move_duty(r) == -500,
        40 <= move_period(r) <= 100,
{
}

/// Whether the motors rest before the next move.
pub open spec fn rests_in_time(s: Show) -> bool {
    s.on_left <= s.countdown && s.on_right <= s.countdown
}

/// Every move ends before the next one begins.
pub proof fn moves_never_overlap(s: Show)
    requires
        rests_in_time(s),
    ensures
        rests_in_time(shown_on(s)),
        rests_in_time(toggled(s)),
        s.countdown == 0 ==> s.on_left == 0 && s.on_right == 0,
{
    moves_are_bounded(draw1(s));
    moves_are_bounded(draw2(s));
    moves_are_bounded(draw3(s));
}

proof fn wave_spares(half: u32, n: nat)
    ensures
        all_spare_bridges(beep_wave_acts(half, n)),
    decreases n,
{
    if n > 0 {
        wave_spares(half, (n - 1) as nat);
        assert(all_spare_bridges(beep_period_acts(half)));
    }
}

/// A beep leaves the motors alone.
pub proof fn beep_spares_bridges(duration_ms: u32, freq_hz: u32)
    ensures
        all_spare_bridges(beep_acts(duration_ms, freq_hz)),
{
    let half = (HCLK_HZ as int / (freq_hz * 2)) as u32;
    let n = (duration_ms * freq_hz / 1000) as nat;
    wave_spares(half, n);
    assert(all_spare_bridges(beep_start_acts()));
    assert(all_spare_bridges(beep_stop_acts()));
}

/// While the show is off, both motors coast, whatever the buttons do; and a tick
/// that stops the show stops them.
pub proof fn idle_motors_coast(prev: u8, hold: u32, c: Combo, s: Show, btns: u8, regs: Regs)
    requires
        !led_switches_off(hold, btns),
        !s.running ==> is_coasting(regs, Motor::A) && is_coasting(regs, Motor::B),
        !show_after_sides(c, s, btns, btns & !prev).running,
    ensures
        ({
            let after = run(led_tick_acts(prev, hold, c, s, btns), regs);
            is_coasting(after, Motor::A) && is_coasting(after, Motor::B)
        }),
{
    broadcast use group_run;

    let rising = btns & !prev;
    let click = click_acts(rising);
    beep_spares_bridges(10, 4000);
    spared_run(click, regs);
    let clicked = run(click, regs);
    coast_all_coasts_both(clicked);
    let coasted = run(coast_all_acts(), clicked);
    frame_spares_bridges(grey_bytes(idle_levels()));
    spared_run(frame_acts(grey_bytes(idle_levels())), coasted);
    let sides = sides_acts(c, s, btns, rising);
    let show = show_acts(show_after_sides(c, s, btns, rising));
    assert(show =~= Seq::<Act>::empty());
    let ended = run(sides, clicked);
    assert(is_coasting(ended, Motor::A) && is_coasting(ended, Motor::B));
    assert(run(click + sides, regs) == ended);
    assert(run(click + sides + show, regs) == run(show, ended));
    assert(run(led_tick_acts(prev, hold, c, s, btns), regs) == ended);
}

/// Whether every motor that has no ticks left coasts, and both do while the show is
/// off.
pub open spec fn idle_rests(s: Show, regs: Regs) -> bool {
    &&& !s.running || s.on_left == 0 ==> is_coasting(regs, Motor::A)
    &&& !s.running || s.on_right == 0 ==> is_coasting(regs, Motor::B)
}

proof fn move_begins(s: Show, regs: Regs)
    requires
        s.running,
        idle_rests(s, regs),
    ensures
        idle_rests(moved(s), run(move_acts(s), regs)),
{
    moves_are_bounded(draw1(s));
    moves_are_bounded(draw2(s));
    assert(run(Seq::empty(), regs) == regs);
}

proof fn move_ends(motor: Motor, on: u32, regs: Regs)
    ensures
        on == 1 ==> is_coasting(run(rest_acts(motor, on), regs), motor),
        on != 1 ==> run(rest_acts(motor, on), regs) == regs,
        same_bridge(run(rest_acts(motor, on), regs), regs, other(motor)),
{
    motor_drive_drives(motor, 0, regs);
    assert(run(Seq::empty(), regs) == regs);
}

proof fn show_rests(s: Show, regs: Regs)
    requires
        idle_rests(s, regs),
    ensures
        idle_rests(shown_on(s), run(show_acts(s), regs)),
{
    broadcast use group_run;

    if s.running {
        let lights = frame_acts(grey_bytes(resident_levels(s.frame)));
        frame_spares_bridges(grey_bytes(resident_levels(s.frame)));
        spared_run(lights, regs);
        let lit = run(lights, regs);
        let m = moved(s);
        move_begins(s, lit);
        let begun = run(move_acts(s), lit);
        move_ends(Motor::A, m.on_left, begun);
        let one = run(rest_acts(Motor::A, m.on_left), begun);
        move_ends(Motor::B, m.on_right, one);
        assert(run(lights + move_acts(s), regs) == begun);
        assert(run(lights + move_acts(s) + rest_acts(Motor::A, m.on_left), regs) == one);
    } else {
        assert(run(show_acts(s), regs) == regs);
    }
}

/// At the start the motors rest.
pub proof fn led_start_rests(cfgr: u32, rng: Rng, regs: Regs)
    ensures
        ({
            let s = Show { running: false, frame: 0, countdown: 0, on_left: 0, on_right: 0, rng };
            idle_rests(s, run(led_start_acts(cfgr), regs))
        }),
{
    broadcast use group_run;

    let idle = frame_acts(grey_bytes(idle_levels()));
    let before = clocks_acts(cfgr) + beep_acts(80, 1500).push(Act::DelayMs { ms: 80 }) + beep_acts(
        80,
        2000,
    ) + tlc5955_init_hw_acts() + frame_acts(control_bytes()) + frame_acts(control_bytes())
        + button_adc_acts();
    let ready = run(before, regs);
    motors_start_coasting(ready);
    frame_spares_bridges(grey_bytes(idle_levels()));
    spared_run(idle, run(motor_hw_acts(), ready));
    assert(led_start_acts(cfgr) == before + motor_hw_acts() + idle);
}

/// No motor runs on when its move is over, whatever the buttons do: through every
/// tick, a motor without ticks left coasts, and so do both while the show is off.
pub proof fn moves_come_to_rest(prev: u8, hold: u32, c: Combo, s: Show, btns: u8, regs: Regs)
    requires
        !led_switches_off(hold, btns),
        idle_rests(s, regs),
    ensures
        idle_rests(
            shown_on(show_after_sides(c, s, btns, btns & !prev)),
            run(led_tick_acts(prev, hold, c, s, btns), regs),
        ),
{
    broadcast use group_run;

    let rising = btns & !prev;
    let click = click_acts(rising);
    beep_spares_bridges(10, 4000);
    spared_run(click, regs);
    let clicked = run(click, regs);
    let sides = sides_acts(c, s, btns, rising);
    let sided = show_after_sides(c, s, btns, rising);
    toggling_rests(s.running, clicked);
    let ended = run(sides, clicked);
    assert(idle_rests(sided, ended));
    show_rests(sided, ended);
    assert(run(click + sides, regs) == ended);
    assert(run(click + sides + show_acts(sided), regs) == run(show_acts(sided), ended));
}

proof fn toggling_rests(running: bool, regs: Regs)
    ensures
        is_coasting(run(toggle_acts(!running), regs), Motor::A),
        is_coasting(run(toggle_acts(!running), regs), Motor::B),
{
    broadcast use group_run;

    let first = frame_acts(grey_bytes(resident_levels(0)));
    let idle = frame_acts(grey_bytes(idle_levels()));
    frame_spares_bridges(grey_bytes(idle_levels()));
    coast_all_coasts_both(regs);
    coast_all_coasts_both(run(first, regs));
    spared_run(idle, run(coast_all_acts(), regs));
}

/// Ticks that the center button has been held, after the first `n` ticks.
pub open spec fn holds(hold: u32, btns: Seq<u8>, n: nat) -> u32
    decreases n,
{
    if n == 0 {
        hold
    } else if btns[n - 1] & BTN_CENTER != 0 {
        (holds(hold, btns, (n - 1) as nat) + 1) as u32
    } else {
        0
    }
}

/// Holding the center button switches the hub off at the hundredth tick, which is
/// two seconds, and not before.
pub proof fn held_center_switches_off(btns: Seq<u8>, n: nat)
    requires
        n < btns.len(),
        n < CENTER_LONG_PRESS_TICKS,
        forall|i: int| 0 <= i < btns.len() ==> #[trigger] btns[i] & BTN_CENTER != 0,
    ensures
        holds(0, btns, n) == n,
        led_switches_off(holds(0, btns, n), btns[n as int]) == (n == CENTER_LONG_PRESS_TICKS - 1),
    decreases n,
{
    assert(btns[n as int] & BTN_CENTER != 0);
    if n > 0 {
        held_center_switches_off(btns, (n - 1) as nat);
        assert(btns[n - 1] & BTN_CENTER != 0);
    }
}

proof fn wave_is_quiet(c: Chip, half: u32, n: nat)
    ensures
        chip_run(c, beep_wave_acts(half, n)) == c,
    decreases n,
{
    broadcast use chip_append;

    if n > 0 {
        wave_is_quiet(c, half, (n - 1) as nat);
        assert((1u32 << 4) & 0x8000 == 0 && (1u32 << 20) & 0x8000 == 0) by (bit_vector);
        chip_quiet(c, beep_period_acts(half));
    }
}

proof fn beep_is_quiet(c: Chip, duration_ms: u32, freq_hz: u32)
    ensures
        chip_run(c, beep_acts(duration_ms, freq_hz)) == c,
{
    broadcast use chip_append;

    wave_is_quiet(
        c,
        (HCLK_HZ as int / (freq_hz * 2)) as u32,
        (duration_ms * freq_hz / 1000) as nat,
    );
    chip_quiet(c, beep_start_acts());
    chip_quiet(c, beep_stop_acts());
}

/// At the start the driver gets its control frame twice, and only then levels.
pub proof fn led_start_controls_twice(cfgr: u32, c: Chip)
    requires
        c.shift.len() == 0,
    ensures
        chip_run(c, led_start_acts(cfgr)).frames == c.frames.push(control_bytes()).push(
            control_bytes(),
        ).push(grey_bytes(idle_levels())),
{
    broadcast use chip_append;

    chip_quiet(c, clocks_acts(cfgr));
    beep_is_quiet(c, 80, 1500);
    beep_is_quiet(c, 80, 2000);
    let pause = seq![Act::DelayMs { ms: 80 }];
    chip_quiet(c, pause);
    assert(beep_acts(80, 1500).push(Act::DelayMs { ms: 80 }) =~= beep_acts(80, 1500) + pause);
    setup_is_quiet(c);
    frame_is_latched(c, control_bytes());
    let one = Chip { shift: Seq::empty(), frames: c.frames.push(control_bytes()) };
    frame_is_latched(one, control_bytes());
    let two = Chip { shift: Seq::empty(), frames: one.frames.push(control_bytes()) };
    chip_quiet(two, button_adc_acts());
    assert((1u32 << 14) & 0x8000 == 0) by (bit_vector);
    chip_quiet(two, port_power_acts());
    chip_quiet(two, motor_pins_acts());
    chip_quiet(two, timer_setup_acts());
    frame_is_latched(two, grey_bytes(idle_levels()));
}

// ---------------------------------------------------------------------------
// The application in numbers
// ---------------------------------------------------------------------------

/// While idle, channel 31 in the middle of the matrix is lit at 0x1000 and channel 3 at 0x800.
pub proof fn idle_in_numbers(ch: int)
    requires
        0 <= ch < 48,
    ensures
        idle_levels().len() == 48,
        idle_levels()[ch] == if ch == 31 {
            0x1000int
        } else if ch == 3 {
            0x800
        } else {
            0
        },
{
    channels_are_distinct(12);
}

/// A frame of the show: the dot at 0x3000 and the light behind it at 0x1000, 25 frames to a
/// round; channel 4 up from 0x800 by 0x200 for ten frames and down again; channels 18 and 19 at
/// 0x800.
pub proof fn show_in_numbers(frame: u32)
    ensures
        ({
            let levels = resident_levels(frame);
            let p = frame as int % 20;
            &&& levels.len() == 48
            &&& levels[led_channel(frame as int % 25)] == 0x3000
            &&& levels[led_channel((frame + 24) % 25)] == 0x1000
            &&& levels[4] == 0x800 + 0x200 * (if p < 10 {
                p
            } else {
                19 - p
            })
            &&& levels[18] == 0x800
            &&& levels[19] == 0x800
        }),
{
    channels_are_distinct(dot(frame));
    channels_are_distinct((dot(frame) + 24) % 25);
    assert((frame as int % 25 + 24) % 25 == (frame + 24) % 25);
}

/// A move by its random number: three ticks and up to five more, at 500 one way or the other
/// by bit 8, and the next one 40 ticks later and up to 60 more.
pub proof fn moves_in_numbers(r: u32)
    ensures
        move_ticks(r) == 3 + r % 6,
        move_duty(r) == if r / 256 % 2 == 1 {
            500
        } else {
            -500int
        },
        move_period(r) == 40 + r % 61,
{
    fields_by_division(r);
}

/// A tick of a show that runs: its frame, a move where one is due, and the end of moves whose
/// last tick it is. A move takes three random numbers: for the left motor, for the right one,
/// and for the time to the next.
pub proof fn show_ticks_in_order(s: Show)
    ensures
        ({
            let r1 = xorshift(s.rng.state);
            let r2 = xorshift(r1);
            let r3 = xorshift(r2);
            let due = s.countdown == 0;
            let left = if due {
                move_ticks(r1)
            } else {
                s.on_left
            };
            let right = if due {
                move_ticks(r2)
            } else {
                s.on_right
            };
            let after = shown_on(s);
            &&& !s.running ==> after == s && show_acts(s).len() == 0
            &&& s.running ==> {
                &&& after.running
                &&& after.frame == (s.frame + 1) % 0x1_0000_0000
                &&& after.countdown == if due {
                    move_period(r3) as int
                } else {
                    s.countdown - 1
                }
                &&& after.on_left == if left == 0 {
                    0
                } else {
                    left - 1
                }
                &&& after.on_right == if right == 0 {
                    0
                } else {
                    right - 1
                }
                &&& after.rng.state == if due {
                    r3
                } else {
                    s.rng.state
                }
                &&& show_acts(s) == frame_acts(grey_bytes(resident_levels(s.frame))) + (if due {
                    motor_drive_acts(Motor::A, move_duty(r1)) + motor_drive_acts(
                        Motor::B,
                        move_duty(r2),
                    )
                } else {
                    Seq::empty()
                }) + (if left == 1 {
                    motor_drive_acts(Motor::A, 0)
                } else {
                    Seq::empty()
                }) + (if right == 1 {
                    motor_drive_acts(Motor::B, 0)
                } else {
                    Seq::empty()
                })
            }
        }),
{
}

/// A tick of the application: a click of 10 ms at 4 kHz where a button goes down, the toggle
/// where the side buttons meet, the show, and a pause of 20 ms; a center button held for a
/// hundred ticks switches off. Toggling starts the show at its first frame.
pub proof fn ticks_in_order(prev: u8, hold: u32, c: Combo, s: Show, btns: u8)
    ensures
        ({
            let rising = btns & !prev;
            let click = if rising != 0 {
                beep_acts(10, 4000)
            } else {
                Seq::empty()
            };
            let acts = led_tick_acts(prev, hold, c, s, btns);
            &&& led_switches_off(hold, btns) <==> btns & 1 != 0 && hold >= 99
            &&& led_switches_off(hold, btns) ==> acts == click + shutdown_acts()
            &&& !led_switches_off(hold, btns) && !toggles(c, btns, rising) ==> acts == click
                + show_acts(s) + seq![Act::DelayMs { ms: 20 }]
            &&& !led_switches_off(hold, btns) && toggles(c, btns, rising) && s.running ==> acts
                == click + (coast_all_acts() + frame_acts(grey_bytes(idle_levels()))) + seq![
                Act::DelayMs { ms: 20 },
            ]
            &&& !led_switches_off(hold, btns) && toggles(c, btns, rising) && !s.running ==> acts
                == click + (frame_acts(grey_bytes(resident_levels(0))) + coast_all_acts())
                + show_acts(Show { running: true, frame: 0, ..s }) + seq![Act::DelayMs { ms: 20 }]
            &&& show_after_sides(c, s, btns, rising) == if toggles(c, btns, rising) {
                Show { running: !s.running, frame: 0, ..s }
            } else {
                s
            }
        }),
{
    let rising = btns & !prev;
    let acts = led_tick_acts(prev, hold, c, s, btns);
    let click = click_acts(rising);
    let wait = seq![Act::DelayMs { ms: 20 }];
    let t = show_after_sides(c, s, btns, rising);
    if !led_switches_off(hold, btns) {
        assert(acts =~= click + sides_acts(c, s, btns, rising) + show_acts(t) + wait);
        if !toggles(c, btns, rising) {
            assert(click + sides_acts(c, s, btns, rising) =~= click);
        } else if s.running {
            let sides = sides_acts(c, s, btns, rising);
            assert(click + sides + show_acts(t) =~= click + sides);
        }
    }
}

/// The side buttons count again once they have parted, and not before.
pub proof fn sides_have_to_part(c: Combo, btns: u8, rising: u8)
    requires
        c.latch,
    ensures
        !toggles(c, btns, rising),
        combined(c, btns, rising).latch <==> btns & 2 != 0 && btns & 4 != 0,
{
    assert(btns & 6 == 6 <==> btns & 2 != 0 && btns & 4 != 0) by (bit_vector);
}

/// A side button that goes down alone waits eight ticks for the other, this one among them. It
/// waits a tick less with every tick, and no longer once it is up. Where both have met, none
/// waits.
pub proof fn sides_wait_eight_ticks(c: Combo, btns: u8, rising: u8)
    requires
        !c.latch,
    ensures
        ({
            let after = combined(c, btns, rising);
            let met = toggles(c, btns, rising);
            &&& met ==> after.pending_side == 0 && after.pending_ticks == 0
            &&& !met ==> !after.latch
            &&& !met && rising & 6 == 2 ==> after.pending_ticks == 7
            &&& !met && rising & 6 == 2 ==> after.pending_side == if btns & 2 != 0 {
                2
            } else {
                0int
            }
            &&& !met && rising & 6 == 4 ==> after.pending_ticks == 7
            &&& !met && rising & 6 == 4 ==> after.pending_side == if btns & 4 != 0 {
                4
            } else {
                0int
            }
            &&& !met && rising & 6 == 0 && c.pending_side == 0 ==> after == c
            &&& !met && rising & 6 == 0 && c.pending_side != 0 ==> {
                &&& after.pending_ticks == if c.pending_ticks == 0 {
                    0
                } else {
                    c.pending_ticks - 1
                }
                &&& after.pending_side == if c.pending_ticks <= 1 || btns & c.pending_side == 0 {
                    0
                } else {
                    c.pending_side as int
                }
            }
        }),
{
}

} // verus!
