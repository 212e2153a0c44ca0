//! The motor test: random short moves on both ports, each on its own, until the
//! center button stops them.
use crate::button::{center_adc_acts, center_down, center_pressed, init_center_adc};
use crate::clock::{beep, beep_acts, init_clocks_unless_running};
use crate::ledtest::{beep_spares_bridges, clocks_acts};
use crate::motor::{
    coast_acts, coast_all_acts, coast_all_coasts_both, driven, init_motor_hw, is_coasting,
    motor_coast_all, motor_drive_acts, motor_drive_drives, motor_hw_acts, motors_start_coasting,
    other, same_bridge, set_motor_a, set_motor_b, spared_run, Motor,
};
use crate::plan::{group_run, run, Act, Op, Plan, Regs};
use crate::rng::{xorshift, Rng};
use crate::trace::fields_by_division;
use vstd::prelude::*;

verus! {

/// Duty of a move.
pub const DUTY: i16 = 500;

/// Milliseconds of a tick.
pub const LOOP_MS: u32 = 20;

/// Ticks between two moves: at least 400 ms, and up to 800 ms more.
pub const MIN_WAIT: u32 = 20;

pub const WAIT_RANGE: u32 = 40;

/// Ticks of a move: at least 60 ms, and up to 140 ms more.
pub const MIN_ON: u32 = 3;

pub const ON_RANGE: u32 = 7;

/// Clocks, a beep, the center button and the motors.
pub open spec fn motor_test_start_acts(cfgr: u32) -> Seq<Act> {
    clocks_acts(cfgr) + beep_acts(100, 1200) + center_adc_acts() + motor_hw_acts()
}

/// Sets the application up, by the clock configuration it finds.
pub fn motor_test_start(cfgr: u32) -> (p: Plan)
    ensures
        p@ == motor_test_start_acts(cfgr),
{
    let mut p: Plan = init_clocks_unless_running(cfgr);
    p.append(beep(100, 1200));
    p.append(init_center_adc());
    p.append(init_motor_hw());
    p
}

/// Timing of one motor.
#[derive(Clone, Copy, Debug, PartialEq, Eq, Structural)]
pub struct Mover {
    /// Ticks until the next move.
    pub countdown: u32,
    /// Ticks that the motor still runs.
    pub on: u32,
}

/// Ticks of a move, by a random number.
pub open spec fn pulse_ticks(r: u32) -> u32 {
    (MIN_ON + r as int % (ON_RANGE + 1)) as u32
}

/// Duty of a move, by a random number.
pub open spec fn pulse_duty(r: u32) -> i16 {
    if r & 0x80 != 0 {
        DUTY
    } else {
        (-DUTY) as i16
    }
}

/// Ticks until the next move, by a random number.
pub open spec fn pulse_wait(r: u32) -> u32 {
    (MIN_WAIT + r as int % (WAIT_RANGE + 1)) as u32
}

/// Whether a tick begins a move.
pub open spec fn begins(m: Mover) -> bool {
    m.on == 0 && m.countdown == 0
}

/// A motor's timing after a tick.
pub open spec fn mover_after(m: Mover, state: u32) -> Mover {
    if m.on > 0 {
        Mover { on: (m.on - 1) as u32, ..m }
    } else if m.countdown == 0 {
        Mover {
            on: pulse_ticks(xorshift(state)),
            countdown: pulse_wait(xorshift(xorshift(state))),
        }
    } else {
        Mover { countdown: (m.countdown - 1) as u32, ..m }
    }
}

/// The generator after a motor's tick: a move takes two numbers.
pub open spec fn state_after(m: Mover, state: u32) -> u32 {
    if begins(m) {
        xorshift(xorshift(state))
    } else {
        state
    }
}

/// What a motor does in a tick: begin a move, end one, or nothing.
pub open spec fn mover_acts(motor: Motor, m: Mover, state: u32) -> Seq<Act> {
    if m.on > 0 {
        if m.on == 1 {
            motor_drive_acts(motor, 0)
        } else {
            Seq::empty()
        }
    } else if m.countdown == 0 {
        motor_drive_acts(motor, pulse_duty(xorshift(state)))
    } else {
        Seq::empty()
    }
}

fn set_motor(motor: Motor, duty: i16) -> (p: Plan)
    ensures
        p@ == motor_drive_acts(motor, duty),
{
    match motor {
        Motor::A => set_motor_a(duty),
        Motor::B => set_motor_b(duty),
    }
}

impl Mover {
    /// Takes one tick of a motor.
    pub fn step(&mut self, motor: Motor, rng: &mut Rng) -> (p: Plan)
        ensures
            *final(self) == mover_after(*old(self), old(rng).state),
            final(rng).state == state_after(*old(self), old(rng).state),
            p@ == mover_acts(motor, *old(self), old(rng).state),
    {
        let mut p: Plan = Plan::new();
        if self.on > 0 {
            self.on = self.on - 1;
            if self.on == 0 {
                p = set_motor(motor, 0);
            }
        } else if self.countdown == 0 {
            let r: u32 = rng.rng_next();
            let dur: u32 = MIN_ON + r % (ON_RANGE + 1);
            let dir: i16 = if r & 0x80 != 0 {
                DUTY
            } else {
                -DUTY
            };
            p = set_motor(motor, dir);
            self.on = dur;
            let r2: u32 = rng.rng_next();
            self.countdown = MIN_WAIT + r2 % (WAIT_RANGE + 1);
        } else {
            self.countdown = self.countdown - 1;
        }
        p
    }
}

/// State of the test.
#[derive(Clone, Copy, Debug, PartialEq, Eq, Structural)]
pub struct MotorTest {
    pub a: Mover,
    pub b: Mover,
    pub rng: Rng,
}

/// Motors coasting, a low beep, and no more.
pub open spec fn stop_acts() -> Seq<Act> {
    (coast_all_acts() + beep_acts(60, 800)).push(Act::Sleep)
}

/// What a tick does, by the value of the center button.
pub open spec fn motor_test_acts(t: MotorTest, center: u32) -> Seq<Act> {
    if center_down(center) {
        stop_acts()
    } else {
        (mover_acts(Motor::A, t.a, t.rng.state) + mover_acts(
            Motor::B,
            t.b,
            state_after(t.a, t.rng.state),
        )).push(Act::DelayMs { ms: LOOP_MS })
    }
}

/// The test after a tick.
pub open spec fn motor_test_after(t: MotorTest) -> MotorTest {
    let mid = state_after(t.a, t.rng.state);
    MotorTest {
        a: mover_after(t.a, t.rng.state),
        b: mover_after(t.b, mid),
        rng: Rng { state: state_after(t.b, mid) },
    }
}

impl MotorTest {
    /// The test before its first tick; the ports start at different times.
    pub fn new(rng: Rng) -> (t: MotorTest)
        ensures
            t == (MotorTest {
                a: Mover { countdown: 5, on: 0 },
                b: Mover { countdown: 8, on: 0 },
                rng,
            }),
    {
        MotorTest { a: Mover { countdown: 5, on: 0 }, b: Mover { countdown: 8, on: 0 }, rng }
    }

    /// Takes a tick with the value of the center button. The second result says
    /// that the test is over.
    pub fn tick(&mut self, center: u32) -> (r: (Plan, bool))
        ensures
            r.0@ == motor_test_acts(*old(self), center),
            r.1 == center_down(center),
            *final(self) == if r.1 {
                *old(self)
            } else {
                motor_test_after(*old(self))
            },
    {
        if center_pressed(center) {
            let mut p: Plan = motor_coast_all();
            p.append(beep(60, 800));
            p.push(Op::Sleep);
            return (p, true);
        }
        let mut p: Plan = self.a.step(Motor::A, &mut self.rng);
        p.append(self.b.step(Motor::B, &mut self.rng));
        p.push(Op::DelayMs { ms: LOOP_MS });
        (p, false)
    }
}

/// A move lasts 60 to 200 ms at half power, and at least 0.4 s lie between the end
/// of a move and the next one.
pub proof fn pulses_are_bounded(r: u32)
    ensures
        3 <= pulse_ticks(r) <= 10,
        pulse_duty(r) == 500 || pulse_duty(r) == -500,
        20 <= pulse_wait(r) <= 60,
{
}

/// A motor's timing after `n` ticks in which the generator stands still.
pub open spec fn mover_upto(m: Mover, state: u32, n: nat) -> Mover
    decreases n,
{
    if n == 0 {
        m
    } else {
        mover_after(mover_upto(m, state, (n - 1) as nat), state)
    }
}

/// A move ends at its last tick, by coasting, and not before; it draws no number.
pub proof fn move_ends_on_time(motor: Motor, m: Mover, state: u32, n: nat)
    requires
        n < m.on,
    ensures
        ({
            let now = mover_upto(m, state, n);
            &&& now == (Mover { on: (m.on - n) as u32, ..m })
            &&& state_after(now, state) == state
            &&& mover_acts(motor, now, state) == if n + 1 == m.on {
                motor_drive_acts(motor, 0)
            } else {
                Seq::<Act>::empty()
            }
        }),
    decreases n,
{
    if n > 0 {
        move_ends_on_time(motor, m, state, (n - 1) as nat);
    }
}

/// Between two moves a motor is left alone for all of its wait, and the next move
/// begins right behind it.
pub proof fn motor_rests_between_moves(motor: Motor, m: Mover, state: u32, n: nat)
    requires
        m.on == 0,
        n <= m.countdown,
    ensures
        ({
            let now = mover_upto(m, state, n);
            &&& now == (Mover { countdown: (m.countdown - n) as u32, ..m })
            &&& begins(now) == (n == m.countdown)
            &&& n < m.countdown ==> mover_acts(motor, now, state) == Seq::<Act>::empty()
        }),
    decreases n,
{
    if n > 0 {
        motor_rests_between_moves(motor, m, state, (n - 1) as nat);
    }
}

/// A motor does what its timing says: it runs at half power, one way or the
/// other, while it is on, and coasts while it is not.
pub open spec fn mover_follows(m: Mover, regs: Regs, motor: Motor) -> bool {
    if m.on == 0 {
        is_coasting(regs, motor)
    } else {
        driven(regs, motor, DUTY) || driven(regs, motor, (-DUTY) as i16)
    }
}

/// At the start both motors rest.
pub proof fn motor_test_start_rests(cfgr: u32, countdown: u32, regs: Regs)
    ensures
        ({
            let after = run(motor_test_start_acts(cfgr), regs);
            &&& mover_follows(Mover { countdown, on: 0 }, after, Motor::A)
            &&& mover_follows(Mover { countdown, on: 0 }, after, Motor::B)
        }),
{
    broadcast use group_run;

    let before = clocks_acts(cfgr) + beep_acts(100, 1200) + center_adc_acts();
    motors_start_coasting(run(before, regs));
    assert(motor_test_start_acts(cfgr) == before + motor_hw_acts());
}

proof fn mover_follows_step(motor: Motor, m: Mover, state: u32, regs: Regs)
    requires
        mover_follows(m, regs, motor),
    ensures
        mover_follows(mover_after(m, state), run(mover_acts(motor, m, state), regs), motor),
        same_bridge(run(mover_acts(motor, m, state), regs), regs, other(motor)),
{
    motor_drive_drives(motor, 0, regs);
    motor_drive_drives(motor, pulse_duty(xorshift(state)), regs);
    pulses_are_bounded(xorshift(state));
    assert(run(Seq::empty(), regs) == regs);
}

/// Both motors follow their timing through every tick: none runs on when its move
/// is over.
pub proof fn motors_follow_moves(t: MotorTest, center: u32, regs: Regs)
    requires
        !center_down(center),
        mover_follows(t.a, regs, Motor::A),
        mover_follows(t.b, regs, Motor::B),
    ensures
        ({
            let after = run(motor_test_acts(t, center), regs);
            &&& mover_follows(motor_test_after(t).a, after, Motor::A)
            &&& mover_follows(motor_test_after(t).b, after, Motor::B)
        }),
{
    broadcast use group_run;

    let first = mover_acts(Motor::A, t.a, t.rng.state);
    let mid = state_after(t.a, t.rng.state);
    let second = mover_acts(Motor::B, t.b, mid);
    mover_follows_step(Motor::A, t.a, t.rng.state, regs);
    let one = run(first, regs);
    mover_follows_step(Motor::B, t.b, mid, one);
    assert(run(first + second, regs) == run(second, one));
    assert(run(motor_test_acts(t, center), regs) == run(second, one));
}

/// The center button stops both motors, for good.
pub proof fn center_stops_motors(t: MotorTest, center: u32, regs: Regs)
    requires
        center_down(center),
    ensures
        is_coasting(run(motor_test_acts(t, center), regs), Motor::A),
        is_coasting(run(motor_test_acts(t, center), regs), Motor::B),
        motor_test_acts(t, center).last() == Act::Sleep,
{
    broadcast use group_run;

    coast_all_coasts_both(regs);
    beep_spares_bridges(60, 800);
    spared_run(beep_acts(60, 800), run(coast_all_acts(), regs));
}

/// A move by its random number: three ticks and up to seven more, at 500 one way or the other
/// by bit 7, and then 20 ticks of rest and up to 40 more, by the next number.
pub proof fn pulses_in_numbers(r: u32)
    ensures
        pulse_ticks(r) == 3 + r % 8,
        pulse_duty(r) == if r / 128 % 2 == 1 {
            500
        } else {
            -500int
        },
        pulse_wait(r) == 20 + r % 41,
{
    fields_by_division(r);
}

/// A tick of a motor: one that runs has a tick less and coasts at the last, one that waits has
/// a tick less, and one whose wait is over begins a move and draws two numbers.
pub proof fn motor_ticks_in_order(motor: Motor, m: Mover, state: u32)
    ensures
        ({
            let r1 = xorshift(state);
            let r2 = xorshift(r1);
            let after = mover_after(m, state);
            let acts = mover_acts(motor, m, state);
            &&& m.on > 1 ==> after == (Mover { on: (m.on - 1) as u32, ..m }) && acts.len() == 0
            &&& m.on == 1 ==> after == (Mover { on: 0, ..m }) && acts == coast_acts(motor)
            &&& m.on == 0 && m.countdown > 0 ==> after == (Mover {
                countdown: (m.countdown - 1) as u32,
                ..m
            }) && acts.len() == 0
            &&& m.on == 0 && m.countdown == 0 ==> {
                &&& after == (Mover { on: pulse_ticks(r1), countdown: pulse_wait(r2) })
                &&& acts == motor_drive_acts(motor, pulse_duty(r1))
            }
            &&& state_after(m, state) == if m.on == 0 && m.countdown == 0 {
                r2
            } else {
                state
            }
        }),
{
}

/// A tick of the test: the motor on port A, then the one on port B with what is left of the
/// random numbers, then a pause of 20 ms; the center button at 2879 or below ends it.
pub proof fn test_ticks_in_order(t: MotorTest, center: u32)
    ensures
        ({
            let mid = state_after(t.a, t.rng.state);
            let after = motor_test_after(t);
            &&& center > 2879 ==> motor_test_acts(t, center) == mover_acts(
                Motor::A,
                t.a,
                t.rng.state,
            ) + mover_acts(Motor::B, t.b, mid) + seq![Act::DelayMs { ms: 20 }]
            &&& center <= 2879 ==> motor_test_acts(t, center) == coast_all_acts() + beep_acts(
                60,
                800,
            ) + seq![Act::Sleep]
            &&& after.a == mover_after(t.a, t.rng.state)
            &&& after.b == mover_after(t.b, mid)
            &&& after.rng.state == state_after(t.b, mid)
        }),
{
    let mid = state_after(t.a, t.rng.state);
    if center > 2879 {
        assert(motor_test_acts(t, center) =~= mover_acts(Motor::A, t.a, t.rng.state) + mover_acts(
            Motor::B,
            t.b,
            mid,
        ) + seq![Act::DelayMs { ms: 20 }]);
    } else {
        assert(motor_test_acts(t, center) =~= coast_all_acts() + beep_acts(60, 800) + seq![
            Act::Sleep,
        ]);
    }
}

} // verus!
