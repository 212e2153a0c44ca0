//! The program that runs on the simulated hub: it drives two virtual motors and
//! reports what their counters say.
//!
//! The program asks for one thing after the other. Each step takes what the last
//! request brought, prints what there is to say, and makes the next request.
use crate::decimal::{decimal, short_hex, write_hex, write_i32, write_u32};
use crate::plan::text;
use vstd::prelude::*;
use vstd::slice::slice_to_vec;
use vstd::string::*;

verus! {

/// Result of a driver call; zero is success.
pub type PbioError = i32;

pub const PBIO_SUCCESS: PbioError = 0;

/// Buttons of the simulated hub.
pub type PbioButtonFlags = u32;

pub const PBIO_BUTTON_CENTER: PbioButtonFlags = 0x20;

pub const PBIO_BUTTON_LEFT: PbioButtonFlags = 0x10;

pub const PBIO_BUTTON_RIGHT: PbioButtonFlags = 0x40;

/// A motor driver, by the index of its port.
#[derive(Clone, Copy, Debug, PartialEq, Eq, Structural)]
pub struct PbdrvMotorDriverDev {
    pub id: u8,
}

/// A rotation counter, by the index of its port.
#[derive(Clone, Copy, Debug, PartialEq, Eq, Structural)]
pub struct PbdrvCounterDev {
    pub id: u8,
}

/// Simulation ticks with motors.
pub const MOTOR_TICKS: u32 = 500;

/// Ticks from one report to the next.
pub const MOTOR_REPORT: u32 = 100;

/// Simulation ticks without motors.
pub const IDLE_TICKS: u32 = 100;

pub const IDLE_REPORT: u32 = 25;

/// Duty of both motors, out of 10000.
pub const DUTY_A: i32 = 7000;

pub const DUTY_B: i32 = -5000;

/// Result reported for a counter that is not there.
pub const NO_COUNTER: PbioError = -99;

/// What the program asks for.
#[derive(Clone, Copy, Debug, PartialEq, Eq, Structural)]
pub enum Request {
    /// The time in milliseconds.
    Clock,
    /// The buttons that are pressed.
    Buttons,
    /// Both motor drivers.
    Drivers { id_a: u8, id_b: u8 },
    /// A duty for each motor.
    Duty { a: PbdrvMotorDriverDev, duty_a: i32, b: PbdrvMotorDriverDev, duty_b: i32 },
    /// Both counters.
    Counters { id_a: u8, id_b: u8 },
    /// A millisecond of sleep, then one round of the simulation.
    Advance,
    /// The time, and the angle of every counter that is there.
    Angles { counter_a: Option<PbdrvCounterDev>, counter_b: Option<PbdrvCounterDev> },
    /// Both motors coasting.
    Coast { a: PbdrvMotorDriverDev, b: PbdrvMotorDriverDev },
    /// One round of the simulation.
    RunOnce,
    /// Nothing more.
    Finish,
}

/// What a request brought. Each request fills the fields it is about.
#[derive(Clone, Copy, Debug, PartialEq, Eq, Structural)]
pub struct Reply {
    /// Time or buttons.
    pub value: u32,
    pub err_a: PbioError,
    pub err_b: PbioError,
    /// Whether there is a device on each port.
    pub has_a: bool,
    pub has_b: bool,
    pub rot_a: i32,
    pub mdeg_a: i32,
    pub rot_b: i32,
    pub mdeg_b: i32,
}

/// Where the program stands: what it waits for.
#[derive(Clone, Copy, Debug, PartialEq, Eq, Structural)]
pub enum Stage {
    Begin,
    Clock,
    Buttons,
    Drivers,
    Duty,
    Counters,
    /// A tick of the simulation, with the counters that are there.
    Tick { i: u32, a: bool, b: bool },
    /// The angles to report.
    Angles { i: u32, a: bool, b: bool },
    Coast,
    /// A tick without motors.
    Idle { i: u32 },
    /// The time to report without motors.
    IdleClock { i: u32 },
    End,
}

// ---------------------------------------------------------------------------
// Lines
// ---------------------------------------------------------------------------

fn add_str(v: &mut Vec<u8>, s: &str)
    ensures
        final(v)@ == old(v)@ + text(s),
{
    let mut b: Vec<u8> = slice_to_vec(s.as_bytes());
    v.append(&mut b);
}

fn add_u32(v: &mut Vec<u8>, n: u32)
    ensures
        final(v)@ == old(v)@ + decimal(n as int),
{
    let mut b: Vec<u8> = write_u32(n);
    v.append(&mut b);
}

fn add_i32(v: &mut Vec<u8>, n: i32)
    ensures
        final(v)@ == old(v)@ + decimal(n as int),
{
    let mut b: Vec<u8> = write_i32(n);
    v.append(&mut b);
}

/// A truth value as text.
pub open spec fn truth(b: bool) -> Seq<u8> {
    if b {
        text("true")
    } else {
        text("false")
    }
}

fn add_bool(v: &mut Vec<u8>, b: bool)
    ensures
        final(v)@ == old(v)@ + truth(b),
{
    if b {
        add_str(v, "true");
    } else {
        add_str(v, "false");
    }
}

pub open spec fn clock_line(ms: u32) -> Seq<u8> {
    text("[Rust] Clock: ") + decimal(ms as int) + text("ms since boot\n")
}

pub open spec fn buttons_line(flags: u32) -> Seq<u8> {
    text("[Rust] Buttons: 0x") + short_hex(flags) + text("\n")
}

pub open spec fn drivers_line(err_a: i32, err_b: i32) -> Seq<u8> {
    text("[Rust] Motor driver A: err=") + decimal(err_a as int) + text(", B: err=") + decimal(
        err_b as int,
    ) + text("\n")
}

pub open spec fn counters_line(err_a: i32, null_a: bool, err_b: i32, null_b: bool) -> Seq<u8> {
    text("[Rust] Counter A: err=") + decimal(err_a as int) + text(", ptr_null=") + truth(null_a)
        + text(" | B: err=") + decimal(err_b as int) + text(", ptr_null=") + truth(null_b) + text(
        "\n",
    )
}

/// An angle and its result; a counter that is not there has neither.
pub open spec fn angle_text(has: bool, rot: i32, mdeg: i32, err: i32) -> Seq<u8> {
    decimal(
        if has {
            rot as int
        } else {
            0
        },
    ) + text("rot+") + decimal(
        if has {
            mdeg as int
        } else {
            0
        },
    ) + text("mdeg (e") + decimal(
        if has {
            err as int
        } else {
            NO_COUNTER as int
        },
    ) + text(")")
}

pub open spec fn angles_line(i: u32, r: Reply, a: bool, b: bool) -> Seq<u8> {
    text("[Rust] Tick ") + decimal(i as int) + text(" | clock: ") + decimal(r.value as int) + text(
        "ms | A: ",
    ) + angle_text(a, r.rot_a, r.mdeg_a, r.err_a) + text(" | B: ") + angle_text(
        b,
        r.rot_b,
        r.mdeg_b,
        r.err_b,
    ) + text("\n")
}

pub open spec fn idle_line(i: u32, ms: u32) -> Seq<u8> {
    text("[Rust] Tick ") + decimal(i as int) + text(" — clock: ") + decimal(ms as int) + text(
        "ms\n",
    )
}

fn say_clock(ms: u32) -> (v: Vec<u8>)
    ensures
        v@ == clock_line(ms),
{
    let mut v: Vec<u8> = Vec::new();
    add_str(&mut v, "[Rust] Clock: ");
    add_u32(&mut v, ms);
    add_str(&mut v, "ms since boot\n");
    assert(v@ =~= clock_line(ms));
    v
}

fn say_buttons(flags: u32) -> (v: Vec<u8>)
    ensures
        v@ == buttons_line(flags),
{
    let mut v: Vec<u8> = Vec::new();
    add_str(&mut v, "[Rust] Buttons: 0x");
    let mut hex: Vec<u8> = write_hex(flags);
    v.append(&mut hex);
    add_str(&mut v, "\n");
    assert(v@ =~= buttons_line(flags));
    v
}

fn say_drivers(err_a: i32, err_b: i32) -> (v: Vec<u8>)
    ensures
        v@ == drivers_line(err_a, err_b),
{
    let mut v: Vec<u8> = Vec::new();
    add_str(&mut v, "[Rust] Motor driver A: err=");
    add_i32(&mut v, err_a);
    add_str(&mut v, ", B: err=");
    add_i32(&mut v, err_b);
    add_str(&mut v, "\n");
    assert(v@ =~= drivers_line(err_a, err_b));
    v
}

fn say_counters(err_a: i32, null_a: bool, err_b: i32, null_b: bool) -> (v: Vec<u8>)
    ensures
        v@ == counters_line(err_a, null_a, err_b, null_b),
{
    let mut v: Vec<u8> = Vec::new();
    add_str(&mut v, "[Rust] Counter A: err=");
    add_i32(&mut v, err_a);
    add_str(&mut v, ", ptr_null=");
    add_bool(&mut v, null_a);
    add_str(&mut v, " | B: err=");
    add_i32(&mut v, err_b);
    add_str(&mut v, ", ptr_null=");
    add_bool(&mut v, null_b);
    add_str(&mut v, "\n");
    assert(v@ =~= counters_line(err_a, null_a, err_b, null_b));
    v
}

fn add_angle(v: &mut Vec<u8>, has: bool, rot: i32, mdeg: i32, err: i32)
    ensures
        final(v)@ == old(v)@ + angle_text(has, rot, mdeg, err),
{
    add_i32(v, if has { rot } else { 0 });
    add_str(v, "rot+");
    add_i32(v, if has { mdeg } else { 0 });
    add_str(v, "mdeg (e");
    add_i32(v, if has { err } else { NO_COUNTER });
    add_str(v, ")");
    assert(v@ =~= old(v)@ + angle_text(has, rot, mdeg, err));
}

fn say_angles(i: u32, r: Reply, a: bool, b: bool) -> (v: Vec<u8>)
    ensures
        v@ == angles_line(i, r, a, b),
{
    let mut v: Vec<u8> = Vec::new();
    add_str(&mut v, "[Rust] Tick ");
    add_u32(&mut v, i);
    add_str(&mut v, " | clock: ");
    add_u32(&mut v, r.value);
    add_str(&mut v, "ms | A: ");
    add_angle(&mut v, a, r.rot_a, r.mdeg_a, r.err_a);
    add_str(&mut v, " | B: ");
    add_angle(&mut v, b, r.rot_b, r.mdeg_b, r.err_b);
    add_str(&mut v, "\n");
    assert(v@ =~= angles_line(i, r, a, b));
    v
}

fn say_idle(i: u32, ms: u32) -> (v: Vec<u8>)
    ensures
        v@ == idle_line(i, ms),
{
    let mut v: Vec<u8> = Vec::new();
    add_str(&mut v, "[Rust] Tick ");
    add_u32(&mut v, i);
    add_str(&mut v, " — clock: ");
    add_u32(&mut v, ms);
    add_str(&mut v, "ms\n");
    assert(v@ =~= idle_line(i, ms));
    v
}

fn say_str(s: &str) -> (v: Vec<u8>)
    ensures
        v@ == text(s),
{
    slice_to_vec(s.as_bytes())
}

// ---------------------------------------------------------------------------
// The program
// ---------------------------------------------------------------------------

/// What a step prints, by where the program stands and what it was brought.
pub open spec fn sim_text(stage: Stage, r: Reply) -> Seq<u8> {
    match stage {
        Stage::Begin => text("[Rust] spike_rt_user_program() starting!\n"),
        Stage::Clock => clock_line(r.value),
        Stage::Buttons => buttons_line(r.value),
        Stage::Drivers => drivers_line(r.err_a, r.err_b) + if r.has_a && r.has_b {
            Seq::empty()
        } else {
            text("[Rust] Could not get motor drivers, skipping motor test.\n")
        },
        Stage::Duty => text("[Rust] Motor A: duty=+7000, Motor B: duty=-5000\n"),
        Stage::Counters => counters_line(r.err_a, !r.has_a, r.err_b, !r.has_b),
        Stage::Tick { .. } => Seq::empty(),
        Stage::Angles { i, a, b } => angles_line(i, r, a, b),
        Stage::Coast => text("[Rust] Motors coasted, simulation done.\n") + text(
            "[Rust] spike_rt_user_program() done!\n",
        ),
        Stage::Idle { i } => if i % IDLE_REPORT != 0 && i + 1 >= IDLE_TICKS {
            text("[Rust] spike_rt_user_program() done!\n")
        } else {
            Seq::empty()
        },
        Stage::IdleClock { i } => idle_line(i, r.value) + if i + 1 >= IDLE_TICKS {
            text("[Rust] spike_rt_user_program() done!\n")
        } else {
            Seq::empty()
        },
        Stage::End => Seq::empty(),
    }
}

/// Where the program stands once tick `i` with motors is dealt with.
pub open spec fn after_tick(i: u32, a: bool, b: bool) -> Stage {
    if i + 1 < MOTOR_TICKS {
        Stage::Tick { i: (i + 1) as u32, a, b }
    } else {
        Stage::Coast
    }
}

/// Where the program stands once tick `i` without motors is dealt with.
pub open spec fn after_idle(i: u32) -> Stage {
    if i + 1 < IDLE_TICKS {
        Stage::Idle { i: (i + 1) as u32 }
    } else {
        Stage::End
    }
}

/// Where the program stands after a step.
pub open spec fn sim_next(stage: Stage, r: Reply) -> Stage {
    match stage {
        Stage::Begin => Stage::Clock,
        Stage::Clock => Stage::Buttons,
        Stage::Buttons => Stage::Drivers,
        Stage::Drivers => if r.has_a && r.has_b {
            Stage::Duty
        } else {
            Stage::Idle { i: 0 }
        },
        Stage::Duty => Stage::Counters,
        Stage::Counters => Stage::Tick { i: 0, a: r.has_a, b: r.has_b },
        Stage::Tick { i, a, b } => if i % MOTOR_REPORT == 0 {
            Stage::Angles { i, a, b }
        } else {
            after_tick(i, a, b)
        },
        Stage::Angles { i, a, b } => after_tick(i, a, b),
        Stage::Coast => Stage::End,
        Stage::Idle { i } => if i % IDLE_REPORT == 0 {
            Stage::IdleClock { i }
        } else {
            after_idle(i)
        },
        Stage::IdleClock { i } => after_idle(i),
        Stage::End => Stage::End,
    }
}

pub open spec fn driver(id: u8) -> PbdrvMotorDriverDev {
    PbdrvMotorDriverDev { id }
}

pub open spec fn counter(has: bool, id: u8) -> Option<PbdrvCounterDev> {
    if has {
        Some(PbdrvCounterDev { id })
    } else {
        None
    }
}

/// The request that brings what a stage waits for.
pub open spec fn request_for(stage: Stage) -> Request {
    match stage {
        Stage::Begin => Request::Finish,
        Stage::Clock => Request::Clock,
        Stage::Buttons => Request::Buttons,
        Stage::Drivers => Request::Drivers { id_a: 0, id_b: 1 },
        Stage::Duty => Request::Duty {
            a: driver(0),
            duty_a: DUTY_A,
            b: driver(1),
            duty_b: DUTY_B,
        },
        Stage::Counters => Request::Counters { id_a: 0, id_b: 1 },
        Stage::Tick { .. } => Request::Advance,
        Stage::Angles { a, b, .. } => Request::Angles {
            counter_a: counter(a, 0),
            counter_b: counter(b, 1),
        },
        Stage::Coast => Request::Coast { a: driver(0), b: driver(1) },
        Stage::Idle { .. } => Request::RunOnce,
        Stage::IdleClock { .. } => Request::Clock,
        Stage::End => Request::Finish,
    }
}

fn request_of(stage: Stage) -> (r: Request)
    ensures
        r == request_for(stage),
{
    let drv_a: PbdrvMotorDriverDev = PbdrvMotorDriverDev { id: 0 };
    let drv_b: PbdrvMotorDriverDev = PbdrvMotorDriverDev { id: 1 };
    match stage {
        Stage::Begin => Request::Finish,
        Stage::Clock => Request::Clock,
        Stage::Buttons => Request::Buttons,
        Stage::Drivers => Request::Drivers { id_a: 0, id_b: 1 },
        Stage::Duty => Request::Duty { a: drv_a, duty_a: DUTY_A, b: drv_b, duty_b: DUTY_B },
        Stage::Counters => Request::Counters { id_a: 0, id_b: 1 },
        Stage::Tick { i: _, a: _, b: _ } => Request::Advance,
        Stage::Angles { i: _, a, b } => {
            let ca: Option<PbdrvCounterDev> = if a {
                Some(PbdrvCounterDev { id: 0 })
            } else {
                None
            };
            let cb: Option<PbdrvCounterDev> = if b {
                Some(PbdrvCounterDev { id: 1 })
            } else {
                None
            };
            Request::Angles { counter_a: ca, counter_b: cb }
        },
        Stage::Coast => Request::Coast { a: drv_a, b: drv_b },
        Stage::Idle { i: _ } => Request::RunOnce,
        Stage::IdleClock { i: _ } => Request::Clock,
        Stage::End => Request::Finish,
    }
}

fn next_tick(i: u32, a: bool, b: bool) -> (s: Stage)
    ensures
        s == after_tick(i, a, b),
{
    if i < MOTOR_TICKS - 1 {
        Stage::Tick { i: i + 1, a, b }
    } else {
        Stage::Coast
    }
}

fn next_idle(i: u32) -> (s: Stage)
    ensures
        s == after_idle(i),
{
    if i < IDLE_TICKS - 1 {
        Stage::Idle { i: i + 1 }
    } else {
        Stage::End
    }
}

/// A step of the program: what to print, what to ask for, and where it stands
/// then.
pub struct SimStep {
    pub text: Vec<u8>,
    pub request: Request,
    pub stage: Stage,
}

/// Takes the program one step on with what its last request brought.
pub fn spike_rt_user_program(stage: Stage, r: Reply) -> (s: SimStep)
    ensures
        s.text@ == sim_text(stage, r),
        s.stage == sim_next(stage, r),
        s.request == request_for(s.stage),
{
    let mut out: Vec<u8> = Vec::new();
    let mut next: Stage = Stage::End;
    match stage {
        Stage::Begin => {
            out = say_str("[Rust] spike_rt_user_program() starting!\n");
            next = Stage::Clock;
        },
        Stage::Clock => {
            out = say_clock(r.value);
            next = Stage::Buttons;
        },
        Stage::Buttons => {
            out = say_buttons(r.value);
            next = Stage::Drivers;
        },
        Stage::Drivers => {
            out = say_drivers(r.err_a, r.err_b);
            if r.has_a && r.has_b {
                next = Stage::Duty;
            } else {
                add_str(&mut out, "[Rust] Could not get motor drivers, skipping motor test.\n");
                next = Stage::Idle { i: 0 };
            }
            assert(out@ =~= sim_text(stage, r));
        },
        Stage::Duty => {
            out = say_str("[Rust] Motor A: duty=+7000, Motor B: duty=-5000\n");
            next = Stage::Counters;
        },
        Stage::Counters => {
            out = say_counters(r.err_a, !r.has_a, r.err_b, !r.has_b);
            next = Stage::Tick { i: 0, a: r.has_a, b: r.has_b };
        },
        Stage::Tick { i, a, b } => {
            next = if i % MOTOR_REPORT == 0 {
                Stage::Angles { i, a, b }
            } else {
                next_tick(i, a, b)
            };
        },
        Stage::Angles { i, a, b } => {
            out = say_angles(i, r, a, b);
            next = next_tick(i, a, b);
        },
        Stage::Coast => {
            out = say_str("[Rust] Motors coasted, simulation done.\n");
            add_str(&mut out, "[Rust] spike_rt_user_program() done!\n");
        },
        Stage::Idle { i } => {
            if i % IDLE_REPORT == 0 {
                next = Stage::IdleClock { i };
            } else {
                next = next_idle(i);
                if i >= IDLE_TICKS - 1 {
                    add_str(&mut out, "[Rust] spike_rt_user_program() done!\n");
                }
            }
            assert(out@ =~= sim_text(stage, r));
        },
        Stage::IdleClock { i } => {
            out = say_idle(i, r.value);
            next = next_idle(i);
            if i >= IDLE_TICKS - 1 {
                add_str(&mut out, "[Rust] spike_rt_user_program() done!\n");
            }
            assert(out@ =~= sim_text(stage, r));
        },
        Stage::End => {},
    }
    SimStep { text: out, request: request_of(next), stage: next }
}

// ---------------------------------------------------------------------------
// What the program promises
// ---------------------------------------------------------------------------

/// An upper bound of the steps that are left.
pub open spec fn steps_left(stage: Stage) -> int {
    match stage {
        Stage::Begin => 2000,
        Stage::Clock => 1999,
        Stage::Buttons => 1998,
        Stage::Drivers => 1997,
        Stage::Duty => 1996,
        Stage::Counters => 1995,
        Stage::Tick { i, .. } => if i < MOTOR_TICKS {
            2 * (MOTOR_TICKS - i) + 3
        } else {
            3
        },
        Stage::Angles { i, .. } => if i < MOTOR_TICKS {
            2 * (MOTOR_TICKS - i) + 2
        } else {
            2
        },
        Stage::Coast => 1,
        Stage::Idle { i } => if i < IDLE_TICKS {
            2 * (IDLE_TICKS - i) + 3
        } else {
            3
        },
        Stage::IdleClock { i } => if i < IDLE_TICKS {
            2 * (IDLE_TICKS - i) + 2
        } else {
            2
        },
        Stage::End => 0,
    }
}

/// The program always ends, whatever it is brought.
pub proof fn program_ends(stage: Stage, r: Reply)
    requires
        stage != Stage::End,
    ensures
        0 <= steps_left(sim_next(stage, r)) < steps_left(stage),
{
}

/// Whether the motors have been given a duty.
pub open spec fn is_driving(stage: Stage) -> bool {
    stage is Counters || stage is Tick || stage is Angles || stage is Coast
}

/// Motors that were given a duty are let go before the program ends: from where
/// they run, the only way on leads through the request to let both coast.
pub proof fn motors_are_let_go(stage: Stage, r: Reply)
    requires
        is_driving(stage),
    ensures
        is_driving(sim_next(stage, r)) || stage == Stage::Coast,
        stage == Stage::Coast ==> request_for(stage) == (Request::Coast {
            a: driver(0),
            b: driver(1),
        }),
{
}

/// Motors run only where both drivers are there.
pub proof fn motors_need_both_drivers(r: Reply)
    ensures
        sim_next(Stage::Drivers, r) == Stage::Duty <==> r.has_a && r.has_b,
        !(r.has_a && r.has_b) ==> sim_next(Stage::Drivers, r) == (Stage::Idle { i: 0 }),
{
}

/// Angles are reported at every hundredth tick and at no other.
pub proof fn reports_come_every_hundredth_tick(i: u32, a: bool, b: bool, r: Reply)
    ensures
        sim_next(Stage::Tick { i, a, b }, r) is Angles <==> i % 100 == 0,
        sim_next(Stage::Idle { i }, r) is IdleClock <==> i % 25 == 0,
{
}

// ---------------------------------------------------------------------------
// What is printed and asked for
// ---------------------------------------------------------------------------

/// The angle of a counter as it is printed; one that is not there has no angle and -99 for its
/// result.
pub open spec fn angle_printed(has: bool, rot: i32, mdeg: i32, err: i32) -> Seq<u8> {
    if has {
        decimal(rot as int) + text("rot+") + decimal(mdeg as int) + text("mdeg (e") + decimal(
            err as int,
        ) + text(")")
    } else {
        decimal(0) + text("rot+") + decimal(0) + text("mdeg (e") + decimal(-99) + text(")")
    }
}

/// What every step prints.
pub proof fn steps_print(r: Reply, i: u32, a: bool, b: bool)
    ensures
        sim_text(Stage::Begin, r) == text("[Rust] spike_rt_user_program() starting!\n"),
        sim_text(Stage::Clock, r) == text("[Rust] Clock: ") + decimal(r.value as int) + text(
            "ms since boot\n",
        ),
        sim_text(Stage::Buttons, r) == text("[Rust] Buttons: 0x") + short_hex(r.value) + text("\n"),
        sim_text(Stage::Drivers, r) == text("[Rust] Motor driver A: err=") + decimal(r.err_a as int)
            + text(", B: err=") + decimal(r.err_b as int) + text("\n") + (if r.has_a && r.has_b {
            Seq::empty()
        } else {
            text("[Rust] Could not get motor drivers, skipping motor test.\n")
        }),
        sim_text(Stage::Duty, r) == text("[Rust] Motor A: duty=+7000, Motor B: duty=-5000\n"),
        sim_text(Stage::Counters, r) == text("[Rust] Counter A: err=") + decimal(r.err_a as int)
            + text(", ptr_null=") + (if r.has_a {
            text("false")
        } else {
            text("true")
        }) + text(" | B: err=") + decimal(r.err_b as int) + text(", ptr_null=") + (if r.has_b {
            text("false")
        } else {
            text("true")
        }) + text("\n"),
        sim_text(Stage::Tick { i, a, b }, r).len() == 0,
        sim_text(Stage::Angles { i, a, b }, r) == text("[Rust] Tick ") + decimal(i as int) + text(
            " | clock: ",
        ) + decimal(r.value as int) + text("ms | A: ") + angle_printed(
            a,
            r.rot_a,
            r.mdeg_a,
            r.err_a,
        ) + text(" | B: ") + angle_printed(b, r.rot_b, r.mdeg_b, r.err_b) + text("\n"),
        sim_text(Stage::Coast, r) == text("[Rust] Motors coasted, simulation done.\n") + text(
            "[Rust] spike_rt_user_program() done!\n",
        ),
        sim_text(Stage::Idle { i }, r) == if i >= 99 && i % 25 != 0 {
            text("[Rust] spike_rt_user_program() done!\n")
        } else {
            Seq::empty()
        },
        sim_text(Stage::IdleClock { i }, r) == text("[Rust] Tick ") + decimal(i as int) + text(
            " — clock: ",
        ) + decimal(r.value as int) + text("ms\n") + (if i >= 99 {
            text("[Rust] spike_rt_user_program() done!\n")
        } else {
            Seq::empty()
        }),
        sim_text(Stage::End, r).len() == 0,
{
}

/// What the program asks for, and where it goes: the clock, the buttons, both drivers; with both
/// of them a duty of 7000 and one of -5000 of 10000, the counters, and 500 ticks, with the angles
/// at every hundredth, before both motors are let go; else 100 ticks without motors.
pub proof fn steps_go_on(r: Reply, i: u32, a: bool, b: bool)
    ensures
        sim_next(Stage::Begin, r) == Stage::Clock,
        request_for(Stage::Clock) == Request::Clock,
        sim_next(Stage::Clock, r) == Stage::Buttons,
        request_for(Stage::Buttons) == Request::Buttons,
        sim_next(Stage::Buttons, r) == Stage::Drivers,
        request_for(Stage::Drivers) == (Request::Drivers { id_a: 0, id_b: 1 }),
        request_for(Stage::Duty) == (Request::Duty {
            a: PbdrvMotorDriverDev { id: 0 },
            duty_a: 7000,
            b: PbdrvMotorDriverDev { id: 1 },
            duty_b: -5000i32,
        }),
        sim_next(Stage::Duty, r) == Stage::Counters,
        request_for(Stage::Counters) == (Request::Counters { id_a: 0, id_b: 1 }),
        sim_next(Stage::Counters, r) == (Stage::Tick { i: 0, a: r.has_a, b: r.has_b }),
        request_for(Stage::Tick { i, a, b }) == Request::Advance,
        sim_next(Stage::Tick { i, a, b }, r) == if i % 100 == 0 {
            Stage::Angles { i, a, b }
        } else if i < 499 {
            Stage::Tick { i: (i + 1) as u32, a, b }
        } else {
            Stage::Coast
        },
        request_for(Stage::Angles { i, a, b }) == (Request::Angles {
            counter_a: if a {
                Some(PbdrvCounterDev { id: 0 })
            } else {
                None
            },
            counter_b: if b {
                Some(PbdrvCounterDev { id: 1 })
            } else {
                None
            },
        }),
        sim_next(Stage::Angles { i, a, b }, r) == if i < 499 {
            Stage::Tick { i: (i + 1) as u32, a, b }
        } else {
            Stage::Coast
        },
        request_for(Stage::Coast) == (Request::Coast {
            a: PbdrvMotorDriverDev { id: 0 },
            b: PbdrvMotorDriverDev { id: 1 },
        }),
        sim_next(Stage::Coast, r) == Stage::End,
        request_for(Stage::Idle { i }) == Request::RunOnce,
        sim_next(Stage::Idle { i }, r) == if i % 25 == 0 {
            Stage::IdleClock { i }
        } else if i < 99 {
            Stage::Idle { i: (i + 1) as u32 }
        } else {
            Stage::End
        },
        request_for(Stage::IdleClock { i }) == Request::Clock,
        sim_next(Stage::IdleClock { i }, r) == if i < 99 {
            Stage::Idle { i: (i + 1) as u32 }
        } else {
            Stage::End
        },
        request_for(Stage::End) == Request::Finish,
        sim_next(Stage::End, r) == Stage::End,
{
}

/// Success is zero, and every button has a bit of its own: 4 left, 5 center, 6 right.
pub proof fn flags_by_number()
    ensures
        PBIO_SUCCESS == 0,
        PBIO_BUTTON_LEFT == 16,
        PBIO_BUTTON_CENTER == 32,
        PBIO_BUTTON_RIGHT == 64,
{
}

} // verus!
