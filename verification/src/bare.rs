//! The motor demo without buttons: both motors ramp up and down, forward and back.
use crate::clock::{init_clocks, init_clocks_acts};
use crate::hub::{kick, kick_acts};
use crate::matrix::{painted, pattern_brightness, HEART, Matrix, PIXELS};
use crate::motor::{
    coast_all_acts, coast_all_coasts_both, init_power_and_gpio, init_timer, init_timer_acts,
    is_coasting, load_vbus, load_vbus_acts, motor_coast_all, motor_set_all, power_and_gpio_acts,
    set_all_acts, Motor,
};
use crate::plan::{group_run, run, run_upto, Act, Op, Plan, Regs};
use crate::power::{
    check_and_enter_dfu, check_dfu_acts, pre_init, pre_init_acts, request_dfu, request_dfu_acts,
};
use crate::regs::DFU_MAGIC_VALUE;
use crate::tlc5955::{init_led_matrix, led_matrix_acts, matrix_frame_acts};
use vstd::prelude::*;

verus! {

/// Duty at the top of a ramp.
pub const RAMP_TOP: i16 = 600;

/// Change of the duty from one step of a ramp to the next.
pub const RAMP_STEP: i16 = 10;

/// Steps of a ramp, both ends included.
pub const RAMP_STEPS: u32 = 61;

/// Milliseconds of a step.
pub const RAMP_MS: u32 = 5;

/// Setup, a heart, a kick, and a look at the USB supply.
pub open spec fn bare_init_acts(frame: Seq<u8>) -> Seq<Act> {
    pre_init_acts() + init_clocks_acts() + power_and_gpio_acts() + init_timer_acts()
        + led_matrix_acts() + matrix_frame_acts(
        painted(frame, pattern_brightness(HEART@, 50), PIXELS as int),
    ) + kick_acts() + load_vbus_acts()
}

/// What the demo does first, by the magic word: a request for the ROM bootloader
/// comes before everything else.
pub open spec fn bare_start_acts(magic: u32, frame: Seq<u8>) -> Seq<Act> {
    if magic == DFU_MAGIC_VALUE {
        check_dfu_acts(magic)
    } else {
        bare_init_acts(frame)
    }
}

/// Starts the demo. The second result says that it is gone.
pub fn bare_start(magic: u32, matrix: &mut Matrix) -> (r: (Plan, bool))
    ensures
        r.0@ == bare_start_acts(magic, old(matrix).frame@),
        r.1 == (magic == DFU_MAGIC_VALUE),
        final(matrix).frame@ == if magic == DFU_MAGIC_VALUE {
            old(matrix).frame@
        } else {
            painted(old(matrix).frame@, pattern_brightness(HEART@, 50), PIXELS as int)
        },
{
    if magic == DFU_MAGIC_VALUE {
        return (check_and_enter_dfu(magic), true);
    }
    let mut p: Plan = pre_init();
    p.append(init_clocks());
    p.append(init_power_and_gpio());
    p.append(init_timer());
    p.append(init_led_matrix());
    p.append(matrix.show_pattern(&HEART, 50));
    p.append(kick());
    p.append(load_vbus());
    (p, false)
}

/// Duty of a step of a ramp.
pub open spec fn ramp_duty(reverse: bool, down: bool, step: int) -> i16 {
    let size = if down {
        RAMP_TOP - RAMP_STEP * step
    } else {
        RAMP_STEP * step
    };
    (if reverse {
        -size
    } else {
        size
    }) as i16
}

/// The first `n` steps of a ramp.
pub open spec fn ramp_acts(reverse: bool, down: bool, n: nat) -> Seq<Act>
    decreases n,
{
    if n == 0 {
        Seq::empty()
    } else {
        ramp_acts(reverse, down, (n - 1) as nat) + set_all_acts(
            ramp_duty(reverse, down, n - 1),
        ).push(Act::DelayMs { ms: RAMP_MS })
    }
}

fn ramp(reverse: bool, down: bool) -> (p: Plan)
    ensures
        p@ == ramp_acts(reverse, down, RAMP_STEPS as nat),
{
    let mut p: Plan = Plan::new();
    let mut i: u32 = 0;
    while i < RAMP_STEPS
        invariant
            i <= RAMP_STEPS,
            p@ == ramp_acts(reverse, down, i as nat),
        decreases RAMP_STEPS - i,
    {
        let size: i16 = if down {
            RAMP_TOP - RAMP_STEP * (i as i16)
        } else {
            RAMP_STEP * (i as i16)
        };
        let duty: i16 = if reverse {
            -size
        } else {
            size
        };
        let mut step: Plan = motor_set_all(duty);
        step.push(Op::DelayMs { ms: RAMP_MS });
        p.append(step);
        i = i + 1;
    }
    p
}

/// A ramp up, a while at the top, and a ramp down.
pub open spec fn swing_acts(reverse: bool) -> Seq<Act> {
    ramp_acts(reverse, false, RAMP_STEPS as nat).push(Act::DelayMs { ms: 2000 }) + ramp_acts(
        reverse,
        true,
        RAMP_STEPS as nat,
    )
}

fn swing(reverse: bool) -> (p: Plan)
    ensures
        p@ == swing_acts(reverse),
{
    let mut p: Plan = ramp(reverse, false);
    p.push(Op::DelayMs { ms: 2000 });
    p.append(ramp(reverse, true));
    p
}

/// One round: forward, brake, back, coast.
pub open spec fn round_acts() -> Seq<Act> {
    swing_acts(false) + set_all_acts(0).push(Act::DelayMs { ms: 500 }) + swing_acts(true)
        + coast_all_acts().push(Act::DelayMs { ms: 2000 })
}

/// What a round ends in with a USB cable: on to the next firmware.
pub open spec fn bare_round_acts(dev_mode: bool) -> Seq<Act> {
    if dev_mode {
        round_acts() + coast_all_acts() + request_dfu_acts()
    } else {
        round_acts()
    }
}

/// Runs one round of the demo. With a USB cable plugged in there is only one, and
/// the second result says that the demo is gone.
pub fn bare_round(dev_mode: bool) -> (r: (Plan, bool))
    ensures
        r.0@ == bare_round_acts(dev_mode),
        r.1 == dev_mode,
{
    let mut p: Plan = swing(false);
    let mut brake: Plan = motor_set_all(0);
    brake.push(Op::DelayMs { ms: 500 });
    p.append(brake);
    p.append(swing(true));
    let mut coast: Plan = motor_coast_all();
    coast.push(Op::DelayMs { ms: 2000 });
    p.append(coast);
    if dev_mode {
        p.append(motor_coast_all());
        p.append(request_dfu());
    }
    (p, dev_mode)
}

/// A ramp runs between standstill and 60 percent, in steps of one percent, and
/// never turns the other way.
pub proof fn ramps_are_smooth(reverse: bool, down: bool, step: int)
    requires
        0 <= step < RAMP_STEPS,
    ensures
        !reverse ==> 0 <= ramp_duty(reverse, down, step) <= RAMP_TOP,
        reverse ==> -RAMP_TOP <= ramp_duty(reverse, down, step) <= 0,
        ramp_duty(reverse, down, if down {
            60int
        } else {
            0int
        }) == 0,
        step + 1 < RAMP_STEPS ==> ({
            let d = ramp_duty(reverse, down, step + 1) - ramp_duty(reverse, down, step);
            d == RAMP_STEP || d == -RAMP_STEP
        }),
{
}

/// A round leaves both motors coasting.
pub proof fn round_ends_coasting(dev_mode: bool, regs: Regs)
    ensures
        is_coasting(run(bare_round_acts(dev_mode), regs), Motor::A),
        is_coasting(run(bare_round_acts(dev_mode), regs), Motor::B),
{
    broadcast use group_run;

    let before = swing_acts(false) + set_all_acts(0).push(Act::DelayMs { ms: 500 }) + swing_acts(
        true,
    );
    let mid = run(before, regs);
    coast_all_coasts_both(mid);
    let end = run(round_acts(), regs);
    assert(end == run(coast_all_acts(), mid));
    coast_all_coasts_both(end);
    let coasted = run(coast_all_acts(), end);
    reveal_with_fuel(run_upto, 3);
    assert(run(request_dfu_acts(), coasted) == coasted.insert(0x2004_FFF0, DFU_MAGIC_VALUE));
}

/// A request for the ROM bootloader comes before everything else, and is answered alone.
pub proof fn request_comes_first(magic: u32, frame: Seq<u8>)
    ensures
        magic == 0xDEAD_B007 ==> bare_start_acts(magic, frame) == check_dfu_acts(0xDEAD_B007),
        magic != 0xDEAD_B007 ==> bare_start_acts(magic, frame) == bare_init_acts(frame),
{
}

} // verus!
