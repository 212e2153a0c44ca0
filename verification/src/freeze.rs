//! Freezing the motors of all six ports.
//!
//! The timers' outputs are inverted. A channel that is forced inactive holds its
//! pin high, and with the other pin of the bridge high that brakes the motor. Pin
//! modes and duties stay as they are: what an application asks for while the
//! motors are frozen takes effect once they go on.
use crate::motor::{motor_set_acts, Motor};
use crate::plan::{at, masked, md, reg_modify, run, run_upto, say, Act, Plan, Regs};
use crate::regs::{TIM1, TIM3, TIM4, TIM_CCMR1, TIM_CCMR2};
use vstd::prelude::*;

verus! {

/// The mode bits of the two channels in a capture/compare mode register.
pub const CHANNEL_MODES: u32 = 0x7070;

/// Both channels forced inactive.
pub const FORCED_INACTIVE: u32 = 0x4040;

/// Both channels in PWM mode 1.
pub const PWM_MODE: u32 = 0x6060;

/// Both channels of a mode register in a mode.
pub open spec fn mode_act(timer: u32, off: u32, mode: u32) -> Act {
    md(timer, off, CHANNEL_MODES, mode)
}

/// All channels of the motor timers in a mode: timer 1 for ports A and B, timer 4
/// for C and D, timer 3 for E and F.
pub open spec fn channels_acts(mode: u32) -> Seq<Act> {
    seq![
        mode_act(TIM1, TIM_CCMR1, mode),
        mode_act(TIM1, TIM_CCMR2, mode),
        mode_act(TIM4, TIM_CCMR1, mode),
        mode_act(TIM4, TIM_CCMR2, mode),
        mode_act(TIM3, TIM_CCMR1, mode),
        mode_act(TIM3, TIM_CCMR2, mode),
    ]
}

fn set_channels(mode: u32) -> (p: Plan)
    ensures
        p@ == channels_acts(mode),
{
    let mut p: Plan = Plan::new();
    reg_modify(&mut p, TIM1, TIM_CCMR1, CHANNEL_MODES, mode);
    reg_modify(&mut p, TIM1, TIM_CCMR2, CHANNEL_MODES, mode);
    reg_modify(&mut p, TIM4, TIM_CCMR1, CHANNEL_MODES, mode);
    reg_modify(&mut p, TIM4, TIM_CCMR2, CHANNEL_MODES, mode);
    reg_modify(&mut p, TIM3, TIM_CCMR1, CHANNEL_MODES, mode);
    reg_modify(&mut p, TIM3, TIM_CCMR2, CHANNEL_MODES, mode);
    p
}

pub open spec fn freeze_acts() -> Seq<Act> {
    channels_acts(FORCED_INACTIVE)
}

pub open spec fn unfreeze_acts() -> Seq<Act> {
    channels_acts(PWM_MODE)
}

/// Stops every motor.
pub fn motor_freeze() -> (p: Plan)
    ensures
        p@ == freeze_acts(),
{
    set_channels(FORCED_INACTIVE)
}

/// Lets every motor do again what it is asked for.
pub fn motor_unfreeze() -> (p: Plan)
    ensures
        p@ == unfreeze_acts(),
{
    set_channels(PWM_MODE)
}

/// Whether a mode register says that its channels are frozen.
pub open spec fn frozen(ccmr: u32) -> bool {
    ccmr & CHANNEL_MODES == FORCED_INACTIVE
}

/// Whether a mode register says that its channels are frozen.
pub fn is_frozen(ccmr: u32) -> (r: bool)
    ensures
        r == frozen(ccmr),
{
    ccmr & CHANNEL_MODES == FORCED_INACTIVE
}

/// What a press of the button does about the motors: freeze them, or let frozen
/// ones go on.
pub open spec fn toggle_freeze_acts(ccmr: u32) -> Seq<Act> {
    if frozen(ccmr) {
        unfreeze_acts()
    } else {
        freeze_acts()
    }
}

/// Freezes the motors, or lets frozen ones go on.
pub fn toggle_freeze(ccmr: u32) -> (p: Plan)
    ensures
        p@ == toggle_freeze_acts(ccmr),
{
    if is_frozen(ccmr) {
        motor_unfreeze()
    } else {
        motor_freeze()
    }
}

/// What `pause` does.
pub open spec fn pause_acts() -> Seq<Act> {
    freeze_acts().push(say("Motors frozen\r\n"))
}

/// What `resume` does.
pub open spec fn go_on_acts() -> Seq<Act> {
    unfreeze_acts().push(say("Motors running\r\n"))
}

/// Freezes the motors and says so.
pub fn cmd_pause() -> (p: Plan)
    ensures
        p@ == pause_acts(),
{
    let mut p: Plan = motor_freeze();
    p.say("Motors frozen\r\n");
    p
}

/// Lets the motors go on and says so.
pub fn cmd_resume() -> (p: Plan)
    ensures
        p@ == go_on_acts(),
{
    let mut p: Plan = motor_unfreeze();
    p.say("Motors running\r\n");
    p
}

// ---------------------------------------------------------------------------
// What freezing promises
// ---------------------------------------------------------------------------

/// Whether all channels of the motor timers are in a mode.
pub open spec fn channels_in(regs: Regs, mode: u32) -> bool {
    &&& regs[at(TIM1, TIM_CCMR1)] & CHANNEL_MODES == mode
    &&& regs[at(TIM1, TIM_CCMR2)] & CHANNEL_MODES == mode
    &&& regs[at(TIM4, TIM_CCMR1)] & CHANNEL_MODES == mode
    &&& regs[at(TIM4, TIM_CCMR2)] & CHANNEL_MODES == mode
    &&& regs[at(TIM3, TIM_CCMR1)] & CHANNEL_MODES == mode
    &&& regs[at(TIM3, TIM_CCMR2)] & CHANNEL_MODES == mode
}

proof fn mode_is_written(v: u32, mode: u32)
    requires
        mode == FORCED_INACTIVE || mode == PWM_MODE,
    ensures
        masked(v, CHANNEL_MODES, mode) & CHANNEL_MODES == mode,
        masked(masked(v, CHANNEL_MODES, FORCED_INACTIVE), CHANNEL_MODES, mode) == masked(
            v,
            CHANNEL_MODES,
            mode,
        ),
        v & CHANNEL_MODES == mode ==> masked(v, CHANNEL_MODES, mode) == v,
{
    assert((mode == 0x4040 || mode == 0x6060) ==> {
        let w = (v & !0x7070u32) | mode;
        &&& w & 0x7070 == mode
        &&& (((v & !0x7070u32) | 0x4040u32) & !0x7070u32) | mode == w
        &&& v & 0x7070 == mode ==> w == v
    }) by (bit_vector);
}

/// The registers after all channels were put in a mode.
pub open spec fn channels_set(regs: Regs, mode: u32) -> Regs {
    regs.insert(
        at(TIM1, TIM_CCMR1),
        masked(regs[at(TIM1, TIM_CCMR1)], CHANNEL_MODES, mode),
    ).insert(at(TIM1, TIM_CCMR2), masked(regs[at(TIM1, TIM_CCMR2)], CHANNEL_MODES, mode)).insert(
        at(TIM4, TIM_CCMR1),
        masked(regs[at(TIM4, TIM_CCMR1)], CHANNEL_MODES, mode),
    ).insert(at(TIM4, TIM_CCMR2), masked(regs[at(TIM4, TIM_CCMR2)], CHANNEL_MODES, mode)).insert(
        at(TIM3, TIM_CCMR1),
        masked(regs[at(TIM3, TIM_CCMR1)], CHANNEL_MODES, mode),
    ).insert(at(TIM3, TIM_CCMR2), masked(regs[at(TIM3, TIM_CCMR2)], CHANNEL_MODES, mode))
}

proof fn channels_are_set(mode: u32, regs: Regs)
    ensures
        run(channels_acts(mode), regs) == channels_set(regs, mode),
{
    reveal_with_fuel(run_upto, 7);
}

proof fn modes_are_written(mode: u32, regs: Regs)
    requires
        mode == FORCED_INACTIVE || mode == PWM_MODE,
    ensures
        channels_in(run(channels_acts(mode), regs), mode),
{
    channels_are_set(mode, regs);
    mode_is_written(regs[at(TIM1, TIM_CCMR1)], mode);
    mode_is_written(regs[at(TIM1, TIM_CCMR2)], mode);
    mode_is_written(regs[at(TIM4, TIM_CCMR1)], mode);
    mode_is_written(regs[at(TIM4, TIM_CCMR2)], mode);
    mode_is_written(regs[at(TIM3, TIM_CCMR1)], mode);
    mode_is_written(regs[at(TIM3, TIM_CCMR2)], mode);
}

/// Freezing forces the channels of all six ports inactive, and the hub can tell.
pub proof fn freeze_stops_all_ports(regs: Regs)
    ensures
        channels_in(run(freeze_acts(), regs), FORCED_INACTIVE),
        frozen(run(freeze_acts(), regs)[at(TIM1, TIM_CCMR1)]),
{
    modes_are_written(FORCED_INACTIVE, regs);
}

/// Going on puts the channels of all six ports back under their timers.
pub proof fn unfreeze_drives_all_ports(regs: Regs)
    ensures
        channels_in(run(unfreeze_acts(), regs), PWM_MODE),
{
    modes_are_written(PWM_MODE, regs);
}

/// Going on undoes freezing: motors that were driven by PWM are driven as before,
/// and no other register has changed.
pub proof fn unfreeze_undoes_freeze(regs: Regs, addr: u32)
    requires
        channels_in(regs, PWM_MODE),
    ensures
        run(unfreeze_acts(), run(freeze_acts(), regs))[addr] == regs[addr],
{
    let mid = run(freeze_acts(), regs);
    channels_are_set(FORCED_INACTIVE, regs);
    channels_are_set(PWM_MODE, mid);
    mode_is_written(regs[at(TIM1, TIM_CCMR1)], PWM_MODE);
    mode_is_written(regs[at(TIM1, TIM_CCMR2)], PWM_MODE);
    mode_is_written(regs[at(TIM4, TIM_CCMR1)], PWM_MODE);
    mode_is_written(regs[at(TIM4, TIM_CCMR2)], PWM_MODE);
    mode_is_written(regs[at(TIM3, TIM_CCMR1)], PWM_MODE);
    mode_is_written(regs[at(TIM3, TIM_CCMR2)], PWM_MODE);
}

/// Two presses of the button leave motors that run as they were, and the first
/// freezes them.
pub proof fn second_press_goes_on(regs: Regs, addr: u32)
    requires
        channels_in(regs, PWM_MODE),
    ensures
        ({
            let once = run(toggle_freeze_acts(regs[at(TIM1, TIM_CCMR1)]), regs);
            let twice = run(toggle_freeze_acts(once[at(TIM1, TIM_CCMR1)]), once);
            &&& channels_in(once, FORCED_INACTIVE)
            &&& twice[addr] == regs[addr]
        }),
{
    freeze_stops_all_ports(regs);
    unfreeze_undoes_freeze(regs, addr);
}

/// Frozen motors stay frozen whatever the application asks of them.
pub proof fn frozen_motors_stay_frozen(motor: Motor, duty: i16, regs: Regs)
    requires
        channels_in(regs, FORCED_INACTIVE),
    ensures
        channels_in(run(motor_set_acts(motor, duty), regs), FORCED_INACTIVE),
{
    reveal_with_fuel(run_upto, 4);
}

} // verus!
