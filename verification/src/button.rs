//! Buttons: resistor ladders behind the analog-to-digital converter.
//!
//! The center button hangs on PC4 (channel 14), the side buttons share PA1
//! (channel 1). A press lowers the voltage, but not below the threshold of a
//! digital input, so that every press has to be told from a converted value.
use crate::debug::MON_PEND;
use crate::freeze::{
    channels_in, freeze_stops_all_ports, frozen, toggle_freeze, toggle_freeze_acts,
    unfreeze_drives_all_ports, FORCED_INACTIVE, PWM_MODE,
};
use crate::hub::{shutdown, shutdown_acts, shutdown_stops_and_releases};
use crate::motor::{is_coasting, Motor};
use crate::plan::{
    at, ld, md, rd, reg_load, reg_modify, reg_read, reg_until_set, reg_write, run, run_append,
    run_upto, until_set, wr, Act, Op, Plan, Regs,
};
use crate::power::power_held;
use crate::regs::{
    ADC1, ADC_CCR, ADC_CR1, ADC_CR2, ADC_DR, ADC_SMPR1, ADC_SMPR2, ADC_SQR1, ADC_SQR3, ADC_SR,
    GPIOA, GPIOC, GPIO_MODER, RCC, RCC_AHB1ENR, RCC_APB2ENR, SCB_DEMCR, TIM1, TIM_CCMR1,
};
use crate::trace::fields_by_division;
use vstd::prelude::*;

verus! {

/// The center button is pressed at or below this value.
pub const BUTTON_CENTER_THRESHOLD: u32 = 2879;

/// Channel of the center button.
pub const CENTER_CHANNEL: u32 = 14;

/// Channel of the side buttons.
pub const SIDE_CHANNEL: u32 = 1;

/// Flags of the buttons.
pub const BTN_CENTER: u8 = 0x01;

pub const BTN_LEFT: u8 = 0x02;

pub const BTN_RIGHT: u8 = 0x04;

/// Largest value that the converter gives: no button pressed.
pub const NO_PRESS: u32 = 4095;

// ---------------------------------------------------------------------------
// From values to buttons
// ---------------------------------------------------------------------------

/// Whether a converted value tells of the left button. The Bluetooth button, on
/// the same ladder, is ignored.
pub open spec fn left_down(v: u32) -> bool {
    1969 < v <= 2755
}

/// Whether a converted value tells of the right button.
pub open spec fn right_down(v: u32) -> bool {
    2755 < v <= 3394 || 1969 < v <= 2327
}

pub open spec fn center_down(v: u32) -> bool {
    v <= BUTTON_CENTER_THRESHOLD
}

/// The flags of the buttons that two converted values tell of.
pub open spec fn button_flags(center: u32, side: u32) -> u8 {
    (if center_down(center) {
        BTN_CENTER
    } else {
        0u8
    }) | (if left_down(side) {
        BTN_LEFT
    } else {
        0u8
    }) | (if right_down(side) {
        BTN_RIGHT
    } else {
        0u8
    })
}

/// The flags of the buttons that are pressed, by the values of both channels.
pub fn read_buttons(center: u32, side: u32) -> (flags: u8)
    ensures
        flags == button_flags(center, side),
{
    let c: u8 = if center <= BUTTON_CENTER_THRESHOLD {
        BTN_CENTER
    } else {
        0
    };
    let mut l: u8 = 0;
    let mut r: u8 = 0;
    if side <= 3872 {
        if side > 3394 {
            // Bluetooth alone
        } else if side > 3009 {
            r = BTN_RIGHT;
        } else if side > 2755 {
            // with Bluetooth
            r = BTN_RIGHT;
        } else if side > 2538 {
            l = BTN_LEFT;
        } else if side > 2327 {
            // with Bluetooth
            l = BTN_LEFT;
        } else if side > 2141 {
            l = BTN_LEFT;
            r = BTN_RIGHT;
        } else if side > 1969 {
            // all three
            l = BTN_LEFT;
            r = BTN_RIGHT;
        }
    }
    c | l | r
}

/// Whether the center button is pressed, by the value of its channel.
pub fn center_pressed(adc: u32) -> (r: bool)
    ensures
        r == center_down(adc),
{
    adc <= BUTTON_CENTER_THRESHOLD
}

/// Every flag says exactly whether its button is down, and no other bit is set.
pub proof fn flags_tell_buttons(center: u32, side: u32)
    ensures
        ({
            let f = button_flags(center, side);
            &&& f & BTN_CENTER != 0 <==> center_down(center)
            &&& f & BTN_LEFT != 0 <==> left_down(side)
            &&& f & BTN_RIGHT != 0 <==> right_down(side)
            &&& f <= 7
        }),
{
    let c = if center_down(center) {
        BTN_CENTER
    } else {
        0u8
    };
    let l = if left_down(side) {
        BTN_LEFT
    } else {
        0u8
    };
    let r = if right_down(side) {
        BTN_RIGHT
    } else {
        0u8
    };
    assert((c | l | r) & 1 == c && (c | l | r) & 2 == l && (c | l | r) & 4 == r && (c | l | r)
        <= 7) by (bit_vector)
        requires
            c == 0 || c == 1,
            l == 0 || l == 2,
            r == 0 || r == 4,
    ;
}

// ---------------------------------------------------------------------------
// The converter
// ---------------------------------------------------------------------------

/// Both ladders analog, single conversions with long samples, converter on.
pub open spec fn button_adc_acts() -> Seq<Act> {
    seq![
        md(RCC, RCC_AHB1ENR, 0, (1u32 << 0) | (1u32 << 2)),
        md(RCC, RCC_APB2ENR, 0, 1u32 << 8),
        rd(RCC, RCC_APB2ENR),
        md(GPIOC, GPIO_MODER, 3u32 << 8, 3u32 << 8),
        md(GPIOA, GPIO_MODER, 3u32 << 2, 3u32 << 2),
        wr(ADC1, ADC_SQR1, 0),
        md(ADC1, ADC_SMPR1, 7u32 << 12, 7u32 << 12),
        md(ADC1, ADC_SMPR2, 7u32 << 3, 7u32 << 3),
        md(ADC1, ADC_CR2, 0, 1u32 << 0),
    ]
}

/// Sets the converter up for all buttons.
pub fn init_button_adc() -> (p: Plan)
    ensures
        p@ == button_adc_acts(),
{
    let mut p: Plan = Plan::new();
    reg_modify(&mut p, RCC, RCC_AHB1ENR, 0, (1u32 << 0) | (1u32 << 2));
    reg_modify(&mut p, RCC, RCC_APB2ENR, 0, 1u32 << 8);
    reg_read(&mut p, RCC, RCC_APB2ENR);
    reg_modify(&mut p, GPIOC, GPIO_MODER, 3u32 << 8, 3u32 << 8);
    reg_modify(&mut p, GPIOA, GPIO_MODER, 3u32 << 2, 3u32 << 2);
    reg_write(&mut p, ADC1, ADC_SQR1, 0);
    reg_modify(&mut p, ADC1, ADC_SMPR1, 7u32 << 12, 7u32 << 12);
    reg_modify(&mut p, ADC1, ADC_SMPR2, 7u32 << 3, 7u32 << 3);
    reg_modify(&mut p, ADC1, ADC_CR2, 0, 1u32 << 0);
    p
}

/// The center ladder analog, single conversions with long samples, converter on.
pub open spec fn center_adc_acts() -> Seq<Act> {
    seq![
        md(RCC, RCC_AHB1ENR, 0, (1u32 << 0) | (1u32 << 2)),
        md(RCC, RCC_APB2ENR, 0, 1u32 << 8),
        rd(RCC, RCC_APB2ENR),
        md(GPIOC, GPIO_MODER, 3u32 << 8, 3u32 << 8),
        wr(ADC1, ADC_SQR1, 0),
        md(ADC1, ADC_SMPR1, 7u32 << 12, 7u32 << 12),
        md(ADC1, ADC_CR2, 0, 1u32 << 0),
    ]
}

/// Sets the converter up for the center button alone.
pub fn init_center_adc() -> (p: Plan)
    ensures
        p@ == center_adc_acts(),
{
    let mut p: Plan = Plan::new();
    reg_modify(&mut p, RCC, RCC_AHB1ENR, 0, (1u32 << 0) | (1u32 << 2));
    reg_modify(&mut p, RCC, RCC_APB2ENR, 0, 1u32 << 8);
    reg_read(&mut p, RCC, RCC_APB2ENR);
    reg_modify(&mut p, GPIOC, GPIO_MODER, 3u32 << 8, 3u32 << 8);
    reg_write(&mut p, ADC1, ADC_SQR1, 0);
    reg_modify(&mut p, ADC1, ADC_SMPR1, 7u32 << 12, 7u32 << 12);
    reg_modify(&mut p, ADC1, ADC_CR2, 0, 1u32 << 0);
    p
}

/// One conversion, waited for and loaded.
pub open spec fn read_adc_acts(channel: u32) -> Seq<Act> {
    seq![
        wr(ADC1, ADC_SQR3, channel),
        md(ADC1, ADC_CR2, 0, 1u32 << 30),
        until_set(ADC1, ADC_SR, 1u32 << 1),
        ld(ADC1, ADC_DR),
    ]
}

/// Converts a channel.
pub fn read_adc(channel: u32) -> (p: Plan)
    ensures
        p@ == read_adc_acts(channel),
{
    let mut p: Plan = Plan::new();
    reg_write(&mut p, ADC1, ADC_SQR3, channel);
    reg_modify(&mut p, ADC1, ADC_CR2, 0, 1u32 << 30);
    reg_until_set(&mut p, ADC1, ADC_SR, 1u32 << 1);
    reg_load(&mut p, ADC1, ADC_DR);
    p
}

/// How often the end of a conversion is looked for.
pub const ADC_TRIES: u32 = 100_000;

/// A conversion started, and its end looked for. Interrupts stay off, because the
/// monitor's tick uses the same converter.
pub open spec fn start_adc_acts(channel: u32) -> Seq<Act> {
    seq![
        Act::Irq { on: false },
        wr(ADC1, ADC_SQR3, channel),
        md(ADC1, ADC_CR2, 0, 1u32 << 0),
        wr(ADC1, ADC_SR, 0),
        md(ADC1, ADC_CR2, 0, 1u32 << 30),
        Act::Poll { addr: at(ADC1, ADC_SR), mask: 1u32 << 1, tries: ADC_TRIES },
    ]
}

/// Starts a conversion under the monitor.
pub fn start_adc(channel: u32) -> (p: Plan)
    ensures
        p@ == start_adc_acts(channel),
{
    let mut p: Plan = Plan::new();
    p.push(Op::Irq { on: false });
    reg_write(&mut p, ADC1, ADC_SQR3, channel);
    reg_modify(&mut p, ADC1, ADC_CR2, 0, 1u32 << 0);
    reg_write(&mut p, ADC1, ADC_SR, 0);
    reg_modify(&mut p, ADC1, ADC_CR2, 0, 1u32 << 30);
    p.push(Op::Poll { addr: ADC1 + ADC_SR, mask: 1u32 << 1, tries: ADC_TRIES });
    p
}

/// The value loaded where the conversion ended; else the converter switched off
/// and on again.
pub open spec fn finish_adc_acts(ended: bool) -> Seq<Act> {
    if ended {
        seq![ld(ADC1, ADC_DR), Act::Irq { on: true }]
    } else {
        seq![
            md(ADC1, ADC_CR2, 1u32 << 0, 0),
            Act::Delay { cycles: 100 },
            md(ADC1, ADC_CR2, 0, 1u32 << 0),
            Act::Irq { on: true },
        ]
    }
}

/// Ends a conversion, or gives a stuck one up.
pub fn finish_adc(ended: bool) -> (p: Plan)
    ensures
        p@ == finish_adc_acts(ended),
{
    let mut p: Plan = Plan::new();
    if ended {
        reg_load(&mut p, ADC1, ADC_DR);
        p.push(Op::Irq { on: true });
    } else {
        reg_modify(&mut p, ADC1, ADC_CR2, 1u32 << 0, 0);
        p.push(Op::Delay { cycles: 100 });
        reg_modify(&mut p, ADC1, ADC_CR2, 0, 1u32 << 0);
        p.push(Op::Irq { on: true });
    }
    p
}

/// The value of a conversion; a stuck one counts as no press.
pub fn adc_value(ended: bool, loaded: u32) -> (v: u32)
    ensures
        v == if ended {
            loaded
        } else {
            NO_PRESS
        },
        !ended ==> !center_down(v) && !left_down(v) && !right_down(v),
{
    if ended {
        loaded
    } else {
        NO_PRESS
    }
}

// ---------------------------------------------------------------------------
// The center button at boot
// ---------------------------------------------------------------------------

/// Converter on for one conversion of the center button.
pub open spec fn center_sample_start_acts() -> Seq<Act> {
    seq![
        md(RCC, RCC_AHB1ENR, 0, 1u32 << 2),
        md(RCC, RCC_APB2ENR, 0, 1u32 << 8),
        rd(RCC, RCC_APB2ENR),
        wr(ADC1, ADC_SQR1, 0),
        wr(ADC1, ADC_SQR3, CENTER_CHANNEL),
        wr(ADC1, ADC_SMPR1, 7u32 << 12),
        wr(ADC1, ADC_CR2, 1),
    ]
}

/// The conversion, and the converter off again.
pub open spec fn center_sample_end_acts() -> Seq<Act> {
    seq![
        md(ADC1, ADC_CR2, 0, 1u32 << 30),
        until_set(ADC1, ADC_SR, 1u32 << 1),
        ld(ADC1, ADC_DR),
        wr(ADC1, ADC_CR2, 0),
    ]
}

/// How long the converter settles, in core cycles or in no-operations.
pub const ADC_SETTLE: u32 = 160_000;

/// One sample of the center button. `settle` is how the converter settles.
pub open spec fn center_sample_acts(settle: Act) -> Seq<Act> {
    center_sample_start_acts().push(settle) + center_sample_end_acts()
}

fn center_sample(settle: Op) -> (p: Plan)
    ensures
        p@ == center_sample_acts(settle@),
{
    let mut p: Plan = Plan::new();
    reg_modify(&mut p, RCC, RCC_AHB1ENR, 0, 1u32 << 2);
    reg_modify(&mut p, RCC, RCC_APB2ENR, 0, 1u32 << 8);
    reg_read(&mut p, RCC, RCC_APB2ENR);
    reg_write(&mut p, ADC1, ADC_SQR1, 0);
    reg_write(&mut p, ADC1, ADC_SQR3, CENTER_CHANNEL);
    reg_write(&mut p, ADC1, ADC_SMPR1, 7u32 << 12);
    reg_write(&mut p, ADC1, ADC_CR2, 1);
    p.push(settle);
    assert(p@ =~= center_sample_start_acts().push(settle@));
    reg_modify(&mut p, ADC1, ADC_CR2, 0, 1u32 << 30);
    reg_until_set(&mut p, ADC1, ADC_SR, 1u32 << 1);
    reg_load(&mut p, ADC1, ADC_DR);
    reg_write(&mut p, ADC1, ADC_CR2, 0);
    assert(p@ =~= center_sample_acts(settle@));
    p
}

/// Samples the center button in the monitor; `center_pressed` tells what the
/// loaded value means.
pub fn read_center_button() -> (p: Plan)
    ensures
        p@ == center_sample_acts(Act::Delay { cycles: ADC_SETTLE }),
{
    center_sample(Op::Delay { cycles: ADC_SETTLE })
}

/// Samples the center button in the bootloader.
pub fn boot_read_center_button() -> (p: Plan)
    ensures
        p@ == center_sample_acts(Act::Nops { count: ADC_SETTLE }),
{
    center_sample(Op::Nops { count: ADC_SETTLE })
}

// ---------------------------------------------------------------------------
// The center button while an application runs
// ---------------------------------------------------------------------------

/// The tick's sample, up to the start of the conversion.
pub open spec fn tick_setup_acts() -> Seq<Act> {
    seq![
        md(RCC, RCC_AHB1ENR, 0, 1u32 << 2),
        md(RCC, RCC_APB2ENR, 0, 1u32 << 8),
        md(GPIOC, GPIO_MODER, 3u32 << 8, 3u32 << 8),
        md(ADC_CCR, 0, 3u32 << 16, 1u32 << 16),
        wr(ADC1, ADC_CR2, 0),
        wr(ADC1, ADC_CR1, 0),
        md(ADC1, ADC_SMPR1, 7u32 << 12, 3u32 << 12),
        wr(ADC1, ADC_SQR1, 0),
        wr(ADC1, ADC_SQR3, CENTER_CHANNEL),
        wr(ADC1, ADC_CR2, 1),
        Act::Nops { count: 300 },
    ]
}

/// The conversion: looked at a bounded number of times, loaded whatever came,
/// and the converter off again.
pub open spec fn tick_convert_acts() -> Seq<Act> {
    seq![
        wr(ADC1, ADC_SR, 0),
        wr(ADC1, ADC_CR2, 1 | (1u32 << 30)),
        Act::Poll { addr: at(ADC1, ADC_SR), mask: 1u32 << 1, tries: 1000 },
        ld(ADC1, ADC_DR),
        wr(ADC1, ADC_CR2, 0),
    ]
}

/// The tick's service of the serial line, where no console is open that serves it
/// already: what the host sent is there for the commands that work while an
/// application runs.
pub open spec fn tick_serve_acts(open: bool) -> Seq<Act> {
    if open {
        Seq::empty()
    } else {
        seq![Act::Flush { polls: 1 }]
    }
}

/// Everything that a tick has to know: what the host sent, the center button, and
/// whether the motors are frozen.
pub open spec fn tick_sample_acts(open: bool) -> Seq<Act> {
    tick_serve_acts(open) + tick_setup_acts() + tick_convert_acts() + seq![ld(TIM1, TIM_CCMR1)]
}

fn tick_converter() -> (p: Plan)
    ensures
        p@ == tick_setup_acts() + tick_convert_acts(),
{
    let mut p: Plan = Plan::new();
    reg_modify(&mut p, RCC, RCC_AHB1ENR, 0, 1u32 << 2);
    reg_modify(&mut p, RCC, RCC_APB2ENR, 0, 1u32 << 8);
    reg_modify(&mut p, GPIOC, GPIO_MODER, 3u32 << 8, 3u32 << 8);
    reg_modify(&mut p, ADC_CCR, 0, 3u32 << 16, 1u32 << 16);
    reg_write(&mut p, ADC1, ADC_CR2, 0);
    reg_write(&mut p, ADC1, ADC_CR1, 0);
    reg_modify(&mut p, ADC1, ADC_SMPR1, 7u32 << 12, 3u32 << 12);
    reg_write(&mut p, ADC1, ADC_SQR1, 0);
    reg_write(&mut p, ADC1, ADC_SQR3, CENTER_CHANNEL);
    reg_write(&mut p, ADC1, ADC_CR2, 1);
    p.push(Op::Nops { count: 300 });
    assert(p@ =~= tick_setup_acts());
    reg_write(&mut p, ADC1, ADC_SR, 0);
    reg_write(&mut p, ADC1, ADC_CR2, 1 | (1u32 << 30));
    p.push(Op::Poll { addr: ADC1 + ADC_SR, mask: 1u32 << 1, tries: 1000 });
    reg_load(&mut p, ADC1, ADC_DR);
    reg_write(&mut p, ADC1, ADC_CR2, 0);
    assert(p@ =~= tick_setup_acts() + tick_convert_acts());
    p
}

/// Serves the serial line and samples the center button from the tick. Three values
/// are loaded: the second is the sample, the third tells of the motors. `open` says
/// that a console serves the line already.
pub fn tick_sample(open: bool) -> (p: Plan)
    ensures
        p@ == tick_sample_acts(open),
{
    let mut p: Plan = Plan::new();
    if !open {
        p.push(Op::Flush { polls: 1 });
    }
    assert(p@ =~= tick_serve_acts(open));
    p.append(tick_converter());
    reg_load(&mut p, TIM1, TIM_CCMR1);
    assert(p@ =~= tick_sample_acts(open));
    p
}

/// So many samples in a row have to tell of the button.
pub const DEBOUNCE: u8 = 50;

/// Whether a sample tells of the center button alone.
pub open spec fn tick_down(sample: u32) -> bool {
    2600 < sample & 0xFFF && sample & 0xFFF < 3400
}

/// Whether a sample is the last that a press needs.
pub open spec fn pends(count: u8, sample: u32) -> bool {
    tick_down(sample) && count + 1 >= DEBOUNCE
}

/// The samples in a row that told of the button, after one more.
pub open spec fn debounced(count: u8, sample: u32) -> u8 {
    if tick_down(sample) && !pends(count, sample) {
        (count + 1) as u8
    } else {
        0
    }
}

/// So many samples in a row, which is three seconds, switch the hub off.
pub const LONG_HOLD: u32 = 3000;

/// What the tick knows of the center button.
#[derive(Clone, Copy, Debug, PartialEq, Eq, Structural)]
pub struct Tick {
    /// Samples in a row that told of the button since the last that stopped the
    /// application.
    pub debounce: u8,
    /// Samples in a row that told of the button.
    pub hold: u32,
}

/// Whether a sample is the one at which a press counts: once for each press.
pub open spec fn presses(t: Tick, sample: u32) -> bool {
    tick_down(sample) && t.hold + 1 == DEBOUNCE
}

/// Whether a sample ends a press of three seconds.
pub open spec fn holds_long(t: Tick, sample: u32) -> bool {
    tick_down(sample) && t.hold + 1 >= LONG_HOLD
}

/// What the tick knows after one more sample.
pub open spec fn sampled(t: Tick, sample: u32) -> Tick {
    Tick {
        debounce: debounced(t.debounce, sample),
        hold: if !tick_down(sample) {
            0
        } else if holds_long(t, sample) {
            LONG_HOLD
        } else {
            (t.hold + 1) as u32
        },
    }
}

/// What fifty samples in a row do: the DebugMonitor exception is pended, which
/// stops the application.
pub open spec fn pend_acts(count: u8, sample: u32) -> Seq<Act> {
    if pends(count, sample) {
        seq![md(SCB_DEMCR, 0, 0, MON_PEND)]
    } else {
        Seq::empty()
    }
}

/// What a press does about the motors.
pub open spec fn press_acts(t: Tick, sample: u32, ccmr: u32) -> Seq<Act> {
    if presses(t, sample) {
        toggle_freeze_acts(ccmr)
    } else {
        Seq::empty()
    }
}

/// What a sample does: a press stops the application and freezes the motors, or
/// lets frozen ones go on; a long press stops the motors and switches the hub off.
pub open spec fn tick_acts(t: Tick, sample: u32, ccmr: u32) -> Seq<Act> {
    pend_acts(t.debounce, sample) + if holds_long(t, sample) {
        shutdown_acts()
    } else {
        press_acts(t, sample, ccmr)
    }
}

impl Tick {
    /// No button held.
    pub fn new() -> (t: Tick)
        ensures
            t == (Tick { debounce: 0, hold: 0 }),
    {
        Tick { debounce: 0, hold: 0 }
    }
}

/// Takes the tick's sample. `ccmr` is the mode register that tells whether the
/// motors are frozen.
pub fn systick_handler(tick: &mut Tick, sample: u32, ccmr: u32) -> (p: Plan)
    ensures
        *final(tick) == sampled(*old(tick), sample),
        p@ == tick_acts(*old(tick), sample, ccmr),
{
    let raw: u32 = sample & 0xFFF;
    let center: bool = raw > 2600 && raw < 3400;
    let mut p: Plan = Plan::new();
    if !center {
        tick.debounce = 0;
        tick.hold = 0;
        assert(p@ =~= tick_acts(*old(tick), sample, ccmr));
        return p;
    }
    let next: u8 = if tick.debounce < 255 {
        tick.debounce + 1
    } else {
        255
    };
    if next >= DEBOUNCE {
        reg_modify(&mut p, SCB_DEMCR, 0, 0, MON_PEND);
        tick.debounce = 0;
    } else {
        tick.debounce = next;
    }
    assert(p@ =~= pend_acts(old(tick).debounce, sample));
    if tick.hold >= LONG_HOLD - 1 {
        tick.hold = LONG_HOLD;
        p.append(shutdown());
        return p;
    }
    tick.hold = tick.hold + 1;
    if tick.hold == DEBOUNCE as u32 {
        p.append(toggle_freeze(ccmr));
    }
    assert(p@ =~= tick_acts(*old(tick), sample, ccmr));
    p
}

/// A sample without the button starts both counts again, and does nothing.
pub proof fn release_restarts(t: Tick, sample: u32, ccmr: u32)
    requires
        !tick_down(sample),
    ensures
        sampled(t, sample) == (Tick { debounce: 0, hold: 0 }),
        tick_acts(t, sample, ccmr) == Seq::<Act>::empty(),
{
}

/// The tick's state after the first `n` samples.
pub open spec fn sampled_upto(t: Tick, samples: Seq<u32>, n: nat) -> Tick
    decreases n,
{
    if n == 0 {
        t
    } else {
        sampled(sampled_upto(t, samples, (n - 1) as nat), samples[n - 1])
    }
}

/// How many of the last samples before position `n` told of the button.
pub open spec fn held_for(samples: Seq<u32>, n: nat) -> nat
    decreases n,
{
    if n == 0 || !tick_down(samples[n - 1]) {
        0
    } else {
        held_for(samples, (n - 1) as nat) + 1
    }
}

proof fn count_is_remainder(samples: Seq<u32>, n: nat)
    requires
        n <= samples.len(),
    ensures
        sampled_upto(Tick { debounce: 0, hold: 0 }, samples, n).debounce == held_for(samples, n)
            % DEBOUNCE as nat,
    decreases n,
{
    if n > 0 {
        count_is_remainder(samples, (n - 1) as nat);
    }
}

/// A sample stops the application exactly where the unbroken run of samples that ends
/// with it, all of which told of the button, is a positive multiple of fifty long.
pub proof fn every_fiftieth_sample_pends(samples: Seq<u32>, n: nat, ccmr: u32)
    requires
        0 < n <= samples.len(),
    ensures
        ({
            let t = sampled_upto(Tick { debounce: 0, hold: 0 }, samples, (n - 1) as nat);
            let run = held_for(samples, n);
            tick_acts(t, samples[n - 1], ccmr).contains(md(SCB_DEMCR, 0, 0, MON_PEND)) <==> run > 0
                && run % DEBOUNCE as nat == 0
        }),
{
    let t = sampled_upto(Tick { debounce: 0, hold: 0 }, samples, (n - 1) as nat);
    let acts = tick_acts(t, samples[n - 1], ccmr);
    count_is_remainder(samples, (n - 1) as nat);
    if pends(t.debounce, samples[n - 1]) {
        assert(acts[0] == md(SCB_DEMCR, 0, 0, MON_PEND));
    }
}

/// A button that is held for three seconds, at a sample a millisecond, stops the
/// motors and switches the hub off, and not before; on the way it counts as a
/// press once, at the fiftieth sample.
pub proof fn held_button_switches_off(samples: Seq<u32>, n: nat, ccmr: u32)
    requires
        n < samples.len(),
        n < LONG_HOLD,
        forall|i: int| 0 <= i < samples.len() ==> tick_down(#[trigger] samples[i]),
    ensures
        ({
            let t = sampled_upto(Tick { debounce: 0, hold: 0 }, samples, n);
            &&& t.hold == n
            &&& holds_long(t, samples[n as int]) == (n == LONG_HOLD - 1)
            &&& presses(t, samples[n as int]) == (n == DEBOUNCE - 1)
            &&& n == LONG_HOLD - 1 ==> tick_acts(t, samples[n as int], ccmr) == pend_acts(
                t.debounce,
                samples[n as int],
            ) + shutdown_acts()
        }),
    decreases n,
{
    assert(tick_down(samples[n as int]));
    if n > 0 {
        held_button_switches_off(samples, (n - 1) as nat, ccmr);
    }
}

/// A long press coasts both motors and releases the power.
pub proof fn long_press_stops_and_releases(t: Tick, sample: u32, ccmr: u32, regs: Regs)
    requires
        holds_long(t, sample),
    ensures
        ({
            let after = run(tick_acts(t, sample, ccmr), regs);
            &&& is_coasting(after, Motor::A)
            &&& is_coasting(after, Motor::B)
            &&& !power_held(after)
        }),
{
    let pend = pend_acts(t.debounce, sample);
    run_append(pend, shutdown_acts(), regs);
    shutdown_stops_and_releases(run(pend, regs));
}

/// A press freezes the motors of all ports, and lets frozen ones go on.
pub proof fn press_toggles_freeze(t: Tick, sample: u32, regs: Regs)
    requires
        presses(t, sample),
    ensures
        ({
            let ccmr = regs[at(TIM1, TIM_CCMR1)];
            let after = run(tick_acts(t, sample, ccmr), regs);
            channels_in(after, if frozen(ccmr) { PWM_MODE } else { FORCED_INACTIVE })
        }),
{
    let ccmr = regs[at(TIM1, TIM_CCMR1)];
    let pend = pend_acts(t.debounce, sample);
    run_append(pend, toggle_freeze_acts(ccmr), regs);
    freeze_stops_all_ports(run(pend, regs));
    unfreeze_drives_all_ports(run(pend, regs));
}

/// While an application runs and no console is open, every tick serves the serial
/// line.
pub proof fn tick_serves_line()
    ensures
        tick_sample_acts(false)[0] == (Act::Flush { polls: 1 }),
{
}

/// Pending sets the exception's bit and keeps every other bit.
pub proof fn pending_is_one_bit(count: u8, sample: u32, regs: Regs)
    requires
        pends(count, sample),
    ensures
        ({
            let after = run(pend_acts(count, sample), regs)[SCB_DEMCR];
            &&& after & MON_PEND != 0
            &&& after & !MON_PEND == regs[SCB_DEMCR] & !MON_PEND
        }),
{
    reveal_with_fuel(run_upto, 2);
    let v = regs[SCB_DEMCR];
    assert(((v & !0u32) | 0x2_0000u32) & 0x2_0000 != 0 && ((v & !0u32) | 0x2_0000u32)
        & !0x2_0000u32 == v & !0x2_0000u32) by (bit_vector);
}

/// Setting up the converter makes both ladders analog: no press could be seen on
/// a digital pin.
pub proof fn ladders_are_analog(regs: Regs)
    ensures
        ({
            let after = run(button_adc_acts(), regs);
            &&& (after[at(GPIOC, GPIO_MODER)] >> 8u32) & 3 == 3
            &&& (after[at(GPIOA, GPIO_MODER)] >> 2u32) & 3 == 3
        }),
{
    reveal_with_fuel(run_upto, 10);
    let c = regs[at(GPIOC, GPIO_MODER)];
    let a = regs[at(GPIOA, GPIO_MODER)];
    assert((((c & !(3u32 << 8u32)) | (3u32 << 8u32)) >> 8u32) & 3 == 3 && (((a & !(3u32 << 2u32))
        | (3u32 << 2u32)) >> 2u32) & 3 == 3) by (bit_vector);
}

/// What the two values tell of the buttons, by their thresholds: bit 0 is the center button,
/// bit 1 the left one, bit 2 the right one. The Bluetooth button tells nothing.
pub proof fn buttons_by_value(center: u32, side: u32)
    ensures
        ({
            let f = button_flags(center, side);
            let left = 1969 < side && side <= 2755;
            let right = (2755 < side && side <= 3394) || (1969 < side && side <= 2327);
            f == (if center <= 2879 {
                1int
            } else {
                0
            }) + (if left {
                2int
            } else {
                0
            }) + (if right {
                4int
            } else {
                0
            })
        }),
        center_down(center) <==> center <= 2879,
{
    let c = if center_down(center) {
        BTN_CENTER
    } else {
        0u8
    };
    let l = if left_down(side) {
        BTN_LEFT
    } else {
        0u8
    };
    let r = if right_down(side) {
        BTN_RIGHT
    } else {
        0u8
    };
    assert(c | l | r == c + l + r) by (bit_vector)
        requires
            c == 0 || c == 1,
            l == 0 || l == 2,
            r == 0 || r == 4,
    ;
}

/// The tick takes a sample for the center button where its low twelve bits lie strictly between
/// 2600 and 3400.
pub proof fn tick_sees_center(sample: u32)
    ensures
        tick_down(sample) <==> 2600 < sample % 4096 && sample % 4096 < 3400,
{
    fields_by_division(sample);
}

proof fn hold_counts_samples(samples: Seq<u32>, n: nat)
    requires
        n <= samples.len(),
    ensures
        sampled_upto(Tick { debounce: 0, hold: 0 }, samples, n).hold == if held_for(samples, n)
            < 3000 {
            held_for(samples, n) as int
        } else {
            3000
        },
    decreases n,
{
    if n > 0 {
        hold_counts_samples(samples, (n - 1) as nat);
    }
}

/// What a sample does, by the length of the unbroken run of samples with the button that ends
/// with it. Every fiftieth pends the DebugMonitor exception, by bit 17 of the register at
/// 0xE000EDFC. The fiftieth freezes the motors, or lets frozen ones go on. From the three
/// thousandth on the motors are let go and the power is released. Any other does nothing.
pub proof fn samples_by_run(samples: Seq<u32>, n: nat, ccmr: u32)
    requires
        0 < n <= samples.len(),
    ensures
        ({
            let t = sampled_upto(Tick { debounce: 0, hold: 0 }, samples, (n - 1) as nat);
            let run = held_for(samples, n);
            let pend = if run > 0 && run % 50 == 0 {
                seq![Act::Modify { addr: 0xE000_EDFC, clear: 0, set: 0x0002_0000 }]
            } else {
                Seq::empty()
            };
            tick_acts(t, samples[n - 1], ccmr) == pend + (if run >= 3000 {
                shutdown_acts()
            } else if run == 50 {
                toggle_freeze_acts(ccmr)
            } else {
                Seq::empty()
            })
        }),
{
    count_is_remainder(samples, (n - 1) as nat);
    hold_counts_samples(samples, (n - 1) as nat);
}

/// A conversion that got stuck counts as no button.
pub proof fn stuck_conversion_is_no_press(v: u32)
    requires
        v == NO_PRESS,
    ensures
        v == 4095,
        button_flags(v, v) == 0,
{
    buttons_by_value(v, v);
}

} // verus!
