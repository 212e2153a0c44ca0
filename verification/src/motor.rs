//! The two motor ports: H-bridges on port E, driven by timer 1.
//!
//! Forward is PWM on the first pin with the second one high, reverse is the other
//! way round; both pins high brake the motor, both pins low let it coast.
use crate::plan::{
    at, group_run, ld, masked, md, rd, reg_load, reg_modify, reg_read, reg_write, run, run_append,
    run_upto, set_reset, wr, Act, Plan, Regs,
};
use crate::regs::{
    GPIOA, GPIOE, GPIO_AFRH, GPIO_BSRR, GPIO_IDR, GPIO_MODER, GPIO_ODR, GPIO_OSPEEDR, RCC,
    RCC_AHB1ENR, RCC_APB2ENR, TIM1, TIM_ARR, TIM_BDTR, TIM_CCER, TIM_CCMR1, TIM_CCMR2, TIM_CCR1,
    TIM_CCR2, TIM_CCR3, TIM_CCR4, TIM_CR1, TIM_EGR, TIM_PSC,
};
use crate::trace::{bit_values, fields_by_division};
use vstd::prelude::*;

verus! {

/// Full power.
pub const MAX_DUTY: i16 = 1000;

/// A motor port.
#[derive(Clone, Copy, Debug, PartialEq, Eq, Structural)]
pub enum Motor {
    /// Port A: timer channels 1 (PE9) and 2 (PE11).
    A,
    /// Port B: timer channels 3 (PE13) and 4 (PE14).
    B,
}

/// The first pin of a bridge.
pub open spec fn pin1(motor: Motor) -> u32 {
    match motor {
        Motor::A => 9,
        Motor::B => 13,
    }
}

/// The second pin of a bridge.
pub open spec fn pin2(motor: Motor) -> u32 {
    match motor {
        Motor::A => 11,
        Motor::B => 14,
    }
}

/// Where the mode of the first pin stands in the port's mode register.
pub open spec fn shift1(motor: Motor) -> u32 {
    match motor {
        Motor::A => 18,
        Motor::B => 26,
    }
}

/// Where the mode of the second pin stands.
pub open spec fn shift2(motor: Motor) -> u32 {
    match motor {
        Motor::A => 22,
        Motor::B => 28,
    }
}

/// Compare register of the channel on the first pin.
pub open spec fn ccr1(motor: Motor) -> u32 {
    match motor {
        Motor::A => TIM_CCR1,
        Motor::B => TIM_CCR3,
    }
}

/// Compare register of the channel on the second pin.
pub open spec fn ccr2(motor: Motor) -> u32 {
    match motor {
        Motor::A => TIM_CCR2,
        Motor::B => TIM_CCR4,
    }
}

impl Motor {
    /// Pins, positions of their modes, and compare registers.
    pub fn hw(self) -> (r: (u32, u32, u32, u32, u32, u32))
        ensures
            r == (
                pin1(self),
                pin2(self),
                shift1(self),
                shift2(self),
                ccr1(self),
                ccr2(self),
            ),
    {
        match self {
            Motor::A => (9, 11, 18, 22, TIM_CCR1, TIM_CCR2),
            Motor::B => (13, 14, 26, 28, TIM_CCR3, TIM_CCR4),
        }
    }
}

/// The mode bits of both pins.
pub open spec fn mode_mask(motor: Motor) -> u32 {
    (3u32 << shift1(motor)) | (3u32 << shift2(motor))
}

/// Both modes at their places.
pub open spec fn modes(motor: Motor, m1: u32, m2: u32) -> u32 {
    (m1 << shift1(motor)) | (m2 << shift2(motor))
}

/// A duty within the range that the bridge takes.
pub open spec fn clamped(duty: i16) -> i16 {
    if duty > MAX_DUTY {
        MAX_DUTY
    } else if duty < -MAX_DUTY {
        (-MAX_DUTY) as i16
    } else {
        duty
    }
}

fn clamp(duty: i16) -> (r: i16)
    ensures
        r == clamped(duty),
        -1000 <= r <= 1000,
{
    if duty > MAX_DUTY {
        MAX_DUTY
    } else if duty < -MAX_DUTY {
        -MAX_DUTY
    } else {
        duty
    }
}

/// PWM on the first pin, the second one high.
pub open spec fn forward_acts(motor: Motor, duty: u32) -> Seq<Act> {
    seq![
        wr(TIM1, ccr1(motor), duty),
        md(GPIOE, GPIO_MODER, mode_mask(motor), modes(motor, 2, 1)),
        wr(GPIOE, GPIO_BSRR, 1u32 << pin2(motor)),
    ]
}

/// The first pin high, PWM on the second one.
pub open spec fn reverse_acts(motor: Motor, duty: u32) -> Seq<Act> {
    seq![
        wr(TIM1, ccr2(motor), duty),
        md(GPIOE, GPIO_MODER, mode_mask(motor), modes(motor, 1, 2)),
        wr(GPIOE, GPIO_BSRR, 1u32 << pin1(motor)),
    ]
}

/// Both pins high.
pub open spec fn brake_acts(motor: Motor) -> Seq<Act> {
    seq![
        md(GPIOE, GPIO_MODER, mode_mask(motor), modes(motor, 1, 1)),
        wr(GPIOE, GPIO_BSRR, (1u32 << pin1(motor)) | (1u32 << pin2(motor))),
    ]
}

/// Both pins low.
pub open spec fn coast_acts(motor: Motor) -> Seq<Act> {
    seq![
        md(GPIOE, GPIO_MODER, mode_mask(motor), modes(motor, 1, 1)),
        wr(
            GPIOE,
            GPIO_BSRR,
            (1u32 << (pin1(motor) + 16) as u32) | (1u32 << (pin2(motor) + 16) as u32),
        ),
    ]
}

/// A duty of zero brakes.
pub open spec fn motor_set_acts(motor: Motor, duty: i16) -> Seq<Act> {
    let d = clamped(duty);
    if d > 0 {
        forward_acts(motor, d as u32)
    } else if d < 0 {
        reverse_acts(motor, (-d) as u32)
    } else {
        brake_acts(motor)
    }
}

/// A duty of zero coasts.
pub open spec fn motor_drive_acts(motor: Motor, duty: i16) -> Seq<Act> {
    let d = clamped(duty);
    if d > 0 {
        forward_acts(motor, d as u32)
    } else if d < 0 {
        reverse_acts(motor, (-d) as u32)
    } else {
        coast_acts(motor)
    }
}

/// Runs a motor. `duty` ranges from -1000 (full reverse) to 1000 (full forward);
/// 0 is an electrical brake.
pub fn motor_set(motor: Motor, duty: i16) -> (p: Plan)
    ensures
        p@ == motor_set_acts(motor, duty),
{
    let d: i16 = clamp(duty);
    let (p1, p2, sh1, sh2, c1, c2) = motor.hw();
    let mut p: Plan = Plan::new();
    if d > 0 {
        reg_write(&mut p, TIM1, c1, d as u32);
        reg_modify(
            &mut p,
            GPIOE,
            GPIO_MODER,
            (3u32 << sh1) | (3u32 << sh2),
            (2u32 << sh1) | (1u32 << sh2),
        );
        reg_write(&mut p, GPIOE, GPIO_BSRR, 1u32 << p2);
    } else if d < 0 {
        reg_write(&mut p, TIM1, c2, (-d) as u32);
        reg_modify(
            &mut p,
            GPIOE,
            GPIO_MODER,
            (3u32 << sh1) | (3u32 << sh2),
            (1u32 << sh1) | (2u32 << sh2),
        );
        reg_write(&mut p, GPIOE, GPIO_BSRR, 1u32 << p1);
    } else {
        reg_modify(
            &mut p,
            GPIOE,
            GPIO_MODER,
            (3u32 << sh1) | (3u32 << sh2),
            (1u32 << sh1) | (1u32 << sh2),
        );
        reg_write(&mut p, GPIOE, GPIO_BSRR, (1u32 << p1) | (1u32 << p2));
    }
    p
}

/// Lets a motor spin freely.
pub fn motor_coast(motor: Motor) -> (p: Plan)
    ensures
        p@ == coast_acts(motor),
{
    let (p1, p2, sh1, sh2, _, _) = motor.hw();
    let mut p: Plan = Plan::new();
    reg_modify(
        &mut p,
        GPIOE,
        GPIO_MODER,
        (3u32 << sh1) | (3u32 << sh2),
        (1u32 << sh1) | (1u32 << sh2),
    );
    reg_write(&mut p, GPIOE, GPIO_BSRR, (1u32 << (p1 + 16)) | (1u32 << (p2 + 16)));
    p
}

fn motor_drive(motor: Motor, duty: i16) -> (p: Plan)
    ensures
        p@ == motor_drive_acts(motor, duty),
{
    if duty == 0 {
        motor_coast(motor)
    } else {
        motor_set(motor, duty)
    }
}

/// Runs the motor on port A; 0 lets it coast.
pub fn set_motor_a(duty: i16) -> (p: Plan)
    ensures
        p@ == motor_drive_acts(Motor::A, duty),
{
    motor_drive(Motor::A, duty)
}

/// Runs the motor on port B; 0 lets it coast.
pub fn set_motor_b(duty: i16) -> (p: Plan)
    ensures
        p@ == motor_drive_acts(Motor::B, duty),
{
    motor_drive(Motor::B, duty)
}

/// Runs both motors; 0 lets them coast.
pub fn motor_set_both(duty: i16) -> (p: Plan)
    ensures
        p@ == motor_drive_acts(Motor::A, duty) + motor_drive_acts(Motor::B, duty),
{
    let mut p: Plan = set_motor_a(duty);
    p.append(set_motor_b(duty));
    p
}

/// Both motors coasting.
pub open spec fn coast_all_acts() -> Seq<Act> {
    coast_acts(Motor::A) + coast_acts(Motor::B)
}

/// Lets both motors coast.
pub fn motor_coast_all() -> (p: Plan)
    ensures
        p@ == coast_all_acts(),
{
    let mut p: Plan = set_motor_a(0);
    p.append(set_motor_b(0));
    p
}

/// Both motors set to one duty, 0 being the brake.
pub open spec fn set_all_acts(duty: i16) -> Seq<Act> {
    motor_set_acts(Motor::A, duty) + motor_set_acts(Motor::B, duty)
}

/// Runs both motors; 0 brakes them.
pub fn motor_set_all(duty: i16) -> (p: Plan)
    ensures
        p@ == set_all_acts(duty),
{
    let mut p: Plan = motor_set(Motor::A, duty);
    p.append(motor_set(Motor::B, duty));
    p
}

// ---------------------------------------------------------------------------
// Setting up the hardware
// ---------------------------------------------------------------------------

/// Motor pins: timer function, fast, outputs, low.
pub open spec fn motor_pins_acts() -> Seq<Act> {
    seq![
        md(
            GPIOE,
            GPIO_AFRH,
            (0xFu32 << 4) | (0xFu32 << 12) | (0xFu32 << 20) | (0xFu32 << 24),
            (1u32 << 4) | (1u32 << 12) | (1u32 << 20) | (1u32 << 24),
        ),
        md(
            GPIOE,
            GPIO_OSPEEDR,
            (3u32 << 18) | (3u32 << 22) | (3u32 << 26) | (3u32 << 28),
            (3u32 << 18) | (3u32 << 22) | (3u32 << 26) | (3u32 << 28),
        ),
        md(
            GPIOE,
            GPIO_MODER,
            (3u32 << 18) | (3u32 << 22) | (3u32 << 26) | (3u32 << 28),
            (1u32 << 18) | (1u32 << 22) | (1u32 << 26) | (1u32 << 28),
        ),
        wr(GPIOE, GPIO_BSRR, (1u32 << 25) | (1u32 << 27) | (1u32 << 29) | (1u32 << 30)),
    ]
}

fn motor_pins() -> (p: Plan)
    ensures
        p@ == motor_pins_acts(),
{
    let mut p: Plan = Plan::new();
    let af_clear: u32 = (0xFu32 << 4) | (0xFu32 << 12) | (0xFu32 << 20) | (0xFu32 << 24);
    let af_set: u32 = (1u32 << 4) | (1u32 << 12) | (1u32 << 20) | (1u32 << 24);
    reg_modify(&mut p, GPIOE, GPIO_AFRH, af_clear, af_set);
    let mask: u32 = (3u32 << 18) | (3u32 << 22) | (3u32 << 26) | (3u32 << 28);
    let out: u32 = (1u32 << 18) | (1u32 << 22) | (1u32 << 26) | (1u32 << 28);
    reg_modify(&mut p, GPIOE, GPIO_OSPEEDR, mask, mask);
    reg_modify(&mut p, GPIOE, GPIO_MODER, mask, out);
    reg_write(
        &mut p,
        GPIOE,
        GPIO_BSRR,
        (1u32 << 25) | (1u32 << 27) | (1u32 << 29) | (1u32 << 30),
    );
    p
}

/// Timer 1: 12 kHz PWM on four channels of inverted polarity, all at zero.
pub open spec fn timer_setup_acts() -> Seq<Act> {
    seq![
        wr(TIM1, TIM_PSC, 7),
        wr(TIM1, TIM_ARR, 999),
        wr(TIM1, TIM_CCMR1, 0x6868),
        wr(TIM1, TIM_CCMR2, 0x6868),
        wr(TIM1, TIM_CCER, 0x3333),
        wr(TIM1, TIM_CCR1, 0),
        wr(TIM1, TIM_CCR2, 0),
        wr(TIM1, TIM_CCR3, 0),
        wr(TIM1, TIM_CCR4, 0),
        wr(TIM1, TIM_BDTR, 1u32 << 15),
        wr(TIM1, TIM_CR1, (1u32 << 7) | (1u32 << 0)),
        wr(TIM1, TIM_EGR, 1),
    ]
}

fn timer_setup() -> (p: Plan)
    ensures
        p@ == timer_setup_acts(),
{
    let mut p: Plan = Plan::new();
    reg_write(&mut p, TIM1, TIM_PSC, 7);
    reg_write(&mut p, TIM1, TIM_ARR, 999);
    reg_write(&mut p, TIM1, TIM_CCMR1, 0x6868);
    reg_write(&mut p, TIM1, TIM_CCMR2, 0x6868);
    reg_write(&mut p, TIM1, TIM_CCER, 0x3333);
    reg_write(&mut p, TIM1, TIM_CCR1, 0);
    reg_write(&mut p, TIM1, TIM_CCR2, 0);
    reg_write(&mut p, TIM1, TIM_CCR3, 0);
    reg_write(&mut p, TIM1, TIM_CCR4, 0);
    reg_write(&mut p, TIM1, TIM_BDTR, 1u32 << 15);
    reg_write(&mut p, TIM1, TIM_CR1, (1u32 << 7) | (1u32 << 0));
    reg_write(&mut p, TIM1, TIM_EGR, 1);
    p
}

/// Clocks, then port power on PA14.
pub open spec fn port_power_acts() -> Seq<Act> {
    seq![
        md(RCC, RCC_AHB1ENR, 0, (1u32 << 0) | (1u32 << 4)),
        md(RCC, RCC_APB2ENR, 0, 1u32 << 0),
        rd(RCC, RCC_APB2ENR),
        md(GPIOA, GPIO_MODER, 3u32 << 28, 1u32 << 28),
        wr(GPIOA, GPIO_BSRR, 1u32 << 14),
    ]
}

fn port_power() -> (p: Plan)
    ensures
        p@ == port_power_acts(),
{
    let mut p: Plan = Plan::new();
    reg_modify(&mut p, RCC, RCC_AHB1ENR, 0, (1u32 << 0) | (1u32 << 4));
    reg_modify(&mut p, RCC, RCC_APB2ENR, 0, 1u32 << 0);
    reg_read(&mut p, RCC, RCC_APB2ENR);
    reg_modify(&mut p, GPIOA, GPIO_MODER, 3u32 << 28, 1u32 << 28);
    reg_write(&mut p, GPIOA, GPIO_BSRR, 1u32 << 14);
    p
}

pub open spec fn motor_hw_acts() -> Seq<Act> {
    port_power_acts() + motor_pins_acts() + timer_setup_acts()
}

/// Sets the motor hardware up for an application that runs under the monitor.
pub fn init_motor_hw() -> (p: Plan)
    ensures
        p@ == motor_hw_acts(),
{
    let mut p: Plan = port_power();
    p.append(motor_pins());
    p.append(timer_setup());
    p
}

/// Power hold on PA13, port power on PA14.
pub open spec fn hub_power_acts() -> Seq<Act> {
    seq![
        md(RCC, RCC_AHB1ENR, 0, (1u32 << 0) | (1u32 << 4)),
        rd(RCC, RCC_AHB1ENR),
        rd(RCC, RCC_AHB1ENR),
        md(GPIOA, GPIO_MODER, 3u32 << 26, 1u32 << 26),
        wr(GPIOA, GPIO_BSRR, 1u32 << 13),
        md(GPIOA, GPIO_MODER, 3u32 << 28, 1u32 << 28),
        wr(GPIOA, GPIO_BSRR, 1u32 << 14),
    ]
}

fn hub_power() -> (p: Plan)
    ensures
        p@ == hub_power_acts(),
{
    let mut p: Plan = Plan::new();
    reg_modify(&mut p, RCC, RCC_AHB1ENR, 0, (1u32 << 0) | (1u32 << 4));
    reg_read(&mut p, RCC, RCC_AHB1ENR);
    reg_read(&mut p, RCC, RCC_AHB1ENR);
    reg_modify(&mut p, GPIOA, GPIO_MODER, 3u32 << 26, 1u32 << 26);
    reg_write(&mut p, GPIOA, GPIO_BSRR, 1u32 << 13);
    reg_modify(&mut p, GPIOA, GPIO_MODER, 3u32 << 28, 1u32 << 28);
    reg_write(&mut p, GPIOA, GPIO_BSRR, 1u32 << 14);
    p
}

pub open spec fn power_and_gpio_acts() -> Seq<Act> {
    hub_power_acts() + motor_pins_acts()
}

/// Holds the power and sets the motor pins up, coasting.
pub fn init_power_and_gpio() -> (p: Plan)
    ensures
        p@ == power_and_gpio_acts(),
{
    let mut p: Plan = hub_power();
    p.append(motor_pins());
    p
}

pub open spec fn init_timer_acts() -> Seq<Act> {
    seq![md(RCC, RCC_APB2ENR, 0, 1u32 << 0), rd(RCC, RCC_APB2ENR)] + timer_setup_acts()
}

/// Starts timer 1.
pub fn init_timer() -> (p: Plan)
    ensures
        p@ == init_timer_acts(),
{
    let mut p: Plan = Plan::new();
    reg_modify(&mut p, RCC, RCC_APB2ENR, 0, 1u32 << 0);
    reg_read(&mut p, RCC, RCC_APB2ENR);
    p.append(timer_setup());
    p
}

/// PA9 an input, then the input register loaded.
pub open spec fn load_vbus_acts() -> Seq<Act> {
    seq![md(GPIOA, GPIO_MODER, 3u32 << 18, 0), ld(GPIOA, GPIO_IDR)]
}

/// Looks at the supply pin of the USB port.
pub fn load_vbus() -> (p: Plan)
    ensures
        p@ == load_vbus_acts(),
{
    let mut p: Plan = Plan::new();
    reg_modify(&mut p, GPIOA, GPIO_MODER, 3u32 << 18, 0);
    reg_load(&mut p, GPIOA, GPIO_IDR);
    p
}

/// Whether the input register of port A tells of a USB cable.
pub open spec fn vbus(idr: u32) -> bool {
    idr & (1u32 << 9) != 0
}

/// Whether a USB cable is plugged in, by the input register of port A.
pub fn usb_vbus_detected(idr: u32) -> (r: bool)
    ensures
        r == vbus(idr),
{
    idr & (1u32 << 9) != 0
}

// ---------------------------------------------------------------------------
// What the bridges do
// ---------------------------------------------------------------------------

/// The mode of the pin whose bits start at `shift`: 1 is an output, 2 the timer.
pub open spec fn bridge_mode(regs: Regs, shift: u32) -> u32 {
    (regs[at(GPIOE, GPIO_MODER)] >> shift) & 3
}

/// Whether an output pin is high.
pub open spec fn bridge_high(regs: Regs, pin: u32) -> bool {
    (regs[at(GPIOE, GPIO_ODR)] >> pin) & 1 == 1
}

/// Forward: the first pin carries the timer's PWM at this duty, the second is high.
pub open spec fn is_forward(regs: Regs, motor: Motor, duty: u32) -> bool {
    &&& bridge_mode(regs, shift1(motor)) == 2
    &&& bridge_mode(regs, shift2(motor)) == 1
    &&& bridge_high(regs, pin2(motor))
    &&& regs[at(TIM1, ccr1(motor))] == duty
}

/// Reverse: the first pin is high, the second carries the PWM.
pub open spec fn is_reverse(regs: Regs, motor: Motor, duty: u32) -> bool {
    &&& bridge_mode(regs, shift1(motor)) == 1
    &&& bridge_mode(regs, shift2(motor)) == 2
    &&& bridge_high(regs, pin1(motor))
    &&& regs[at(TIM1, ccr2(motor))] == duty
}

/// Braking: both pins are high.
pub open spec fn is_braking(regs: Regs, motor: Motor) -> bool {
    &&& bridge_mode(regs, shift1(motor)) == 1
    &&& bridge_mode(regs, shift2(motor)) == 1
    &&& bridge_high(regs, pin1(motor))
    &&& bridge_high(regs, pin2(motor))
}

/// Coasting: both pins are low.
pub open spec fn is_coasting(regs: Regs, motor: Motor) -> bool {
    &&& bridge_mode(regs, shift1(motor)) == 1
    &&& bridge_mode(regs, shift2(motor)) == 1
    &&& !bridge_high(regs, pin1(motor))
    &&& !bridge_high(regs, pin2(motor))
}

/// The state that a duty asks for.
pub open spec fn driven(regs: Regs, motor: Motor, duty: i16) -> bool {
    let d = clamped(duty);
    if d > 0 {
        is_forward(regs, motor, d as u32)
    } else if d < 0 {
        is_reverse(regs, motor, (-d) as u32)
    } else {
        is_braking(regs, motor)
    }
}

/// Everything that the bridge of a port depends on.
pub open spec fn same_bridge(a: Regs, b: Regs, motor: Motor) -> bool {
    &&& bridge_mode(a, shift1(motor)) == bridge_mode(b, shift1(motor))
    &&& bridge_mode(a, shift2(motor)) == bridge_mode(b, shift2(motor))
    &&& bridge_high(a, pin1(motor)) == bridge_high(b, pin1(motor))
    &&& bridge_high(a, pin2(motor)) == bridge_high(b, pin2(motor))
    &&& a[at(TIM1, ccr1(motor))] == b[at(TIM1, ccr1(motor))]
    &&& a[at(TIM1, ccr2(motor))] == b[at(TIM1, ccr2(motor))]
}

/// The other port.
pub open spec fn other(motor: Motor) -> Motor {
    match motor {
        Motor::A => Motor::B,
        Motor::B => Motor::A,
    }
}

/// Writing both modes sets them and keeps those of the other port.
proof fn modes_written(v: u32, motor: Motor, m1: u32, m2: u32)
    requires
        m1 <= 3,
        m2 <= 3,
    ensures
        ({
            let w = masked(v, mode_mask(motor), modes(motor, m1, m2));
            let o = other(motor);
            &&& (w >> shift1(motor)) & 3 == m1
            &&& (w >> shift2(motor)) & 3 == m2
            &&& (w >> shift1(o)) & 3 == (v >> shift1(o)) & 3
            &&& (w >> shift2(o)) & 3 == (v >> shift2(o)) & 3
        }),
{
    assert(m1 <= 3 && m2 <= 3 ==> ({
        let a = (v & !((3u32 << 18u32) | (3u32 << 22u32))) | ((m1 << 18u32) | (m2 << 22u32));
        let b = (v & !((3u32 << 26u32) | (3u32 << 28u32))) | ((m1 << 26u32) | (m2 << 28u32));
        &&& (a >> 18u32) & 3 == m1
        &&& (a >> 22u32) & 3 == m2
        &&& (a >> 26u32) & 3 == (v >> 26u32) & 3
        &&& (a >> 28u32) & 3 == (v >> 28u32) & 3
        &&& (b >> 26u32) & 3 == m1
        &&& (b >> 28u32) & 3 == m2
        &&& (b >> 18u32) & 3 == (v >> 18u32) & 3
        &&& (b >> 22u32) & 3 == (v >> 22u32) & 3
    })) by (bit_vector);
}

/// Setting pins of a port sets them and keeps those of the other port.
proof fn pins_set(v: u32, motor: Motor)
    ensures
        ({
            let first = set_reset(v, 1u32 << pin1(motor));
            let second = set_reset(v, 1u32 << pin2(motor));
            let both = set_reset(v, (1u32 << pin1(motor)) | (1u32 << pin2(motor)));
            let o = other(motor);
            &&& (first >> pin1(motor)) & 1 == 1
            &&& (second >> pin2(motor)) & 1 == 1
            &&& (both >> pin1(motor)) & 1 == 1
            &&& (both >> pin2(motor)) & 1 == 1
            &&& (first >> pin1(o)) & 1 == (v >> pin1(o)) & 1
            &&& (first >> pin2(o)) & 1 == (v >> pin2(o)) & 1
            &&& (second >> pin1(o)) & 1 == (v >> pin1(o)) & 1
            &&& (second >> pin2(o)) & 1 == (v >> pin2(o)) & 1
            &&& (both >> pin1(o)) & 1 == (v >> pin1(o)) & 1
            &&& (both >> pin2(o)) & 1 == (v >> pin2(o)) & 1
        }),
{
    let p = pin1(motor);
    let q = pin2(motor);
    let r = pin1(other(motor));
    let t = pin2(other(motor));
    assert({
        let first = (v & !((1u32 << p) >> 16u32)) | ((1u32 << p) & 0xFFFF);
        let second = (v & !((1u32 << q) >> 16u32)) | ((1u32 << q) & 0xFFFF);
        let both = (v & !(((1u32 << p) | (1u32 << q)) >> 16u32)) | (((1u32 << p) | (1u32 << q))
            & 0xFFFF);
        &&& (first >> p) & 1 == 1
        &&& (second >> q) & 1 == 1
        &&& (both >> p) & 1 == 1
        &&& (both >> q) & 1 == 1
        &&& (first >> r) & 1 == (v >> r) & 1
        &&& (first >> t) & 1 == (v >> t) & 1
        &&& (second >> r) & 1 == (v >> r) & 1
        &&& (second >> t) & 1 == (v >> t) & 1
        &&& (both >> r) & 1 == (v >> r) & 1
        &&& (both >> t) & 1 == (v >> t) & 1
    }) by (bit_vector)
        requires
            p < 16 && q < 16 && r < 16 && t < 16,
            p != r && p != t && q != r && q != t,
    ;
}

/// Resetting both pins of a port clears them and keeps those of the other port.
proof fn pins_reset(v: u32, motor: Motor)
    ensures
        ({
            let w = set_reset(
                v,
                (1u32 << (pin1(motor) + 16) as u32) | (1u32 << (pin2(motor) + 16) as u32),
            );
            let o = other(motor);
            &&& (w >> pin1(motor)) & 1 == 0
            &&& (w >> pin2(motor)) & 1 == 0
            &&& (w >> pin1(o)) & 1 == (v >> pin1(o)) & 1
            &&& (w >> pin2(o)) & 1 == (v >> pin2(o)) & 1
        }),
{
    assert({
        let a = (1u32 << 25u32) | (1u32 << 27u32);
        let b = (1u32 << 29u32) | (1u32 << 30u32);
        let x = (v & !(a >> 16u32)) | (a & 0xFFFF);
        let y = (v & !(b >> 16u32)) | (b & 0xFFFF);
        &&& (x >> 9u32) & 1 == 0
        &&& (x >> 11u32) & 1 == 0
        &&& (x >> 13u32) & 1 == (v >> 13u32) & 1
        &&& (x >> 14u32) & 1 == (v >> 14u32) & 1
        &&& (y >> 13u32) & 1 == 0
        &&& (y >> 14u32) & 1 == 0
        &&& (y >> 9u32) & 1 == (v >> 9u32) & 1
        &&& (y >> 11u32) & 1 == (v >> 11u32) & 1
    }) by (bit_vector);
}

/// `motor_set` brings the bridge into the state that its duty asks for: forward,
/// reverse, or braking at zero.
pub proof fn motor_set_drives(motor: Motor, duty: i16, regs: Regs)
    ensures
        driven(run(motor_set_acts(motor, duty), regs), motor, duty),
{
    let moder = regs[at(GPIOE, GPIO_MODER)];
    let odr = regs[at(GPIOE, GPIO_ODR)];
    modes_written(moder, motor, 2, 1);
    modes_written(moder, motor, 1, 2);
    modes_written(moder, motor, 1, 1);
    pins_set(odr, motor);
    reveal_with_fuel(run_upto, 4);
}

/// Coasting leaves both pins of the bridge low.
pub proof fn motor_coast_coasts(motor: Motor, regs: Regs)
    ensures
        is_coasting(run(coast_acts(motor), regs), motor),
{
    modes_written(regs[at(GPIOE, GPIO_MODER)], motor, 1, 1);
    pins_reset(regs[at(GPIOE, GPIO_ODR)], motor);
    reveal_with_fuel(run_upto, 3);
}

/// Neither port disturbs the other.
pub proof fn ports_are_independent(motor: Motor, duty: i16, regs: Regs)
    ensures
        same_bridge(run(motor_set_acts(motor, duty), regs), regs, other(motor)),
        same_bridge(run(coast_acts(motor), regs), regs, other(motor)),
{
    let moder = regs[at(GPIOE, GPIO_MODER)];
    let odr = regs[at(GPIOE, GPIO_ODR)];
    modes_written(moder, motor, 2, 1);
    modes_written(moder, motor, 1, 2);
    modes_written(moder, motor, 1, 1);
    pins_set(odr, motor);
    pins_reset(odr, motor);
    reveal_with_fuel(run_upto, 4);
}

/// The motor test's way of running a motor drives it or, at zero, lets it coast;
/// the other port keeps what it does.
pub proof fn motor_drive_drives(motor: Motor, duty: i16, regs: Regs)
    ensures
        duty != 0 ==> driven(run(motor_drive_acts(motor, duty), regs), motor, duty),
        duty == 0 ==> is_coasting(run(motor_drive_acts(motor, duty), regs), motor),
        same_bridge(run(motor_drive_acts(motor, duty), regs), regs, other(motor)),
{
    motor_set_drives(motor, duty, regs);
    motor_coast_coasts(motor, regs);
    ports_are_independent(motor, duty, regs);
}

/// Setting both motors to a duty drives both.
pub proof fn set_all_drives_both(duty: i16, regs: Regs)
    ensures
        driven(run(set_all_acts(duty), regs), Motor::A, duty),
        driven(run(set_all_acts(duty), regs), Motor::B, duty),
{
    let mid = run(motor_set_acts(Motor::A, duty), regs);
    run_append(motor_set_acts(Motor::A, duty), motor_set_acts(Motor::B, duty), regs);
    motor_set_drives(Motor::A, duty, regs);
    motor_set_drives(Motor::B, duty, mid);
    ports_are_independent(Motor::B, duty, mid);
}

/// Coasting both motors stops both.
pub proof fn coast_all_coasts_both(regs: Regs)
    ensures
        is_coasting(run(coast_all_acts(), regs), Motor::A),
        is_coasting(run(coast_all_acts(), regs), Motor::B),
{
    let mid = run(coast_acts(Motor::A), regs);
    run_append(coast_acts(Motor::A), coast_acts(Motor::B), regs);
    motor_coast_coasts(Motor::A, regs);
    motor_coast_coasts(Motor::B, mid);
    ports_are_independent(Motor::B, 0, mid);
}

/// Setting the pins up leaves both motors coasting, whatever they did before.
pub proof fn motor_pins_start_coasting(regs: Regs)
    ensures
        is_coasting(run(motor_pins_acts(), regs), Motor::A),
        is_coasting(run(motor_pins_acts(), regs), Motor::B),
{
    reveal_with_fuel(run_upto, 5);
    let m = regs[at(GPIOE, GPIO_MODER)];
    let o = regs[at(GPIOE, GPIO_ODR)];
    assert({
        let w = (m & !((3u32 << 18u32) | (3u32 << 22u32) | (3u32 << 26u32) | (3u32 << 28u32))) | ((
        1u32 << 18u32) | (1u32 << 22u32) | (1u32 << 26u32) | (1u32 << 28u32));
        let r = (1u32 << 25u32) | (1u32 << 27u32) | (1u32 << 29u32) | (1u32 << 30u32);
        let x = (o & !(r >> 16u32)) | (r & 0xFFFF);
        &&& (w >> 18u32) & 3 == 1
        &&& (w >> 22u32) & 3 == 1
        &&& (w >> 26u32) & 3 == 1
        &&& (w >> 28u32) & 3 == 1
        &&& (x >> 9u32) & 1 == 0
        &&& (x >> 11u32) & 1 == 0
        &&& (x >> 13u32) & 1 == 0
        &&& (x >> 14u32) & 1 == 0
    }) by (bit_vector);
}

/// Whether an act leaves everything alone that a bridge depends on.
pub open spec fn spares_bridges(act: Act) -> bool {
    match act {
        Act::Write { addr, .. } => !is_bridge_register(addr),
        Act::Modify { addr, .. } => !is_bridge_register(addr),
        _ => true,
    }
}

pub open spec fn is_bridge_register(addr: u32) -> bool {
    ||| addr == at(GPIOE, GPIO_MODER)
    ||| addr == at(GPIOE, GPIO_ODR)
    ||| addr == at(GPIOE, GPIO_BSRR)
    ||| addr == at(TIM1, TIM_CCR1)
    ||| addr == at(TIM1, TIM_CCR2)
    ||| addr == at(TIM1, TIM_CCR3)
    ||| addr == at(TIM1, TIM_CCR4)
}

pub open spec fn all_spare_bridges(acts: Seq<Act>) -> bool {
    forall|i: int| 0 <= i < acts.len() ==> spares_bridges(#[trigger] acts[i])
}

proof fn spared_upto(acts: Seq<Act>, n: nat, regs: Regs)
    requires
        n <= acts.len(),
        all_spare_bridges(acts),
    ensures
        same_bridge(run_upto(acts, n, regs), regs, Motor::A),
        same_bridge(run_upto(acts, n, regs), regs, Motor::B),
    decreases n,
{
    if n > 0 {
        spared_upto(acts, (n - 1) as nat, regs);
        assert(spares_bridges(acts[n - 1]));
    }
}

/// A plan that spares the bridges leaves both motors as they are.
pub proof fn spared_run(acts: Seq<Act>, regs: Regs)
    requires
        all_spare_bridges(acts),
    ensures
        same_bridge(run(acts, regs), regs, Motor::A),
        same_bridge(run(acts, regs), regs, Motor::B),
{
    spared_upto(acts, acts.len(), regs);
}

proof fn timer_keeps_pins(regs: Regs)
    ensures
        ({
            let after = run(timer_setup_acts(), regs);
            &&& after[at(GPIOE, GPIO_MODER)] == regs[at(GPIOE, GPIO_MODER)]
            &&& after[at(GPIOE, GPIO_ODR)] == regs[at(GPIOE, GPIO_ODR)]
        }),
{
    reveal_with_fuel(run_upto, 13);
}

/// Setting the motors up leaves both coasting.
pub proof fn motors_start_coasting(regs: Regs)
    ensures
        is_coasting(run(motor_hw_acts(), regs), Motor::A),
        is_coasting(run(motor_hw_acts(), regs), Motor::B),
{
    broadcast use group_run;

    let powered = run(port_power_acts(), regs);
    motor_pins_start_coasting(powered);
    timer_keeps_pins(run(motor_pins_acts(), powered));
}

/// The timer runs its PWM at 12 kHz from the 96 MHz clock.
pub proof fn pwm_rate(regs: Regs)
    ensures
        ({
            let after = run(timer_setup_acts(), regs);
            96_000_000int / ((after[at(TIM1, TIM_PSC)] + 1) * (after[at(TIM1, TIM_ARR)] + 1))
                == 12_000
        }),
{
    reveal_with_fuel(run_upto, 13);
    let after = run(timer_setup_acts(), regs);
    let psc = after[at(TIM1, TIM_PSC)] as int;
    let arr = after[at(TIM1, TIM_ARR)] as int;
    assert(96_000_000int / ((psc + 1) * (arr + 1)) == 12_000) by (nonlinear_arith)
        requires
            psc == 7,
            arr == 999,
    ;
}

/// What a duty makes of a port, in its own pins and compare registers: a positive duty up
/// to 1000 runs it forward at exactly that duty, a negative one down to -1000 in reverse at
/// its size, more is as good as 1000 in either direction, and zero brakes. Port A has pins 9
/// and 11 of port E and the compare registers at 0x40010034 and 0x40010038, port B has pins
/// 13 and 14 and those at 0x4001003C and 0x40010040.
pub proof fn duty_is_what_the_bridge_gets(motor: Motor, duty: i16, regs: Regs)
    ensures
        ({
            let after = run(motor_set_acts(motor, duty), regs);
            let moder = after[0x4002_1000u32];
            let odr = after[0x4002_1014u32];
            let size = if duty >= 1000 || duty <= -1000 {
                1000int
            } else if duty < 0 {
                -duty
            } else {
                duty as int
            };
            let (mode1, mode2, high1, high2, first, second) = match motor {
                Motor::A => (
                    (moder >> 18u32) & 3,
                    (moder >> 22u32) & 3,
                    (odr >> 9u32) & 1,
                    (odr >> 11u32) & 1,
                    after[0x4001_0034u32],
                    after[0x4001_0038u32],
                ),
                Motor::B => (
                    (moder >> 26u32) & 3,
                    (moder >> 28u32) & 3,
                    (odr >> 13u32) & 1,
                    (odr >> 14u32) & 1,
                    after[0x4001_003Cu32],
                    after[0x4001_0040u32],
                ),
            };
            &&& duty > 0 ==> mode1 == 2 && mode2 == 1 && high2 == 1 && first == size
            &&& duty < 0 ==> mode1 == 1 && mode2 == 2 && high1 == 1 && second == size
            &&& duty == 0 ==> mode1 == 1 && mode2 == 1 && high1 == 1 && high2 == 1
        }),
{
    motor_set_drives(motor, duty, regs);
}

/// A port that coasts has both its pins low as outputs: pins 9 and 11 of port E for port
/// A, 13 and 14 for port B. So does one that is driven at zero.
pub proof fn coasting_pins_are_low(motor: Motor, regs: Regs)
    ensures
        motor_drive_acts(motor, 0) == coast_acts(motor),
        ({
            let after = run(coast_acts(motor), regs);
            let moder = after[0x4002_1000u32];
            let odr = after[0x4002_1014u32];
            match motor {
                Motor::A => {
                    &&& (moder >> 18u32) & 3 == 1 && (moder >> 22u32) & 3 == 1
                    &&& (odr >> 9u32) & 1 == 0 && (odr >> 11u32) & 1 == 0
                },
                Motor::B => {
                    &&& (moder >> 26u32) & 3 == 1 && (moder >> 28u32) & 3 == 1
                    &&& (odr >> 13u32) & 1 == 0 && (odr >> 14u32) & 1 == 0
                },
            }
        }),
{
    motor_coast_coasts(motor, regs);
    let odr = run(coast_acts(motor), regs)[0x4002_1014u32];
    assert((odr >> 9u32) & 1 <= 1 && (odr >> 11u32) & 1 <= 1 && (odr >> 13u32) & 1 <= 1 && (odr
        >> 14u32) & 1 <= 1) by (bit_vector);
}

/// Driving a port at any duty but zero is setting it to that duty.
pub proof fn driving_is_setting(motor: Motor, duty: i16)
    requires
        duty != 0,
    ensures
        motor_drive_acts(motor, duty) == motor_set_acts(motor, duty),
{
}

/// A USB cable is told by bit 9 of the input register, whatever the other pins say.
pub proof fn cable_by_bit(idr: u32)
    ensures
        vbus(idr) <==> idr / 0x200 % 2 == 1,
{
    fields_by_division(idr);
    bit_values();
}

} // verus!
