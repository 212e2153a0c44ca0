//! The `motors` command: how the motor pins and their timers are configured. Ports
//! A and B are reported here, the others in `ports`.
//!
//! The report looks at registers as it goes: each part but the last ends in loads
//! of what the next part decodes.
use crate::hex::hex32;
use crate::plan::{
    at, ld, looking_is_harmless, looks, reg_load, run, say, text, Act, Form, Op, Plan, Regs,
};
use crate::regs::{
    GPIOB, GPIOE, GPIO_AFRH, GPIO_AFRL, GPIO_MODER, TIM1, TIM_ARR, TIM_BDTR, TIM_CCER, TIM_CCMR1,
    TIM_CCMR2, TIM_CCR1, TIM_CCR2, TIM_CCR3, TIM_CCR4, TIM_CR1, TIM_PSC,
};
use crate::trace::{bit_values, fields_by_division};
use vstd::prelude::*;
use vstd::string::*;

verus! {

/// The mode of a pin: the two bits that the mode register keeps for it.
pub open spec fn pin_mode(moder: u32, pin: u32) -> u32 {
    (moder >> ((pin * 2) as u32)) & 3
}

/// Name of a pin mode.
pub open spec fn mode_name(mode: u32) -> Seq<u8> {
    if mode == 0 {
        text("In ")
    } else if mode == 1 {
        text("Out")
    } else if mode == 2 {
        text("AF ")
    } else {
        text("Ana")
    }
}

/// Name of a pin mode.
fn mode_str(mode: u32) -> (s: &'static str)
    ensures
        text(s) == mode_name(mode),
{
    if mode == 0 {
        "In "
    } else if mode == 1 {
        "Out"
    } else if mode == 2 {
        "AF "
    } else {
        "Ana"
    }
}

/// Part one: the heading.
pub open spec fn motors_heading_acts() -> Seq<Act> {
    seq![
        say("=== Motor Diagnostics ===\r\n"),
        say("A: PE9/PE11 (TIM1 CH1/CH2)\r\n"),
        say("B: PE13/PE14 (TIM1 CH3/CH4)\r\n"),
        say("C: PB6/PB7 (TIM4 CH1/CH2)\r\n"),
        say("D: PB8/PB9 (TIM4 CH3/CH4)\r\n"),
        say("E: PC6/PC7 (TIM3 CH1/CH2)\r\n"),
        say("F: PC8/PB1 (TIM3 CH3/CH4)\r\n\r\n"),
        ld(GPIOE, GPIO_MODER),
    ]
}

/// Starts the report.
pub fn cmd_motors() -> (p: Plan)
    ensures
        p@ == motors_heading_acts(),
{
    let mut p: Plan = Plan::new();
    p.say("=== Motor Diagnostics ===\r\n");
    p.say("A: PE9/PE11 (TIM1 CH1/CH2)\r\n");
    p.say("B: PE13/PE14 (TIM1 CH3/CH4)\r\n");
    p.say("C: PB6/PB7 (TIM4 CH1/CH2)\r\n");
    p.say("D: PB8/PB9 (TIM4 CH3/CH4)\r\n");
    p.say("E: PC6/PC7 (TIM3 CH1/CH2)\r\n");
    p.say("F: PC8/PB1 (TIM3 CH3/CH4)\r\n\r\n");
    reg_load(&mut p, GPIOE, GPIO_MODER);
    p
}

/// The mode of one pin.
pub open spec fn pin_mode_acts(name: &str, moder: u32, pin: u32) -> Seq<Act> {
    seq![say("  "), say(name), say("="), Act::Send(mode_name(pin_mode(moder, pin))), say("\r\n")]
}

pub(crate) fn pin_mode_line(p: &mut Plan, name: &str, moder: u32, pin: u32)
    requires
        pin < 16,
    ensures
        final(p)@ == old(p)@ + pin_mode_acts(name, moder, pin),
{
    let ghost before = p@;
    p.say("  ");
    p.say(name);
    p.say("=");
    p.say(mode_str((moder >> (pin * 2)) & 3));
    p.say("\r\n");
    assert(p@ =~= before + pin_mode_acts(name, moder, pin));
}

/// Part two: the mode register and the modes of the four motor pins.
pub open spec fn motors_modes_acts(moder: u32) -> Seq<Act> {
    seq![say("GPIOE_MODER=0x"), Act::Send(hex32(moder)), say("\r\n")] + pin_mode_acts(
        "PE9 ",
        moder,
        9,
    ) + pin_mode_acts("PE11", moder, 11) + pin_mode_acts("PE13", moder, 13) + pin_mode_acts(
        "PE14",
        moder,
        14,
    ) + seq![ld(GPIOE, GPIO_AFRH)]
}

/// Reports the pin modes.
pub fn motors_modes(moder: u32) -> (p: Plan)
    ensures
        p@ == motors_modes_acts(moder),
{
    let mut p: Plan = Plan::new();
    p.say("GPIOE_MODER=0x");
    p.say_hex32(moder);
    p.say("\r\n");
    assert(p@ =~= seq![say("GPIOE_MODER=0x"), Act::Send(hex32(moder)), say("\r\n")]);
    pin_mode_line(&mut p, "PE9 ", moder, 9);
    pin_mode_line(&mut p, "PE11", moder, 11);
    pin_mode_line(&mut p, "PE13", moder, 13);
    pin_mode_line(&mut p, "PE14", moder, 14);
    let ghost before = p@;
    reg_load(&mut p, GPIOE, GPIO_AFRH);
    assert(p@ =~= before + seq![ld(GPIOE, GPIO_AFRH)]);
    p
}

/// The alternate function in the four bits at `shift`.
pub open spec fn pin_function(afrh: u32, shift: u32) -> u8 {
    ((afrh >> shift) & 0xF) as u8
}

/// The alternate function of one pin, as a single character from `0` on.
pub open spec fn pin_function_acts(name: &str, afrh: u32, shift: u32) -> Seq<Act> {
    seq![
        say("  "),
        say(name),
        say("=AF"),
        Act::Send(seq![(48 + pin_function(afrh, shift)) as u8]),
        say("\r\n"),
    ]
}

pub(crate) fn pin_function_line(p: &mut Plan, name: &str, afrh: u32, shift: u32)
    requires
        shift < 32,
    ensures
        final(p)@ == old(p)@ + pin_function_acts(name, afrh, shift),
{
    let ghost before = p@;
    p.say("  ");
    p.say(name);
    p.say("=AF");
    let field: u32 = afrh >> shift;
    assert(field & 0xF < 16) by (bit_vector);
    p.say_byte(48 + (field & 0xF) as u8);
    p.say("\r\n");
    assert(p@ =~= before + pin_function_acts(name, afrh, shift));
}

/// One timer register, read as it is printed.
pub open spec fn timer_acts(timer: u32, name: &str, off: u32) -> Seq<Act> {
    seq![
        say("  "),
        say(name),
        say("=0x"),
        Act::Show { addr: at(timer, off), form: Form::Word },
        say("\r\n"),
    ]
}

pub(crate) fn timer_line(p: &mut Plan, timer: u32, name: &str, off: u32)
    requires
        off < 0x100,
        timer < 0x5000_0000,
    ensures
        final(p)@ == old(p)@ + timer_acts(timer, name, off),
{
    let ghost before = p@;
    p.say("  ");
    p.say(name);
    p.say("=0x");
    p.push(Op::Show { addr: timer + off, form: Form::Word });
    p.say("\r\n");
    assert(p@ =~= before + timer_acts(timer, name, off));
}

/// The duties of both ports.
pub open spec fn duty_acts() -> Seq<Act> {
    seq![
        say("  CCR1="),
        Act::Show { addr: at(TIM1, TIM_CCR1), form: Form::Word },
        say(" CCR2="),
        Act::Show { addr: at(TIM1, TIM_CCR2), form: Form::Word },
        say("  (Port A)\r\n"),
        say("  CCR3="),
        Act::Show { addr: at(TIM1, TIM_CCR3), form: Form::Word },
        say(" CCR4="),
        Act::Show { addr: at(TIM1, TIM_CCR4), form: Form::Word },
        say("  (Port B)\r\n"),
        ld(TIM1, TIM_CR1),
        ld(TIM1, TIM_BDTR),
        ld(TIM1, TIM_CCER),
    ]
}

fn duty_lines(p: &mut Plan)
    ensures
        final(p)@ == old(p)@ + duty_acts(),
{
    let ghost before = p@;
    p.say("  CCR1=");
    p.push(Op::Show { addr: TIM1 + TIM_CCR1, form: Form::Word });
    p.say(" CCR2=");
    p.push(Op::Show { addr: TIM1 + TIM_CCR2, form: Form::Word });
    p.say("  (Port A)\r\n");
    p.say("  CCR3=");
    p.push(Op::Show { addr: TIM1 + TIM_CCR3, form: Form::Word });
    p.say(" CCR4=");
    p.push(Op::Show { addr: TIM1 + TIM_CCR4, form: Form::Word });
    p.say("  (Port B)\r\n");
    reg_load(p, TIM1, TIM_CR1);
    reg_load(p, TIM1, TIM_BDTR);
    reg_load(p, TIM1, TIM_CCER);
    assert(p@ =~= before + duty_acts());
}

/// The alternate functions of the four motor pins.
pub open spec fn pin_functions_acts(afrh: u32) -> Seq<Act> {
    seq![say("GPIOE_AFRH =0x"), Act::Send(hex32(afrh)), say("\r\n")] + pin_function_acts(
        "PE9 ",
        afrh,
        4,
    ) + pin_function_acts("PE11", afrh, 12) + pin_function_acts("PE13", afrh, 20)
        + pin_function_acts("PE14", afrh, 24)
}

fn pin_function_lines(afrh: u32) -> (p: Plan)
    ensures
        p@ == pin_functions_acts(afrh),
{
    let mut p: Plan = Plan::new();
    p.say("GPIOE_AFRH =0x");
    p.say_hex32(afrh);
    p.say("\r\n");
    assert(p@ =~= seq![say("GPIOE_AFRH =0x"), Act::Send(hex32(afrh)), say("\r\n")]);
    pin_function_line(&mut p, "PE9 ", afrh, 4);
    pin_function_line(&mut p, "PE11", afrh, 12);
    pin_function_line(&mut p, "PE13", afrh, 20);
    pin_function_line(&mut p, "PE14", afrh, 24);
    p
}

/// The registers of the motor timer.
pub open spec fn timers_acts() -> Seq<Act> {
    seq![say("\r\nTIM1:\r\n")] + timer_acts(TIM1, "CR1  ", TIM_CR1) + timer_acts(
        TIM1,
        "BDTR ",
        TIM_BDTR,
    ) + timer_acts(TIM1, "CCER ", TIM_CCER) + timer_acts(TIM1, "CCMR1", TIM_CCMR1) + timer_acts(
        TIM1,
        "CCMR2",
        TIM_CCMR2,
    ) + timer_acts(TIM1, "ARR  ", TIM_ARR) + timer_acts(TIM1, "PSC  ", TIM_PSC)
}

fn timer_lines() -> (p: Plan)
    ensures
        p@ == timers_acts(),
{
    let mut p: Plan = Plan::new();
    p.say("\r\nTIM1:\r\n");
    assert(p@ =~= seq![say("\r\nTIM1:\r\n")]);
    timer_line(&mut p, TIM1, "CR1  ", TIM_CR1);
    timer_line(&mut p, TIM1, "BDTR ", TIM_BDTR);
    timer_line(&mut p, TIM1, "CCER ", TIM_CCER);
    timer_line(&mut p, TIM1, "CCMR1", TIM_CCMR1);
    timer_line(&mut p, TIM1, "CCMR2", TIM_CCMR2);
    timer_line(&mut p, TIM1, "ARR  ", TIM_ARR);
    timer_line(&mut p, TIM1, "PSC  ", TIM_PSC);
    p
}

/// Part three: the alternate functions, the timer registers and the duties.
pub open spec fn motors_functions_acts(afrh: u32) -> Seq<Act> {
    pin_functions_acts(afrh) + timers_acts() + duty_acts()
}

/// Reports alternate functions, timer registers and duties.
pub fn motors_functions(afrh: u32) -> (p: Plan)
    ensures
        p@ == motors_functions_acts(afrh),
{
    let mut p: Plan = pin_function_lines(afrh);
    p.append(timer_lines());
    duty_lines(&mut p);
    p
}

/// A bit as a character.
pub open spec fn flag(reg: u32, mask: u32) -> Act {
    Act::Send(
        seq![
            if reg & mask != 0 {
                49u8
            } else {
                48u8
            },
        ],
    )
}

pub(crate) fn say_flag(p: &mut Plan, reg: u32, mask: u32)
    ensures
        final(p)@ == old(p)@.push(flag(reg, mask)),
{
    if reg & mask != 0 {
        p.say_byte(49);
    } else {
        p.say_byte(48);
    }
}

/// Part four: counter, main output and channel enables, and a look at GPIOB.
pub open spec fn motors_flags_acts(cr1: u32, bdtr: u32, ccer: u32) -> Seq<Act> {
    seq![
        say("\r\n  CEN="),
        flag(cr1, 1),
        say(" MOE="),
        flag(bdtr, 1u32 << 15),
        say(" CH1="),
        flag(ccer, 1),
        say(" CH2="),
        flag(ccer, 1u32 << 4),
        say(" CH3="),
        flag(ccer, 1u32 << 8),
        say(" CH4="),
        flag(ccer, 1u32 << 12),
        say("\r\n"),
        ld(GPIOB, GPIO_MODER),
        ld(GPIOB, GPIO_AFRL),
        ld(GPIOB, GPIO_AFRH),
    ]
}

/// Reports the enable flags.
pub fn motors_flags(cr1: u32, bdtr: u32, ccer: u32) -> (p: Plan)
    ensures
        p@ == motors_flags_acts(cr1, bdtr, ccer),
{
    let mut p: Plan = Plan::new();
    p.say("\r\n  CEN=");
    say_flag(&mut p, cr1, 1);
    p.say(" MOE=");
    say_flag(&mut p, bdtr, 1u32 << 15);
    p.say(" CH1=");
    say_flag(&mut p, ccer, 1);
    p.say(" CH2=");
    say_flag(&mut p, ccer, 1u32 << 4);
    p.say(" CH3=");
    say_flag(&mut p, ccer, 1u32 << 8);
    p.say(" CH4=");
    say_flag(&mut p, ccer, 1u32 << 12);
    p.say("\r\n");
    reg_load(&mut p, GPIOB, GPIO_MODER);
    reg_load(&mut p, GPIOB, GPIO_AFRL);
    reg_load(&mut p, GPIOB, GPIO_AFRH);
    p
}

/// Two plans that only look, one after the other, only look.
pub broadcast proof fn looks_append(a: Seq<Act>, b: Seq<Act>)
    requires
        looks(a),
        looks(b),
    ensures
        #[trigger] looks(a + b),
{
}

proof fn modes_look(moder: u32)
    ensures
        looks(motors_modes_acts(moder)),
{
    broadcast use looks_append;

    assert(looks(seq![say("GPIOE_MODER=0x"), Act::Send(hex32(moder)), say("\r\n")]));
    assert(looks(pin_mode_acts("PE9 ", moder, 9)));
    assert(looks(pin_mode_acts("PE11", moder, 11)));
    assert(looks(pin_mode_acts("PE13", moder, 13)));
    assert(looks(pin_mode_acts("PE14", moder, 14)));
    assert(looks(seq![ld(GPIOE, GPIO_AFRH)]));
}

proof fn functions_look(afrh: u32)
    ensures
        looks(pin_functions_acts(afrh)),
{
    broadcast use looks_append;

    assert(looks(seq![say("GPIOE_AFRH =0x"), Act::Send(hex32(afrh)), say("\r\n")]));
    assert(looks(pin_function_acts("PE9 ", afrh, 4)));
    assert(looks(pin_function_acts("PE11", afrh, 12)));
    assert(looks(pin_function_acts("PE13", afrh, 20)));
    assert(looks(pin_function_acts("PE14", afrh, 24)));
}

proof fn timers_look()
    ensures
        looks(timers_acts()),
{
    broadcast use looks_append;

    assert(looks(seq![say("\r\nTIM1:\r\n")]));
    assert(looks(timer_acts(TIM1, "CR1  ", TIM_CR1)));
    assert(looks(timer_acts(TIM1, "BDTR ", TIM_BDTR)));
    assert(looks(timer_acts(TIM1, "CCER ", TIM_CCER)));
    assert(looks(timer_acts(TIM1, "CCMR1", TIM_CCMR1)));
    assert(looks(timer_acts(TIM1, "CCMR2", TIM_CCMR2)));
    assert(looks(timer_acts(TIM1, "ARR  ", TIM_ARR)));
    assert(looks(timer_acts(TIM1, "PSC  ", TIM_PSC)));
}

proof fn duties_look()
    ensures
        looks(duty_acts()),
{
}

proof fn heading_changes_nothing(regs: Regs)
    ensures
        run(motors_heading_acts(), regs) == regs,
{
    assert(looks(motors_heading_acts()));
    looking_is_harmless(motors_heading_acts(), regs);
}

proof fn modes_change_nothing(moder: u32, regs: Regs)
    ensures
        run(motors_modes_acts(moder), regs) == regs,
{
    modes_look(moder);
    looking_is_harmless(motors_modes_acts(moder), regs);
}

proof fn functions_change_nothing(afrh: u32, regs: Regs)
    ensures
        run(motors_functions_acts(afrh), regs) == regs,
{
    functions_look(afrh);
    timers_look();
    duties_look();
    looks_append(pin_functions_acts(afrh), timers_acts());
    looks_append(pin_functions_acts(afrh) + timers_acts(), duty_acts());
    looking_is_harmless(motors_functions_acts(afrh), regs);
}

proof fn flags_change_nothing(cr1: u32, bdtr: u32, ccer: u32, regs: Regs)
    ensures
        run(motors_flags_acts(cr1, bdtr, ccer), regs) == regs,
{
    assert(looks(motors_flags_acts(cr1, bdtr, ccer)));
    looking_is_harmless(motors_flags_acts(cr1, bdtr, ccer), regs);
}

/// The first half of the report only looks: none of its stages changes a register.
pub proof fn report_changes_nothing(moder: u32, afrh: u32, flags: (u32, u32, u32), regs: Regs)
    ensures
        run(motors_heading_acts(), regs) == regs,
        run(motors_modes_acts(moder), regs) == regs,
        run(motors_functions_acts(afrh), regs) == regs,
        run(motors_flags_acts(flags.0, flags.1, flags.2), regs) == regs,
{
    heading_changes_nothing(regs);
    modes_change_nothing(moder, regs);
    functions_change_nothing(afrh, regs);
    flags_change_nothing(flags.0, flags.1, flags.2, regs);
}

// ---------------------------------------------------------------------------
// What the report says of the registers
// ---------------------------------------------------------------------------

/// A line about a pin.
pub open spec fn pin_line(name: &str, sign: &str, value: Seq<u8>) -> Seq<Act> {
    seq![say("  "), say(name), say(sign), Act::Send(value), say("\r\n")]
}

/// What two bits of a mode register are called.
pub open spec fn mode_called(bits: u32) -> Seq<u8> {
    match bits {
        0 => text("In "),
        1 => text("Out"),
        2 => text("AF "),
        _ => text("Ana"),
    }
}

/// A function by its number: the character that many places after `0`.
pub open spec fn function_called(number: u32) -> Seq<u8> {
    seq![(48 + number) as u8]
}

/// A bit as it is printed.
pub open spec fn bit_called(bit: u32) -> Act {
    Act::Send(
        seq![
            if bit == 1 {
                49u8
            } else {
                48u8
            },
        ],
    )
}

/// Lines about a timer's register at an address.
pub open spec fn word_at(name: &str, addr: u32) -> Seq<Act> {
    seq![say("  "), say(name), say("=0x"), Act::Show { addr, form: Form::Word }, say("\r\n")]
}

/// The modes of the pins of ports A and B: pin `n` has the two bits from bit `2n` on, of the
/// register at 0x40021000.
pub proof fn modes_by_pin(moder: u32)
    ensures
        motors_modes_acts(moder) == seq![
            say("GPIOE_MODER=0x"),
            Act::Send(hex32(moder)),
            say("\r\n"),
        ] + pin_line("PE9 ", "=", mode_called(moder / 0x0004_0000 % 4)) + pin_line(
            "PE11",
            "=",
            mode_called(moder / 0x0040_0000 % 4),
        ) + pin_line("PE13", "=", mode_called(moder / 0x0400_0000 % 4)) + pin_line(
            "PE14",
            "=",
            mode_called(moder / 0x1000_0000 % 4),
        ) + seq![Act::Load { addr: 0x4002_1024 }],
{
    fields_by_division(moder);
}

proof fn functions_by_pin(afrh: u32)
    ensures
        pin_functions_acts(afrh) == seq![
            say("GPIOE_AFRH =0x"),
            Act::Send(hex32(afrh)),
            say("\r\n"),
        ] + pin_line("PE9 ", "=AF", function_called(afrh / 0x10 % 16)) + pin_line(
            "PE11",
            "=AF",
            function_called(afrh / 0x1000 % 16),
        ) + pin_line("PE13", "=AF", function_called(afrh / 0x0010_0000 % 16)) + pin_line(
            "PE14",
            "=AF",
            function_called(afrh / 0x0100_0000 % 16),
        ),
{
    fields_by_division(afrh);
}

proof fn timer1_by_address()
    ensures
        timers_acts() == seq![say("\r\nTIM1:\r\n")] + word_at("CR1  ", 0x4001_0000) + word_at(
            "BDTR ",
            0x4001_0044,
        ) + word_at("CCER ", 0x4001_0020) + word_at("CCMR1", 0x4001_0018) + word_at(
            "CCMR2",
            0x4001_001C,
        ) + word_at("ARR  ", 0x4001_002C) + word_at("PSC  ", 0x4001_0028),
{
}

/// The functions of the pins of ports A and B: four bits each, pin 9 from bit 4 on. Then the
/// registers of timer 1 by their addresses, and its duties.
pub proof fn functions_and_timer(afrh: u32)
    ensures
        motors_functions_acts(afrh) == (seq![
            say("GPIOE_AFRH =0x"),
            Act::Send(hex32(afrh)),
            say("\r\n"),
        ] + pin_line("PE9 ", "=AF", function_called(afrh / 0x10 % 16)) + pin_line(
            "PE11",
            "=AF",
            function_called(afrh / 0x1000 % 16),
        ) + pin_line("PE13", "=AF", function_called(afrh / 0x0010_0000 % 16)) + pin_line(
            "PE14",
            "=AF",
            function_called(afrh / 0x0100_0000 % 16),
        )) + (seq![say("\r\nTIM1:\r\n")] + word_at("CR1  ", 0x4001_0000) + word_at(
            "BDTR ",
            0x4001_0044,
        ) + word_at("CCER ", 0x4001_0020) + word_at("CCMR1", 0x4001_0018) + word_at(
            "CCMR2",
            0x4001_001C,
        ) + word_at("ARR  ", 0x4001_002C) + word_at("PSC  ", 0x4001_0028)) + duty_acts(),
{
    functions_by_pin(afrh);
    timer1_by_address();
}

/// The enables of timer 1 by their bits, and a look at port B.
pub proof fn enables_by_bit(cr1: u32, bdtr: u32, ccer: u32)
    ensures
        motors_flags_acts(cr1, bdtr, ccer) == seq![
            say("\r\n  CEN="),
            bit_called(cr1 % 2),
            say(" MOE="),
            bit_called(bdtr / 0x8000 % 2),
            say(" CH1="),
            bit_called(ccer % 2),
            say(" CH2="),
            bit_called(ccer / 0x10 % 2),
            say(" CH3="),
            bit_called(ccer / 0x100 % 2),
            say(" CH4="),
            bit_called(ccer / 0x1000 % 2),
            say("\r\n"),
            Act::Load { addr: 0x4002_0400 },
            Act::Load { addr: 0x4002_0420 },
            Act::Load { addr: 0x4002_0424 },
        ],
{
    fields_by_division(cr1);
    fields_by_division(bdtr);
    fields_by_division(ccer);
    bit_values();
}

} // verus!
