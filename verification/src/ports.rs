//! The second half of the `motors` report: ports C to F, on GPIOB and GPIOC, driven
//! by timers 4 and 3.
use crate::hex::hex32;
use crate::plan::{
    at, ld, looking_is_harmless, looks, reg_load, run, say, Act, Form, Op, Plan, Regs,
};
use crate::regs::{
    GPIOC, GPIO_AFRH, GPIO_AFRL, GPIO_MODER, TIM3, TIM4, TIM_ARR, TIM_CCER, TIM_CCMR1, TIM_CCMR2,
    TIM_CCR1, TIM_CCR2, TIM_CCR3, TIM_CCR4, TIM_CR1, TIM_PSC,
};
use crate::report::{
    bit_called, flag, function_called, looks_append, mode_called, pin_function_acts,
    pin_function_line, pin_line, pin_mode_acts, pin_mode_line, say_flag, timer_acts, timer_line,
    word_at,
};
use crate::trace::{bit_values, fields_by_division};
use vstd::prelude::*;

verus! {

/// A register that was loaded, with its name.
pub open spec fn word_acts(name: &str, v: u32) -> Seq<Act> {
    seq![say(name), Act::Send(hex32(v)), say("\r\n")]
}

fn word_line(p: &mut Plan, name: &str, v: u32)
    ensures
        final(p)@ == old(p)@ + word_acts(name, v),
{
    let ghost before = p@;
    p.say(name);
    p.say_hex32(v);
    p.say("\r\n");
    assert(p@ =~= before + word_acts(name, v));
}

/// Part five: the pins on GPIOB, of ports C and D and the second one of port F, and
/// a look at GPIOC.
pub open spec fn bank_b_acts(moder: u32, afrl: u32, afrh: u32) -> Seq<Act> {
    word_acts("\r\nGPIOB_MODER=0x", moder) + pin_mode_acts("PB6 ", moder, 6) + pin_mode_acts(
        "PB7 ",
        moder,
        7,
    ) + pin_mode_acts("PB8 ", moder, 8) + pin_mode_acts("PB9 ", moder, 9) + pin_mode_acts(
        "PB1 ",
        moder,
        1,
    ) + word_acts("GPIOB_AFRL =0x", afrl) + word_acts("GPIOB_AFRH =0x", afrh) + pin_function_acts(
        "PB6 ",
        afrl,
        24,
    ) + pin_function_acts("PB7 ", afrl, 28) + pin_function_acts("PB8 ", afrh, 0)
        + pin_function_acts("PB9 ", afrh, 4) + pin_function_acts("PB1 ", afrl, 4) + seq![
        ld(GPIOC, GPIO_MODER),
        ld(GPIOC, GPIO_AFRL),
        ld(GPIOC, GPIO_AFRH),
    ]
}

/// Reports the motor pins on GPIOB.
pub fn motors_bank_b(moder: u32, afrl: u32, afrh: u32) -> (p: Plan)
    ensures
        p@ == bank_b_acts(moder, afrl, afrh),
{
    let mut p: Plan = Plan::new();
    word_line(&mut p, "\r\nGPIOB_MODER=0x", moder);
    assert(p@ =~= word_acts("\r\nGPIOB_MODER=0x", moder));
    pin_mode_line(&mut p, "PB6 ", moder, 6);
    pin_mode_line(&mut p, "PB7 ", moder, 7);
    pin_mode_line(&mut p, "PB8 ", moder, 8);
    pin_mode_line(&mut p, "PB9 ", moder, 9);
    pin_mode_line(&mut p, "PB1 ", moder, 1);
    word_line(&mut p, "GPIOB_AFRL =0x", afrl);
    word_line(&mut p, "GPIOB_AFRH =0x", afrh);
    pin_function_line(&mut p, "PB6 ", afrl, 24);
    pin_function_line(&mut p, "PB7 ", afrl, 28);
    pin_function_line(&mut p, "PB8 ", afrh, 0);
    pin_function_line(&mut p, "PB9 ", afrh, 4);
    pin_function_line(&mut p, "PB1 ", afrl, 4);
    let ghost before = p@;
    reg_load(&mut p, GPIOC, GPIO_MODER);
    reg_load(&mut p, GPIOC, GPIO_AFRL);
    reg_load(&mut p, GPIOC, GPIO_AFRH);
    assert(p@ =~= before + seq![
        ld(GPIOC, GPIO_MODER),
        ld(GPIOC, GPIO_AFRL),
        ld(GPIOC, GPIO_AFRH),
    ]);
    p
}

/// Part six: the pins on GPIOC, of port E and the first one of port F, and a look at
/// timer 4.
pub open spec fn bank_c_acts(moder: u32, afrl: u32, afrh: u32) -> Seq<Act> {
    word_acts("GPIOC_MODER=0x", moder) + pin_mode_acts("PC6 ", moder, 6) + pin_mode_acts(
        "PC7 ",
        moder,
        7,
    ) + pin_mode_acts("PC8 ", moder, 8) + word_acts("GPIOC_AFRL =0x", afrl) + word_acts(
        "GPIOC_AFRH =0x",
        afrh,
    ) + pin_function_acts("PC6 ", afrl, 24) + pin_function_acts("PC7 ", afrl, 28)
        + pin_function_acts("PC8 ", afrh, 0) + seq![ld(TIM4, TIM_CR1), ld(TIM4, TIM_CCER)]
}

/// Reports the motor pins on GPIOC.
pub fn motors_bank_c(moder: u32, afrl: u32, afrh: u32) -> (p: Plan)
    ensures
        p@ == bank_c_acts(moder, afrl, afrh),
{
    let mut p: Plan = Plan::new();
    word_line(&mut p, "GPIOC_MODER=0x", moder);
    assert(p@ =~= word_acts("GPIOC_MODER=0x", moder));
    pin_mode_line(&mut p, "PC6 ", moder, 6);
    pin_mode_line(&mut p, "PC7 ", moder, 7);
    pin_mode_line(&mut p, "PC8 ", moder, 8);
    word_line(&mut p, "GPIOC_AFRL =0x", afrl);
    word_line(&mut p, "GPIOC_AFRH =0x", afrh);
    pin_function_line(&mut p, "PC6 ", afrl, 24);
    pin_function_line(&mut p, "PC7 ", afrl, 28);
    pin_function_line(&mut p, "PC8 ", afrh, 0);
    let ghost before = p@;
    reg_load(&mut p, TIM4, TIM_CR1);
    reg_load(&mut p, TIM4, TIM_CCER);
    assert(p@ =~= before + seq![ld(TIM4, TIM_CR1), ld(TIM4, TIM_CCER)]);
    p
}

/// The registers of a timer, under its name.
pub open spec fn timer_words_acts(name: &str, timer: u32) -> Seq<Act> {
    seq![say(name)] + timer_acts(timer, "CR1  ", TIM_CR1) + timer_acts(timer, "CCER ", TIM_CCER)
        + timer_acts(timer, "CCMR1", TIM_CCMR1) + timer_acts(timer, "CCMR2", TIM_CCMR2)
        + timer_acts(timer, "ARR  ", TIM_ARR) + timer_acts(timer, "PSC  ", TIM_PSC)
}

/// The duties of two ports.
pub open spec fn port_duties_acts(timer: u32, first: &str, second: &str) -> Seq<Act> {
    seq![
        say("  CCR1="),
        Act::Show { addr: at(timer, TIM_CCR1), form: Form::Word },
        say(" CCR2="),
        Act::Show { addr: at(timer, TIM_CCR2), form: Form::Word },
        say(first),
        say("  CCR3="),
        Act::Show { addr: at(timer, TIM_CCR3), form: Form::Word },
        say(" CCR4="),
        Act::Show { addr: at(timer, TIM_CCR4), form: Form::Word },
        say(second),
    ]
}

/// Counter and channel enables of a timer.
pub open spec fn enables_acts(cr1: u32, ccer: u32) -> Seq<Act> {
    seq![
        say("\r\n  CEN="),
        flag(cr1, 1),
        say(" CH1="),
        flag(ccer, 1),
        say(" CH2="),
        flag(ccer, 1u32 << 4),
        say(" CH3="),
        flag(ccer, 1u32 << 8),
        say(" CH4="),
        flag(ccer, 1u32 << 12),
        say("\r\n"),
    ]
}

/// A timer and its two ports.
pub open spec fn two_ports_acts(
    name: &str,
    timer: u32,
    first: &str,
    second: &str,
    cr1: u32,
    ccer: u32,
) -> Seq<Act> {
    timer_words_acts(name, timer) + port_duties_acts(timer, first, second) + enables_acts(cr1, ccer)
}

fn timer_words(name: &str, timer: u32) -> (p: Plan)
    requires
        timer < 0x5000_0000,
    ensures
        p@ == timer_words_acts(name, timer),
{
    let mut p: Plan = Plan::new();
    p.say(name);
    assert(p@ =~= seq![say(name)]);
    timer_line(&mut p, timer, "CR1  ", TIM_CR1);
    timer_line(&mut p, timer, "CCER ", TIM_CCER);
    timer_line(&mut p, timer, "CCMR1", TIM_CCMR1);
    timer_line(&mut p, timer, "CCMR2", TIM_CCMR2);
    timer_line(&mut p, timer, "ARR  ", TIM_ARR);
    timer_line(&mut p, timer, "PSC  ", TIM_PSC);
    p
}

fn port_duties(timer: u32, first: &str, second: &str) -> (p: Plan)
    requires
        timer < 0x5000_0000,
    ensures
        p@ == port_duties_acts(timer, first, second),
{
    let mut p: Plan = Plan::new();
    p.say("  CCR1=");
    p.push(Op::Show { addr: timer + TIM_CCR1, form: Form::Word });
    p.say(" CCR2=");
    p.push(Op::Show { addr: timer + TIM_CCR2, form: Form::Word });
    p.say(first);
    p.say("  CCR3=");
    p.push(Op::Show { addr: timer + TIM_CCR3, form: Form::Word });
    p.say(" CCR4=");
    p.push(Op::Show { addr: timer + TIM_CCR4, form: Form::Word });
    p.say(second);
    p
}

fn enables(cr1: u32, ccer: u32) -> (p: Plan)
    ensures
        p@ == enables_acts(cr1, ccer),
{
    let mut p: Plan = Plan::new();
    p.say("\r\n  CEN=");
    say_flag(&mut p, cr1, 1);
    p.say(" CH1=");
    say_flag(&mut p, ccer, 1);
    p.say(" CH2=");
    say_flag(&mut p, ccer, 1u32 << 4);
    p.say(" CH3=");
    say_flag(&mut p, ccer, 1u32 << 8);
    p.say(" CH4=");
    say_flag(&mut p, ccer, 1u32 << 12);
    p.say("\r\n");
    p
}

fn two_ports(name: &str, timer: u32, first: &str, second: &str, cr1: u32, ccer: u32) -> (p: Plan)
    requires
        timer < 0x5000_0000,
    ensures
        p@ == two_ports_acts(name, timer, first, second, cr1, ccer),
{
    let mut p: Plan = timer_words(name, timer);
    p.append(port_duties(timer, first, second));
    p.append(enables(cr1, ccer));
    p
}

/// Part seven: timer 4 with ports C and D, and a look at timer 3.
pub open spec fn timer4_acts(cr1: u32, ccer: u32) -> Seq<Act> {
    two_ports_acts(
        "\r\nTIM4:\r\n",
        TIM4,
        "  (Port C)\r\n",
        "  (Port D)\r\n",
        cr1,
        ccer,
    ) + seq![ld(TIM3, TIM_CR1), ld(TIM3, TIM_CCER)]
}

/// Reports on timer 4.
pub fn motors_timer4(cr1: u32, ccer: u32) -> (p: Plan)
    ensures
        p@ == timer4_acts(cr1, ccer),
{
    let mut p: Plan = two_ports(
        "\r\nTIM4:\r\n",
        TIM4,
        "  (Port C)\r\n",
        "  (Port D)\r\n",
        cr1,
        ccer,
    );
    let ghost before = p@;
    reg_load(&mut p, TIM3, TIM_CR1);
    reg_load(&mut p, TIM3, TIM_CCER);
    assert(p@ =~= before + seq![ld(TIM3, TIM_CR1), ld(TIM3, TIM_CCER)]);
    p
}

/// Part eight: timer 3 with ports E and F.
pub open spec fn timer3_acts(cr1: u32, ccer: u32) -> Seq<Act> {
    two_ports_acts(
        "\r\nTIM3:\r\n",
        TIM3,
        "  (Port E)\r\n",
        "  (Port F)\r\n",
        cr1,
        ccer,
    )
}

/// Reports on timer 3.
pub fn motors_timer3(cr1: u32, ccer: u32) -> (p: Plan)
    ensures
        p@ == timer3_acts(cr1, ccer),
{
    two_ports("\r\nTIM3:\r\n", TIM3, "  (Port E)\r\n", "  (Port F)\r\n", cr1, ccer)
}

// ---------------------------------------------------------------------------
// What the report promises
// ---------------------------------------------------------------------------

proof fn bank_b_looks(moder: u32, afrl: u32, afrh: u32)
    ensures
        looks(bank_b_acts(moder, afrl, afrh)),
{
    broadcast use looks_append;

    assert(looks(word_acts("\r\nGPIOB_MODER=0x", moder)));
    assert(looks(pin_mode_acts("PB6 ", moder, 6)));
    assert(looks(pin_mode_acts("PB7 ", moder, 7)));
    assert(looks(pin_mode_acts("PB8 ", moder, 8)));
    assert(looks(pin_mode_acts("PB9 ", moder, 9)));
    assert(looks(pin_mode_acts("PB1 ", moder, 1)));
    assert(looks(word_acts("GPIOB_AFRL =0x", afrl)));
    assert(looks(word_acts("GPIOB_AFRH =0x", afrh)));
    assert(looks(pin_function_acts("PB6 ", afrl, 24)));
    assert(looks(pin_function_acts("PB7 ", afrl, 28)));
    assert(looks(pin_function_acts("PB8 ", afrh, 0)));
    assert(looks(pin_function_acts("PB9 ", afrh, 4)));
    assert(looks(pin_function_acts("PB1 ", afrl, 4)));
    assert(looks(seq![ld(GPIOC, GPIO_MODER), ld(GPIOC, GPIO_AFRL), ld(GPIOC, GPIO_AFRH)]));
}

proof fn bank_c_looks(moder: u32, afrl: u32, afrh: u32)
    ensures
        looks(bank_c_acts(moder, afrl, afrh)),
{
    broadcast use looks_append;

    assert(looks(word_acts("GPIOC_MODER=0x", moder)));
    assert(looks(pin_mode_acts("PC6 ", moder, 6)));
    assert(looks(pin_mode_acts("PC7 ", moder, 7)));
    assert(looks(pin_mode_acts("PC8 ", moder, 8)));
    assert(looks(word_acts("GPIOC_AFRL =0x", afrl)));
    assert(looks(word_acts("GPIOC_AFRH =0x", afrh)));
    assert(looks(pin_function_acts("PC6 ", afrl, 24)));
    assert(looks(pin_function_acts("PC7 ", afrl, 28)));
    assert(looks(pin_function_acts("PC8 ", afrh, 0)));
    assert(looks(seq![ld(TIM4, TIM_CR1), ld(TIM4, TIM_CCER)]));
}

proof fn timer_words_look(name: &str, timer: u32)
    ensures
        looks(timer_words_acts(name, timer)),
{
    broadcast use looks_append;

    assert(looks(seq![say(name)]));
    assert(looks(timer_acts(timer, "CR1  ", TIM_CR1)));
    assert(looks(timer_acts(timer, "CCER ", TIM_CCER)));
    assert(looks(timer_acts(timer, "CCMR1", TIM_CCMR1)));
    assert(looks(timer_acts(timer, "CCMR2", TIM_CCMR2)));
    assert(looks(timer_acts(timer, "ARR  ", TIM_ARR)));
    assert(looks(timer_acts(timer, "PSC  ", TIM_PSC)));
}

proof fn duties_and_enables_look(timer: u32, first: &str, second: &str, cr1: u32, ccer: u32)
    ensures
        looks(port_duties_acts(timer, first, second)),
        looks(enables_acts(cr1, ccer)),
{
}

proof fn two_ports_look(
    name: &str,
    timer: u32,
    first: &str,
    second: &str,
    cr1: u32,
    ccer: u32,
)
    ensures
        looks(two_ports_acts(name, timer, first, second, cr1, ccer)),
{
    timer_words_look(name, timer);
    duties_and_enables_look(timer, first, second, cr1, ccer);
    let words = timer_words_acts(name, timer);
    looks_append(words, port_duties_acts(timer, first, second));
    looks_append(words + port_duties_acts(timer, first, second), enables_acts(cr1, ccer));
}

/// The report on the pins of ports C to F changes no register.
pub proof fn banks_report_changes_nothing(moder: u32, afrl: u32, afrh: u32, regs: Regs)
    ensures
        run(bank_b_acts(moder, afrl, afrh), regs) == regs,
        run(bank_c_acts(moder, afrl, afrh), regs) == regs,
{
    assert(run(bank_b_acts(moder, afrl, afrh), regs) == regs) by {
        bank_b_looks(moder, afrl, afrh);
        looking_is_harmless(bank_b_acts(moder, afrl, afrh), regs);
    }
    assert(run(bank_c_acts(moder, afrl, afrh), regs) == regs) by {
        bank_c_looks(moder, afrl, afrh);
        looking_is_harmless(bank_c_acts(moder, afrl, afrh), regs);
    }
}

proof fn timer4_looks(cr1: u32, ccer: u32)
    ensures
        looks(timer4_acts(cr1, ccer)),
{
    two_ports_look(
        "\r\nTIM4:\r\n",
        TIM4,
        "  (Port C)\r\n",
        "  (Port D)\r\n",
        cr1,
        ccer,
    );
    assert(looks(seq![ld(TIM3, TIM_CR1), ld(TIM3, TIM_CCER)]));
    looks_append(
        two_ports_acts(
            "\r\nTIM4:\r\n",
            TIM4,
            "  (Port C)\r\n",
            "  (Port D)\r\n",
            cr1,
            ccer,
        ),
        seq![ld(TIM3, TIM_CR1), ld(TIM3, TIM_CCER)],
    );
}

/// The report on the timers of ports C to F changes no register.
pub proof fn timers_report_changes_nothing(cr1: u32, ccer: u32, regs: Regs)
    ensures
        run(timer4_acts(cr1, ccer), regs) == regs,
        run(timer3_acts(cr1, ccer), regs) == regs,
{
    assert(run(timer4_acts(cr1, ccer), regs) == regs) by {
        timer4_looks(cr1, ccer);
        looking_is_harmless(timer4_acts(cr1, ccer), regs);
    }
    assert(run(timer3_acts(cr1, ccer), regs) == regs) by {
        two_ports_look(
            "\r\nTIM3:\r\n",
            TIM3,
            "  (Port E)\r\n",
            "  (Port F)\r\n",
            cr1,
            ccer,
        );
        looking_is_harmless(timer3_acts(cr1, ccer), regs);
    }
}

// ---------------------------------------------------------------------------
// What the report says of the registers
// ---------------------------------------------------------------------------

/// A line with a register that was loaded.
pub open spec fn word_line_of(name: &str, v: u32) -> Seq<Act> {
    seq![say(name), Act::Send(hex32(v)), say("\r\n")]
}

proof fn modes_of_bank_b(moder: u32)
    ensures
        pin_mode_acts("PB6 ", moder, 6) == pin_line("PB6 ", "=", mode_called(moder / 0x1000 % 4)),
        pin_mode_acts("PB7 ", moder, 7) == pin_line("PB7 ", "=", mode_called(moder / 0x4000 % 4)),
        pin_mode_acts("PB8 ", moder, 8) == pin_line(
            "PB8 ",
            "=",
            mode_called(moder / 0x0001_0000 % 4),
        ),
        pin_mode_acts("PB9 ", moder, 9) == pin_line(
            "PB9 ",
            "=",
            mode_called(moder / 0x0004_0000 % 4),
        ),
        pin_mode_acts("PB1 ", moder, 1) == pin_line("PB1 ", "=", mode_called(moder / 4 % 4)),
{
    fields_by_division(moder);
}

proof fn functions_of_bank_b(afrl: u32, afrh: u32)
    ensures
        pin_function_acts("PB6 ", afrl, 24) == pin_line(
            "PB6 ",
            "=AF",
            function_called(afrl / 0x0100_0000 % 16),
        ),
        pin_function_acts("PB7 ", afrl, 28) == pin_line(
            "PB7 ",
            "=AF",
            function_called(afrl / 0x1000_0000 % 16),
        ),
        pin_function_acts("PB8 ", afrh, 0) == pin_line("PB8 ", "=AF", function_called(afrh % 16)),
        pin_function_acts("PB9 ", afrh, 4) == pin_line(
            "PB9 ",
            "=AF",
            function_called(afrh / 0x10 % 16),
        ),
        pin_function_acts("PB1 ", afrl, 4) == pin_line(
            "PB1 ",
            "=AF",
            function_called(afrl / 0x10 % 16),
        ),
{
    fields_by_division(afrl);
    fields_by_division(afrh);
}

/// The pins of ports C and D and the second one of port F: two bits of the mode register and
/// four of a function register each; and a look at the next bank.
pub proof fn bank_b_by_pin(moder: u32, afrl: u32, afrh: u32)
    ensures
        bank_b_acts(moder, afrl, afrh) == word_line_of("\r\nGPIOB_MODER=0x", moder) + pin_line(
            "PB6 ",
            "=",
            mode_called(moder / 0x1000 % 4),
        ) + pin_line("PB7 ", "=", mode_called(moder / 0x4000 % 4)) + pin_line(
            "PB8 ",
            "=",
            mode_called(moder / 0x0001_0000 % 4),
        ) + pin_line("PB9 ", "=", mode_called(moder / 0x0004_0000 % 4)) + pin_line(
            "PB1 ",
            "=",
            mode_called(moder / 4 % 4),
        ) + word_line_of("GPIOB_AFRL =0x", afrl) + word_line_of("GPIOB_AFRH =0x", afrh) + pin_line(
            "PB6 ",
            "=AF",
            function_called(afrl / 0x0100_0000 % 16),
        ) + pin_line("PB7 ", "=AF", function_called(afrl / 0x1000_0000 % 16)) + pin_line(
            "PB8 ",
            "=AF",
            function_called(afrh % 16),
        ) + pin_line("PB9 ", "=AF", function_called(afrh / 0x10 % 16)) + pin_line(
            "PB1 ",
            "=AF",
            function_called(afrl / 0x10 % 16),
        ) + seq![
            Act::Load { addr: 0x4002_0800 },
            Act::Load { addr: 0x4002_0820 },
            Act::Load { addr: 0x4002_0824 },
        ],
{
    modes_of_bank_b(moder);
    functions_of_bank_b(afrl, afrh);
}

proof fn lines_of_bank_c(moder: u32, afrl: u32, afrh: u32)
    ensures
        pin_mode_acts("PC6 ", moder, 6) == pin_line("PC6 ", "=", mode_called(moder / 0x1000 % 4)),
        pin_mode_acts("PC7 ", moder, 7) == pin_line("PC7 ", "=", mode_called(moder / 0x4000 % 4)),
        pin_mode_acts("PC8 ", moder, 8) == pin_line(
            "PC8 ",
            "=",
            mode_called(moder / 0x0001_0000 % 4),
        ),
        pin_function_acts("PC6 ", afrl, 24) == pin_line(
            "PC6 ",
            "=AF",
            function_called(afrl / 0x0100_0000 % 16),
        ),
        pin_function_acts("PC7 ", afrl, 28) == pin_line(
            "PC7 ",
            "=AF",
            function_called(afrl / 0x1000_0000 % 16),
        ),
        pin_function_acts("PC8 ", afrh, 0) == pin_line("PC8 ", "=AF", function_called(afrh % 16)),
{
    fields_by_division(moder);
    fields_by_division(afrl);
    fields_by_division(afrh);
}

/// The pins of port E and the first one of port F, in the same way, and a look at timer 4.
pub proof fn bank_c_by_pin(moder: u32, afrl: u32, afrh: u32)
    ensures
        bank_c_acts(moder, afrl, afrh) == word_line_of("GPIOC_MODER=0x", moder) + pin_line(
            "PC6 ",
            "=",
            mode_called(moder / 0x1000 % 4),
        ) + pin_line("PC7 ", "=", mode_called(moder / 0x4000 % 4)) + pin_line(
            "PC8 ",
            "=",
            mode_called(moder / 0x0001_0000 % 4),
        ) + word_line_of("GPIOC_AFRL =0x", afrl) + word_line_of("GPIOC_AFRH =0x", afrh) + pin_line(
            "PC6 ",
            "=AF",
            function_called(afrl / 0x0100_0000 % 16),
        ) + pin_line("PC7 ", "=AF", function_called(afrl / 0x1000_0000 % 16)) + pin_line(
            "PC8 ",
            "=AF",
            function_called(afrh % 16),
        ) + seq![Act::Load { addr: 0x4000_0800 }, Act::Load { addr: 0x4000_0820 }],
{
    lines_of_bank_c(moder, afrl, afrh);
}

/// The duties of a timer at `base`, under the names of its ports.
pub open spec fn duties_at(base: u32, first: &str, second: &str) -> Seq<Act> {
    seq![
        say("  CCR1="),
        Act::Show { addr: (base + 0x34) as u32, form: Form::Word },
        say(" CCR2="),
        Act::Show { addr: (base + 0x38) as u32, form: Form::Word },
        say(first),
        say("  CCR3="),
        Act::Show { addr: (base + 0x3C) as u32, form: Form::Word },
        say(" CCR4="),
        Act::Show { addr: (base + 0x40) as u32, form: Form::Word },
        say(second),
    ]
}

/// The enables of a timer, by the bits of its two registers.
pub open spec fn enables_called(cr1: u32, ccer: u32) -> Seq<Act> {
    seq![
        say("\r\n  CEN="),
        bit_called(cr1 % 2),
        say(" CH1="),
        bit_called(ccer % 2),
        say(" CH2="),
        bit_called(ccer / 0x10 % 2),
        say(" CH3="),
        bit_called(ccer / 0x100 % 2),
        say(" CH4="),
        bit_called(ccer / 0x1000 % 2),
        say("\r\n"),
    ]
}

proof fn enables_are_bits(cr1: u32, ccer: u32)
    ensures
        enables_acts(cr1, ccer) == enables_called(cr1, ccer),
{
    fields_by_division(cr1);
    fields_by_division(ccer);
    bit_values();
}

proof fn timer_by_address(name: &str, timer: u32)
    requires
        timer < 0x5000_0000,
    ensures
        timer_words_acts(name, timer) == seq![say(name)] + word_at("CR1  ", timer) + word_at(
            "CCER ",
            (timer + 0x20) as u32,
        ) + word_at("CCMR1", (timer + 0x18) as u32) + word_at("CCMR2", (timer + 0x1C) as u32)
            + word_at("ARR  ", (timer + 0x2C) as u32) + word_at("PSC  ", (timer + 0x28) as u32),
{
}

/// Timer 4 with ports C and D, and a look at timer 3.
pub proof fn timer4_by_address(cr1: u32, ccer: u32)
    ensures
        timer4_acts(cr1, ccer) == (seq![say("\r\nTIM4:\r\n")] + word_at("CR1  ", 0x4000_0800)
            + word_at("CCER ", 0x4000_0820) + word_at("CCMR1", 0x4000_0818) + word_at(
            "CCMR2",
            0x4000_081C,
        ) + word_at("ARR  ", 0x4000_082C) + word_at("PSC  ", 0x4000_0828)) + duties_at(
            0x4000_0800,
            "  (Port C)\r\n",
            "  (Port D)\r\n",
        ) + enables_called(cr1, ccer) + seq![
            Act::Load { addr: 0x4000_0400 },
            Act::Load { addr: 0x4000_0420 },
        ],
{
    enables_are_bits(cr1, ccer);
    timer_by_address("\r\nTIM4:\r\n", TIM4);
    assert(port_duties_acts(TIM4, "  (Port C)\r\n", "  (Port D)\r\n") =~= duties_at(
        0x4000_0800,
        "  (Port C)\r\n",
        "  (Port D)\r\n",
    ));
}

/// Timer 3 with ports E and F.
pub proof fn timer3_by_address(cr1: u32, ccer: u32)
    ensures
        timer3_acts(cr1, ccer) == (seq![say("\r\nTIM3:\r\n")] + word_at("CR1  ", 0x4000_0400)
            + word_at("CCER ", 0x4000_0420) + word_at("CCMR1", 0x4000_0418) + word_at(
            "CCMR2",
            0x4000_041C,
        ) + word_at("ARR  ", 0x4000_042C) + word_at("PSC  ", 0x4000_0428)) + duties_at(
            0x4000_0400,
            "  (Port E)\r\n",
            "  (Port F)\r\n",
        ) + enables_called(cr1, ccer),
{
    enables_are_bits(cr1, ccer);
    timer_by_address("\r\nTIM3:\r\n", TIM3);
    assert(port_duties_acts(TIM3, "  (Port E)\r\n", "  (Port F)\r\n") =~= duties_at(
        0x4000_0400,
        "  (Port E)\r\n",
        "  (Port F)\r\n",
    ));
}

} // verus!
