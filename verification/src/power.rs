//! Power hold, DFU requests and the jumps into other programs.
use crate::plan::{
    apply, at, masked, md, rd, reg_modify, reg_read, reg_write, run, run_append, run_upto, wr, Act,
    Op, Plan, Regs,
};
use crate::regs::{
    APP_ADDR, DFU_MAGIC_ADDR, DFU_MAGIC_VALUE, FLASH_END, GPIOA, GPIO_BSRR, GPIO_MODER, GPIO_ODR,
    NVIC_ICER, NVIC_ICPR, RAM_END, RAM_START, RCC, RCC_AHB1ENR, RCC_APB2ENR, SCB_ICSR, SCB_VTOR,
    SYSCFG, SYSTEM_MEMORY, SYST_CSR,
};
use vstd::prelude::*;

verus! {

/// Port clock on, PA13 an output, PA13 high.
pub open spec fn pre_init_acts() -> Seq<Act> {
    seq![
        md(RCC, RCC_AHB1ENR, 0, 1u32 << 0),
        rd(RCC, RCC_AHB1ENR),
        md(GPIOA, GPIO_MODER, 3u32 << 26, 1u32 << 26),
        wr(GPIOA, GPIO_BSRR, 1u32 << 13),
    ]
}

/// Drives PA13 high, which keeps the hub powered. Has to run before anything
/// else.
pub fn pre_init() -> (p: Plan)
    ensures
        p@ == pre_init_acts(),
{
    let mut p: Plan = Plan::new();
    reg_modify(&mut p, RCC, RCC_AHB1ENR, 0, 1u32 << 0);
    reg_read(&mut p, RCC, RCC_AHB1ENR);
    reg_modify(&mut p, GPIOA, GPIO_MODER, 3u32 << 26, 1u32 << 26);
    reg_write(&mut p, GPIOA, GPIO_BSRR, 1u32 << 13);
    p
}

/// PA13 low, then sleep.
pub open spec fn power_off_acts() -> Seq<Act> {
    seq![
        wr(GPIOA, GPIO_BSRR, 1u32 << 29),
        Act::Sleep,
    ]
}

/// Drives PA13 low, which cuts the power, and sleeps until it is gone.
pub fn power_off() -> (p: Plan)
    ensures
        p@ == power_off_acts(),
{
    let mut p: Plan = Plan::new();
    reg_write(&mut p, GPIOA, GPIO_BSRR, 1u32 << 29);
    p.push(Op::Sleep);
    p
}

/// Magic word, then reset.
pub open spec fn request_dfu_acts() -> Seq<Act> {
    seq![
        wr(DFU_MAGIC_ADDR, 0, DFU_MAGIC_VALUE),
        Act::Reset,
    ]
}

/// Leaves the magic word in RAM and resets: the next boot enters the ROM
/// bootloader.
pub fn request_dfu() -> (p: Plan)
    ensures
        p@ == request_dfu_acts(),
{
    let mut p: Plan = Plan::new();
    reg_write(&mut p, DFU_MAGIC_ADDR, 0, DFU_MAGIC_VALUE);
    p.push(Op::Reset);
    p
}

/// The first `n` banks of interrupts disabled and no longer pending.
pub open spec fn mask_interrupts_acts(n: nat) -> Seq<Act>
    decreases n,
{
    if n == 0 {
        Seq::empty()
    } else {
        mask_interrupts_acts((n - 1) as nat) + seq![
            wr(NVIC_ICER, ((n - 1) * 4) as u32, 0xFFFF_FFFF),
            wr(NVIC_ICPR, ((n - 1) * 4) as u32, 0xFFFF_FFFF),
        ]
    }
}

/// Everything quiet, system memory mapped at zero, and off into it.
pub open spec fn enter_system_dfu_acts() -> Seq<Act> {
    seq![Act::Irq { on: false }, wr(SYST_CSR, 0, 0)] + mask_interrupts_acts(8) + seq![
        md(RCC, RCC_APB2ENR, 0, 1u32 << 14),
        rd(RCC, RCC_APB2ENR),
        wr(SYSCFG, 0, 0x01),
        Act::LaunchTable { table: SYSTEM_MEMORY },
    ]
}

/// Enters the ROM bootloader, which speaks DFU.
pub fn enter_system_dfu() -> (p: Plan)
    ensures
        p@ == enter_system_dfu_acts(),
{
    let mut p: Plan = Plan::new();
    p.push(Op::Irq { on: false });
    reg_write(&mut p, SYST_CSR, 0, 0);
    let ghost head = p@;
    let mut i: u32 = 0;
    while i < 8
        invariant
            i <= 8,
            p@ == head + mask_interrupts_acts(i as nat),
        decreases 8 - i,
    {
        let ghost before = p@;
        reg_write(&mut p, NVIC_ICER, i * 4, 0xFFFF_FFFF);
        reg_write(&mut p, NVIC_ICPR, i * 4, 0xFFFF_FFFF);
        assert(p@ =~= before + seq![
            wr(NVIC_ICER, (i * 4) as u32, 0xFFFF_FFFF),
            wr(NVIC_ICPR, (i * 4) as u32, 0xFFFF_FFFF),
        ]);
        assert(p@ =~= head + mask_interrupts_acts((i + 1) as nat));
        i = i + 1;
    }
    reg_modify(&mut p, RCC, RCC_APB2ENR, 0, 1u32 << 14);
    reg_read(&mut p, RCC, RCC_APB2ENR);
    reg_write(&mut p, SYSCFG, 0, 0x01);
    p.push(Op::LaunchTable { table: SYSTEM_MEMORY });
    assert(p@ =~= enter_system_dfu_acts());
    p
}

/// What a boot does about the word in RAM: nothing, or clear it and enter the
/// ROM bootloader.
pub open spec fn check_dfu_acts(magic: u32) -> Seq<Act> {
    if magic == DFU_MAGIC_VALUE {
        seq![wr(DFU_MAGIC_ADDR, 0, 0)] + enter_system_dfu_acts()
    } else {
        Seq::empty()
    }
}

/// Enters the ROM bootloader if the magic word asks for it. The word is
/// cleared first, so that the request holds for one boot.
pub fn check_and_enter_dfu(magic: u32) -> (p: Plan)
    ensures
        p@ == check_dfu_acts(magic),
{
    let mut p: Plan = Plan::new();
    if magic != DFU_MAGIC_VALUE {
        return p;
    }
    reg_write(&mut p, DFU_MAGIC_ADDR, 0, 0);
    p.append(enter_system_dfu());
    assert(p@ =~= check_dfu_acts(magic));
    p
}

/// Whether the first two words of an application can be a stack pointer into
/// RAM and an entry point into application flash.
pub open spec fn app_valid(sp: u32, pc: u32) -> bool {
    RAM_START <= sp <= RAM_END && APP_ADDR <= pc <= FLASH_END
}

/// Whether the first two words of an application look like a program.
pub fn is_app_valid(sp: u32, pc: u32) -> (r: bool)
    ensures
        r == app_valid(sp, pc),
{
    let sp_valid: bool = sp >= RAM_START && sp <= RAM_END;
    let pc_valid: bool = pc >= APP_ADDR && pc <= FLASH_END;
    sp_valid && pc_valid
}

/// Jump of the resident monitor: the system tick keeps running and interrupts are
/// on in the application, so that the monitor stays reachable.
pub open spec fn jump_to_app_acts(sp: u32, pc: u32) -> Seq<Act> {
    seq![
        Act::Irq { on: false },
        wr(SCB_ICSR, 0, 1u32 << 25),
        wr(SCB_VTOR, 0, APP_ADDR),
        Act::Launch { sp, pc, irqs: true },
    ]
}

/// Starts the application under the monitor.
pub fn jump_to_app(sp: u32, pc: u32) -> (p: Plan)
    ensures
        p@ == jump_to_app_acts(sp, pc),
{
    let mut p: Plan = Plan::new();
    p.push(Op::Irq { on: false });
    reg_write(&mut p, SCB_ICSR, 0, 1u32 << 25);
    reg_write(&mut p, SCB_VTOR, 0, APP_ADDR);
    p.push(Op::Launch { sp, pc, irqs: true });
    p
}

/// Jump of the bootloader: the system tick is stopped and interrupts stay off.
pub open spec fn boot_app_acts(sp: u32, pc: u32) -> Seq<Act> {
    seq![
        Act::Irq { on: false },
        wr(SYST_CSR, 0, 0),
        wr(SCB_ICSR, 0, 1u32 << 25),
        wr(SCB_VTOR, 0, APP_ADDR),
        Act::Launch { sp, pc, irqs: false },
    ]
}

/// Starts the application from the bootloader.
pub fn boot_app(sp: u32, pc: u32) -> (p: Plan)
    ensures
        p@ == boot_app_acts(sp, pc),
{
    let mut p: Plan = Plan::new();
    p.push(Op::Irq { on: false });
    reg_write(&mut p, SYST_CSR, 0, 0);
    reg_write(&mut p, SCB_ICSR, 0, 1u32 << 25);
    reg_write(&mut p, SCB_VTOR, 0, APP_ADDR);
    p.push(Op::Launch { sp, pc, irqs: false });
    p
}

// ---------------------------------------------------------------------------
// Holding the power
// ---------------------------------------------------------------------------

/// Whether the hub holds its power: PA13 is an output, and high.
pub open spec fn power_held(regs: Regs) -> bool {
    &&& (regs[at(GPIOA, GPIO_MODER)] >> 26u32) & 3 == 1
    &&& (regs[at(GPIOA, GPIO_ODR)] >> 13u32) & 1 == 1
}

/// The first thing that runs makes the hub hold its power, whatever state the
/// pins were in.
pub proof fn pre_init_holds_power(regs: Regs)
    ensures
        power_held(run(pre_init_acts(), regs)),
{
    reveal_with_fuel(run_upto, 5);
    let m = regs[at(GPIOA, GPIO_MODER)];
    let o = regs[at(GPIOA, GPIO_ODR)];
    assert(({
        let w = (m & !(3u32 << 26u32)) | (1u32 << 26u32);
        let x = (o & !((1u32 << 13u32) >> 16u32)) | ((1u32 << 13u32) & 0xFFFF);
        &&& (w >> 26u32) & 3 == 1
        &&& (x >> 13u32) & 1 == 1
    })) by (bit_vector);
}

/// Switching off releases the power.
pub proof fn power_off_releases(regs: Regs)
    ensures
        !power_held(run(power_off_acts(), regs)),
{
    reveal_with_fuel(run_upto, 3);
    let o = regs[at(GPIOA, GPIO_ODR)];
    assert((((o & !((1u32 << 29u32) >> 16u32)) | ((1u32 << 29u32) & 0xFFFF)) >> 13u32) & 1 == 0)
        by (bit_vector);
}

/// Whether an act leaves the power hold alone: PA13 stays an output and is not
/// reset.
pub open spec fn keeps_power(act: Act) -> bool {
    match act {
        Act::Write { addr, val } => {
            &&& addr != at(GPIOA, GPIO_MODER)
            &&& addr != at(GPIOA, GPIO_ODR)
            &&& addr == at(GPIOA, GPIO_BSRR) ==> val & 0x2000_0000 == 0
        },
        Act::Modify { addr, clear, set } => {
            &&& addr != at(GPIOA, GPIO_ODR)
            &&& addr != at(GPIOA, GPIO_BSRR)
            &&& addr == at(GPIOA, GPIO_MODER) ==> {
                ||| clear & 0x0C00_0000 == 0 && set & 0x0C00_0000 == 0
                ||| clear & 0x0C00_0000 == 0x0C00_0000 && set & 0x0C00_0000 == 0x0400_0000
            }
        },
        _ => true,
    }
}

/// Whether no act of a plan touches the power hold.
pub open spec fn all_keep_power(acts: Seq<Act>) -> bool {
    forall|i: int| 0 <= i < acts.len() ==> keeps_power(#[trigger] acts[i])
}

proof fn act_keeps_power(act: Act, regs: Regs)
    requires
        keeps_power(act),
        power_held(regs),
    ensures
        power_held(apply(act, regs)),
{
    let m = regs[at(GPIOA, GPIO_MODER)];
    let o = regs[at(GPIOA, GPIO_ODR)];
    match act {
        Act::Write { addr, val } => {
            if addr == at(GPIOA, GPIO_BSRR) {
                assert((((o & !(val >> 16u32)) | (val & 0xFFFF)) >> 13u32) & 1 == 1)
                    by (bit_vector)
                    requires
                        (o >> 13u32) & 1 == 1,
                        val & 0x2000_0000 == 0,
                ;
            }
        },
        Act::Modify { addr, clear, set } => {
            if addr == at(GPIOA, GPIO_MODER) {
                assert((((m & !clear) | set) >> 26u32) & 3 == 1) by (bit_vector)
                    requires
                        (m >> 26u32) & 3 == 1,
                        (clear & 0x0C00_0000 == 0 && set & 0x0C00_0000 == 0) || (clear
                            & 0x0C00_0000 == 0x0C00_0000 && set & 0x0C00_0000 == 0x0400_0000),
                ;
            }
        },
        _ => {},
    }
}

proof fn keeps_power_upto(acts: Seq<Act>, n: nat, regs: Regs)
    requires
        n <= acts.len(),
        all_keep_power(acts),
        power_held(regs),
    ensures
        power_held(run_upto(acts, n, regs)),
    decreases n,
{
    if n > 0 {
        keeps_power_upto(acts, (n - 1) as nat, regs);
        assert(keeps_power(acts[n - 1]));
        act_keeps_power(acts[n - 1], run_upto(acts, (n - 1) as nat, regs));
    }
}

/// A plan that leaves PA13 alone leaves the hub powered.
pub proof fn kept_power_is_held(acts: Seq<Act>, regs: Regs)
    requires
        all_keep_power(acts),
        power_held(regs),
    ensures
        power_held(run(acts, regs)),
{
    keeps_power_upto(acts, acts.len(), regs);
}

// ---------------------------------------------------------------------------
// Leaving for another program
// ---------------------------------------------------------------------------

/// Both jumps put the application's vector table in place. The monitor's keeps the
/// tick as it is, the bootloader's stops it.
pub proof fn jumps_set_vector_table(sp: u32, pc: u32, regs: Regs)
    ensures
        run(jump_to_app_acts(sp, pc), regs)[SCB_VTOR] == APP_ADDR,
        run(jump_to_app_acts(sp, pc), regs)[SYST_CSR] == regs[SYST_CSR],
        run(boot_app_acts(sp, pc), regs)[SCB_VTOR] == APP_ADDR,
        run(boot_app_acts(sp, pc), regs)[SYST_CSR] == 0,
{
    reveal_with_fuel(run_upto, 6);
}

proof fn bank_is_masked(n: nat, i: int, regs: Regs)
    requires
        n <= 8,
    ensures
        ({
            let after = run(mask_interrupts_acts(n), regs);
            &&& 0 <= i < n ==> after[at(NVIC_ICER, (i * 4) as u32)] == 0xFFFF_FFFF
            &&& 0 <= i < n ==> after[at(NVIC_ICPR, (i * 4) as u32)] == 0xFFFF_FFFF
            &&& after[SYST_CSR] == regs[SYST_CSR]
        }),
    decreases n,
{
    if n > 0 {
        let k = (n - 1) as nat;
        bank_is_masked(k, i, regs);
        let off = ((n - 1) * 4) as u32;
        let bank = seq![wr(NVIC_ICER, off, 0xFFFF_FFFF), wr(NVIC_ICPR, off, 0xFFFF_FFFF)];
        run_append(mask_interrupts_acts(k), bank, regs);
        reveal_with_fuel(run_upto, 3);
        let before = run(mask_interrupts_acts(k), regs);
        assert(run(bank, before) == before.insert(at(NVIC_ICER, off), 0xFFFF_FFFF).insert(
            at(NVIC_ICPR, off),
            0xFFFF_FFFF,
        ));
    }
}

/// The ROM bootloader is entered with the tick off, every interrupt disabled and
/// none pending, and system memory mapped at zero.
pub proof fn dfu_entry_is_quiet(i: int, regs: Regs)
    requires
        0 <= i < 8,
    ensures
        ({
            let after = run(enter_system_dfu_acts(), regs);
            &&& after[SYST_CSR] == 0
            &&& after[at(NVIC_ICER, (i * 4) as u32)] == 0xFFFF_FFFF
            &&& after[at(NVIC_ICPR, (i * 4) as u32)] == 0xFFFF_FFFF
            &&& after[SYSCFG] == 1
        }),
{
    let start = seq![Act::Irq { on: false }, wr(SYST_CSR, 0, 0)];
    let end = seq![
        md(RCC, RCC_APB2ENR, 0, 1u32 << 14),
        rd(RCC, RCC_APB2ENR),
        wr(SYSCFG, 0, 0x01),
        Act::LaunchTable { table: SYSTEM_MEMORY },
    ];
    run_append(start, mask_interrupts_acts(8), regs);
    run_append(start + mask_interrupts_acts(8), end, regs);
    reveal_with_fuel(run_upto, 5);
    let quiet = run(start, regs);
    assert(quiet == regs.insert(SYST_CSR, 0));
    bank_is_masked(8, i, quiet);
    let masked_off = run(mask_interrupts_acts(8), quiet);
    let clocked = masked_off[at(RCC, RCC_APB2ENR)];
    assert(run(end, masked_off) == masked_off.insert(
        at(RCC, RCC_APB2ENR),
        masked(clocked, 0, 1u32 << 14),
    ).insert(SYSCFG, 1));
}

/// An application is taken for valid exactly where its first word points into the 320 KB
/// of RAM, or just past them, and its second into flash from the application's sector on.
pub proof fn valid_apps_by_address(sp: u32, pc: u32)
    ensures
        app_valid(sp, pc) <==> 0x2000_0000 <= sp <= 0x2005_0000 && 0x0801_0000 <= pc
            <= 0x0810_0000,
{
}

} // verus!
