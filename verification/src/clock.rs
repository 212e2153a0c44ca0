//! Clocks, the system tick and the speaker.
use crate::plan::{
    at, ld, md, rd, reg_load, reg_modify, reg_read, reg_until_set, reg_write, run, run_append,
    run_upto, until_set, wr, Act, Op, Plan, Regs,
};
use crate::regs::{
    FLASH_ACR, FLASH_R, GPIOA, GPIOC, GPIO_BSRR, GPIO_MODER, GPIO_ODR, RCC, RCC_AHB1ENR, RCC_CFGR,
    RCC_CR, RCC_PLLCFGR, SYSTICK_TRAMPOLINE, SYST_CSR, SYST_CVR, SYST_RVR,
};
use vstd::prelude::*;

verus! {

/// Core clock after `init_clocks`.
pub const HCLK_HZ: u32 = 96_000_000;

/// Core cycles in a millisecond.
pub const CYCLES_PER_MS: u32 = 96_000;

/// PLL configuration: 16 MHz crystal, M = 16, N = 192, P = 2, Q = 4.
pub const PLL_CONFIG: u32 = 16 | (192 << 6) | (1 << 22) | (4 << 24);

/// Reload value of the system tick.
pub const TICK_RELOAD: u32 = 95_999;

/// The acts of `init_clocks`.
pub open spec fn init_clocks_acts() -> Seq<Act> {
    seq![
        md(FLASH_R, FLASH_ACR, 0xF, 3),
        md(RCC, RCC_CR, 0, 1u32 << 16),
        until_set(RCC, RCC_CR, 1u32 << 17),
        wr(RCC, RCC_PLLCFGR, PLL_CONFIG),
        md(RCC, RCC_CR, 0, 1u32 << 24),
        until_set(RCC, RCC_CR, 1u32 << 25),
        md(RCC, RCC_CFGR, 0xFCF0, 0x1000),
        md(RCC, RCC_CFGR, 0x3, 0x2),
        Act::WaitEq { addr: at(RCC, RCC_CFGR), mask: 0xC, val: 0x8 },
    ]
}

/// Brings the core to 96 MHz from the crystal, with 48 MHz for USB.
pub fn init_clocks() -> (p: Plan)
    ensures
        p@ == init_clocks_acts(),
{
    let mut p: Plan = Plan::new();
    reg_modify(&mut p, FLASH_R, FLASH_ACR, 0xF, 3);
    reg_modify(&mut p, RCC, RCC_CR, 0, 1u32 << 16);
    reg_until_set(&mut p, RCC, RCC_CR, 1u32 << 17);
    reg_write(&mut p, RCC, RCC_PLLCFGR, PLL_CONFIG);
    reg_modify(&mut p, RCC, RCC_CR, 0, 1u32 << 24);
    reg_until_set(&mut p, RCC, RCC_CR, 1u32 << 25);
    reg_modify(&mut p, RCC, RCC_CFGR, 0xFCF0, 0x1000);
    reg_modify(&mut p, RCC, RCC_CFGR, 0x3, 0x2);
    p.push(Op::WaitEq { addr: RCC + RCC_CFGR, mask: 0xC, val: 0x8 });
    p
}

/// Whether the clock configuration register says that the PLL drives the core.
pub open spec fn pll_selected(cfgr: u32) -> bool {
    cfgr & 0xC == 0x8
}

/// The acts of `load_clock_config`.
pub open spec fn load_clock_config_acts() -> Seq<Act> {
    seq![
        ld(RCC, RCC_CFGR),
    ]
}

/// Loads the register that tells which clock drives the core.
pub fn load_clock_config() -> (p: Plan)
    ensures
        p@ == load_clock_config_acts(),
{
    let mut p: Plan = Plan::new();
    reg_load(&mut p, RCC, RCC_CFGR);
    p
}

/// Sets up the clocks unless the PLL already drives the core, as it does under
/// the monitor.
pub fn init_clocks_unless_running(cfgr: u32) -> (p: Plan)
    ensures
        p@ == if pll_selected(cfgr) {
            Seq::<Act>::empty()
        } else {
            init_clocks_acts()
        },
{
    if cfgr & 0xC == 0x8 {
        Plan::new()
    } else {
        init_clocks()
    }
}

/// The acts of `arm_systick`.
pub open spec fn arm_systick_acts(handler: u32) -> Seq<Act> {
    seq![
        wr(SYST_CSR, 0, 0),
        wr(SYST_RVR, 0, TICK_RELOAD),
        wr(SYST_CVR, 0, 0),
        wr(SYST_CSR, 0, 0x7),
        wr(SYSTICK_TRAMPOLINE, 0, handler),
    ]
}

/// Starts the system tick at 1 kHz and publishes its handler to applications.
pub fn arm_systick(handler: u32) -> (p: Plan)
    ensures
        p@ == arm_systick_acts(handler),
{
    let mut p: Plan = Plan::new();
    reg_write(&mut p, SYST_CSR, 0, 0);
    reg_write(&mut p, SYST_RVR, 0, TICK_RELOAD);
    reg_write(&mut p, SYST_CVR, 0, 0);
    reg_write(&mut p, SYST_CSR, 0, 0x7);
    reg_write(&mut p, SYSTICK_TRAMPOLINE, 0, handler);
    p
}

/// Amplifier on, speaker pin driven.
pub open spec fn beep_start_acts() -> Seq<Act> {
    seq![
        md(RCC, RCC_AHB1ENR, 0, (1u32 << 0) | (1u32 << 2)),
        rd(RCC, RCC_AHB1ENR),
        md(GPIOC, GPIO_MODER, 3u32 << 20, 1u32 << 20),
        wr(GPIOC, GPIO_BSRR, 1u32 << 10),
        md(GPIOA, GPIO_MODER, 3u32 << 8, 1u32 << 8),
    ]
}

/// One period of the square wave.
pub open spec fn beep_period_acts(half: u32) -> Seq<Act> {
    seq![
        wr(GPIOA, GPIO_BSRR, 1u32 << 4),
        Act::Delay { cycles: half },
        wr(GPIOA, GPIO_BSRR, 1u32 << 20),
        Act::Delay { cycles: half },
    ]
}

/// `n` periods.
pub open spec fn beep_wave_acts(half: u32, n: nat) -> Seq<Act>
    decreases n,
{
    if n == 0 {
        Seq::empty()
    } else {
        beep_wave_acts(half, (n - 1) as nat) + beep_period_acts(half)
    }
}

/// Amplifier off, speaker pin back to analog.
pub open spec fn beep_stop_acts() -> Seq<Act> {
    seq![
        wr(GPIOC, GPIO_BSRR, 1u32 << 26),
        md(GPIOA, GPIO_MODER, 3u32 << 8, 3u32 << 8),
    ]
}

/// Whether a tone can be computed in 32 bits.
pub open spec fn beep_fits(duration_ms: u32, freq_hz: u32) -> bool {
    &&& freq_hz > 0
    &&& freq_hz * 2 <= u32::MAX
    &&& duration_ms * freq_hz <= u32::MAX
}

/// A square wave on the speaker: as many periods of `freq_hz` as `duration_ms`
/// holds, each a high and a low half.
pub open spec fn beep_acts(duration_ms: u32, freq_hz: u32) -> Seq<Act> {
    beep_start_acts() + beep_wave_acts(
        (HCLK_HZ as int / (freq_hz * 2)) as u32,
        (duration_ms * freq_hz / 1000) as nat,
    ) + beep_stop_acts()
}

/// Sounds the speaker.
pub fn beep(duration_ms: u32, freq_hz: u32) -> (p: Plan)
    requires
        beep_fits(duration_ms, freq_hz),
    ensures
        p@ == beep_acts(duration_ms, freq_hz),
{
    let mut p: Plan = Plan::new();
    reg_modify(&mut p, RCC, RCC_AHB1ENR, 0, (1u32 << 0) | (1u32 << 2));
    reg_read(&mut p, RCC, RCC_AHB1ENR);
    reg_modify(&mut p, GPIOC, GPIO_MODER, 3u32 << 20, 1u32 << 20);
    reg_write(&mut p, GPIOC, GPIO_BSRR, 1u32 << 10);
    reg_modify(&mut p, GPIOA, GPIO_MODER, 3u32 << 8, 1u32 << 8);
    assert(p@ =~= beep_start_acts());
    let half: u32 = HCLK_HZ / (freq_hz * 2);
    let periods: u32 = duration_ms * freq_hz / 1000;
    let mut i: u32 = 0;
    while i < periods
        invariant
            i <= periods,
            p@ == beep_start_acts() + beep_wave_acts(half, i as nat),
        decreases periods - i,
    {
        let ghost before = p@;
        reg_write(&mut p, GPIOA, GPIO_BSRR, 1u32 << 4);
        p.push(Op::Delay { cycles: half });
        reg_write(&mut p, GPIOA, GPIO_BSRR, 1u32 << 20);
        p.push(Op::Delay { cycles: half });
        assert(p@ =~= before + beep_period_acts(half));
        assert(p@ =~= beep_start_acts() + beep_wave_acts(half, (i + 1) as nat));
        i = i + 1;
    }
    let ghost before = p@;
    reg_write(&mut p, GPIOC, GPIO_BSRR, 1u32 << 26);
    reg_modify(&mut p, GPIOA, GPIO_MODER, 3u32 << 8, 3u32 << 8);
    assert(p@ =~= before + beep_stop_acts());
    p
}

/// The PLL configuration makes 96 MHz for the core and 48 MHz for USB out of
/// the 16 MHz crystal.
pub proof fn pll_frequencies()
    ensures
        ({
            let m = PLL_CONFIG & 0x3F;
            let n = (PLL_CONFIG >> 6u32) & 0x1FF;
            let p = 2 * ((PLL_CONFIG >> 16u32) & 3) + 2;
            let q = (PLL_CONFIG >> 24u32) & 0xF;
            &&& 16_000_000int / (m as int) * n / p == HCLK_HZ
            &&& 16_000_000int / (m as int) * n / (q as int) == 48_000_000
            &&& PLL_CONFIG & (1u32 << 22) != 0
        }),
{
    assert(PLL_CONFIG & 0x3F == 16 && (PLL_CONFIG >> 6u32) & 0x1FF == 192 && (PLL_CONFIG >> 16u32)
        & 3 == 0 && (PLL_CONFIG >> 24u32) & 0xF == 4 && PLL_CONFIG & (1u32 << 22) != 0)
        by (bit_vector);
    let m = (PLL_CONFIG & 0x3F) as int;
    let n = ((PLL_CONFIG >> 6u32) & 0x1FF) as int;
    let p = 2 * ((PLL_CONFIG >> 16u32) & 3) + 2;
    let q = ((PLL_CONFIG >> 24u32) & 0xF) as int;
    assert(16_000_000int / m * n / p == 96_000_000 && 16_000_000int / m * n / q == 48_000_000)
        by (nonlinear_arith)
        requires
            m == 16,
            n == 192,
            p == 2,
            q == 4,
    ;
}

/// The tick runs at 1 kHz.
pub proof fn tick_rate()
    ensures
        HCLK_HZ as int / (TICK_RELOAD + 1) == 1000,
        HCLK_HZ as int % (TICK_RELOAD + 1) == 0,
{
}

/// Setting up the clocks leaves the PLL selected as configured, with the wait
/// states and bus prescalers that 96 MHz need.
pub proof fn clocks_run_from_pll(regs: Regs)
    ensures
        ({
            let after = run(init_clocks_acts(), regs);
            &&& after[at(RCC, RCC_CFGR)] & 3 == 2
            &&& after[at(RCC, RCC_CFGR)] & 0xFCF0 == 0x1000
            &&& after[at(RCC, RCC_PLLCFGR)] == PLL_CONFIG
            &&& after[at(FLASH_R, FLASH_ACR)] & 0xF == 3
            &&& after[at(RCC, RCC_CR)] & 0x0101_0000 == 0x0101_0000
        }),
{
    reveal_with_fuel(run_upto, 10);
    let c = regs[at(RCC, RCC_CFGR)];
    let f = regs[at(FLASH_R, FLASH_ACR)];
    let r = regs[at(RCC, RCC_CR)];
    assert({
        let d = (((c & !0xFCF0u32) | 0x1000) & !0x3u32) | 0x2;
        let e = (((r & !0u32) | (1u32 << 16u32)) & !0u32) | (1u32 << 24u32);
        &&& d & 3 == 2
        &&& d & 0xFCF0 == 0x1000
        &&& ((f & !0xFu32) | 3) & 0xF == 3
        &&& e & 0x0101_0000 == 0x0101_0000
    }) by (bit_vector);
}

/// Core cycles that the first `n` acts wait.
pub open spec fn waited(acts: Seq<Act>, n: nat) -> nat
    decreases n,
{
    if n == 0 {
        0
    } else {
        waited(acts, (n - 1) as nat) + match acts[n - 1] {
            Act::Delay { cycles } => cycles as nat,
            _ => 0nat,
        }
    }
}

proof fn waited_append(a: Seq<Act>, b: Seq<Act>, n: nat)
    requires
        n <= b.len(),
    ensures
        waited(a + b, a.len() + n) == waited(a, a.len()) + waited(b, n),
    decreases n,
{
    if n > 0 {
        waited_append(a, b, (n - 1) as nat);
        assert((a + b)[a.len() + n - 1] == b[n - 1]);
    } else {
        waited_prefix(a, b, a.len());
    }
}

proof fn waited_prefix(a: Seq<Act>, b: Seq<Act>, n: nat)
    requires
        n <= a.len(),
    ensures
        waited(a + b, n) == waited(a, n),
    decreases n,
{
    if n > 0 {
        waited_prefix(a, b, (n - 1) as nat);
    }
}

proof fn wave_waits(half: u32, n: nat)
    ensures
        waited(beep_wave_acts(half, n), beep_wave_acts(half, n).len()) == n * (2 * half),
    decreases n,
{
    if n > 0 {
        wave_waits(half, (n - 1) as nat);
        waited_append(beep_wave_acts(half, (n - 1) as nat), beep_period_acts(half), 4);
        assert(waited(beep_period_acts(half), 4) == 2 * half) by {
            reveal_with_fuel(waited, 5);
        }
        assert(n * (2 * half) == (n - 1) * (2 * half) + 2 * half) by (nonlinear_arith);
    } else {
        assert(0 * (2 * half) == 0) by (nonlinear_arith);
    }
}

/// A beep sounds its tone for as long as it says: each period takes two halves of
/// the core clock over the tone, and there are as many as the duration holds.
pub proof fn beep_lasts(duration_ms: u32, freq_hz: u32)
    requires
        beep_fits(duration_ms, freq_hz),
    ensures
        ({
            let acts = beep_acts(duration_ms, freq_hz);
            waited(acts, acts.len()) == (duration_ms * freq_hz / 1000) * (2 * (HCLK_HZ as int / (
            freq_hz * 2)))
        }),
{
    let half = (HCLK_HZ as int / (freq_hz * 2)) as u32;
    let n = (duration_ms * freq_hz / 1000) as nat;
    let wave = beep_wave_acts(half, n);
    let bound = HCLK_HZ as int;
    let f = freq_hz * 2;
    assert(0 <= bound / f <= bound) by (nonlinear_arith)
        requires
            f > 0,
            bound >= 0,
    ;
    wave_waits(half, n);
    reveal_with_fuel(waited, 6);
    waited_append(beep_start_acts(), wave, wave.len());
    waited_append(beep_start_acts() + wave, beep_stop_acts(), 2);
}

/// A beep leaves the amplifier off and the speaker pin analog.
pub proof fn beep_leaves_speaker_off(duration_ms: u32, freq_hz: u32, regs: Regs)
    ensures
        ({
            let after = run(beep_acts(duration_ms, freq_hz), regs);
            &&& (after[at(GPIOC, GPIO_ODR)] >> 10u32) & 1 == 0
            &&& (after[at(GPIOA, GPIO_MODER)] >> 8u32) & 3 == 3
        }),
{
    let wave = beep_start_acts() + beep_wave_acts(
        (HCLK_HZ as int / (freq_hz * 2)) as u32,
        (duration_ms * freq_hz / 1000) as nat,
    );
    run_append(wave, beep_stop_acts(), regs);
    let mid = run(wave, regs);
    reveal_with_fuel(run_upto, 3);
    let o = mid[at(GPIOC, GPIO_ODR)];
    let m = mid[at(GPIOA, GPIO_MODER)];
    assert((((o & !((1u32 << 26u32) >> 16u32)) | ((1u32 << 26u32) & 0xFFFF)) >> 10u32) & 1 == 0
        && (((m & !(3u32 << 8u32)) | (3u32 << 8u32)) >> 8u32) & 3 == 3) by (bit_vector);
}

/// The core runs at 96 MHz, and a tick comes every millisecond.
pub proof fn clock_by_number()
    ensures
        HCLK_HZ == 96_000_000,
        CYCLES_PER_MS == 96_000,
        TICK_RELOAD + 1 == 96_000,
{
}

} // verus!
