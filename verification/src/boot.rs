//! Booting: the bootloader, and the monitor in its place.
//!
//! Both go through stages. Each stage's plan ends in what has to be known next;
//! what was loaded decides about the stage behind it.
use crate::button::{
    boot_read_center_button, center_down, center_pressed, center_sample_acts, read_center_button,
    ADC_SETTLE,
};
use crate::clock::{
    arm_systick, arm_systick_acts, beep, beep_acts, beep_period_acts, beep_wave_acts, init_clocks,
    init_clocks_acts, HCLK_HZ, TICK_RELOAD,
};
use crate::command::Handlers;
use crate::console::{banner, banner_acts};
use crate::plan::{
    group_run, ld, reg_load, reg_write, run, run_upto, stays, wr, Act, Op, Plan, Regs,
};
use crate::power::{
    app_valid, boot_app, boot_app_acts, check_and_enter_dfu, check_dfu_acts, enter_system_dfu,
    enter_system_dfu_acts, is_app_valid, jump_to_app, jump_to_app_acts, mask_interrupts_acts,
};
use crate::protect::{
    init_mpu, is_protected, monitor_is_protected, mpu_acts, mpu_upto, option_acts, permissions,
    region_log2, sectors_protected, set_write_protection, Mpu,
};
use crate::regs::{
    APP_ADDR, DFU_MAGIC_ADDR, DFU_MAGIC_VALUE, FLASH_OPTCR, FLASH_R, MONITOR_FLASH, MONITOR_RAM,
    MPU_CTRL, SCB_VTOR, SYSTEM_MEMORY, SYSTICK_TRAMPOLINE, SYST_CSR, SYST_RVR, TRAMPOLINE_ADDR,
};
use crate::tlc5955::{
    control_bytes, grey_bytes, init_status_led, spi_bytes_acts, status_led_acts, status_levels,
};
use crate::usb::{init_usb_pins, usb_pins_acts};
use vstd::prelude::*;

verus! {

/// Pause between the two looks at the button, in no-operations.
pub const PRESS_PAUSE: u32 = 800_000;

/// How long the monitor waits for a host.
pub const HOST_WAIT_MS: u32 = 3000;

/// The word that may ask for the ROM bootloader, loaded.
pub fn load_magic() -> (p: Plan)
    ensures
        p@ == seq![ld(DFU_MAGIC_ADDR, 0)],
{
    let mut p: Plan = Plan::new();
    reg_load(&mut p, DFU_MAGIC_ADDR, 0);
    p
}

/// The application's first two words loaded.
pub open spec fn load_vector_acts() -> Seq<Act> {
    seq![ld(APP_ADDR, 0), ld(APP_ADDR, 4)]
}

/// Loads the application's stack pointer and entry point.
pub fn load_vector() -> (p: Plan)
    ensures
        p@ == load_vector_acts(),
{
    let mut p: Plan = Plan::new();
    reg_load(&mut p, APP_ADDR, 0);
    reg_load(&mut p, APP_ADDR, 4);
    p
}

// ---------------------------------------------------------------------------
// The bootloader
// ---------------------------------------------------------------------------

/// What the bootloader knows once a plan has been performed.
#[derive(Clone, Copy, Debug, PartialEq, Eq, Structural)]
pub enum BootStage {
    /// The magic word.
    Magic,
    /// A sample of the center button.
    FirstPress,
    /// A second sample, a while after the first one told of a press.
    SecondPress,
    /// The application's first two words.
    Vector,
    /// Nothing: it is gone.
    Gone,
}

pub open spec fn boot_sample_acts() -> Seq<Act> {
    center_sample_acts(Act::Nops { count: ADC_SETTLE })
}

/// What a stage does with what was loaded.
pub open spec fn boot_acts(stage: BootStage, loaded: Seq<u32>) -> Seq<Act> {
    match stage {
        BootStage::Magic => if loaded[0] == DFU_MAGIC_VALUE {
            check_dfu_acts(loaded[0])
        } else {
            boot_sample_acts()
        },
        BootStage::FirstPress => if center_down(loaded[0]) {
            seq![Act::Nops { count: PRESS_PAUSE }] + boot_sample_acts()
        } else {
            load_vector_acts()
        },
        BootStage::SecondPress => if center_down(loaded[0]) {
            enter_system_dfu_acts()
        } else {
            load_vector_acts()
        },
        BootStage::Vector => if app_valid(loaded[0], loaded[1]) {
            boot_app_acts(loaded[0], loaded[1])
        } else {
            enter_system_dfu_acts()
        },
        BootStage::Gone => Seq::empty(),
    }
}

/// The stage behind a stage.
pub open spec fn boot_next(stage: BootStage, loaded: Seq<u32>) -> BootStage {
    match stage {
        BootStage::Magic => if loaded[0] == DFU_MAGIC_VALUE {
            BootStage::Gone
        } else {
            BootStage::FirstPress
        },
        BootStage::FirstPress => if center_down(loaded[0]) {
            BootStage::SecondPress
        } else {
            BootStage::Vector
        },
        BootStage::SecondPress => if center_down(loaded[0]) {
            BootStage::Gone
        } else {
            BootStage::Vector
        },
        BootStage::Vector => BootStage::Gone,
        BootStage::Gone => BootStage::Gone,
    }
}

/// Takes the bootloader one stage on.
pub fn boot_step(stage: BootStage, loaded: [u32; 2]) -> (r: (Plan, BootStage))
    ensures
        r.0@ == boot_acts(stage, loaded@),
        r.1 == boot_next(stage, loaded@),
{
    match stage {
        BootStage::Magic => {
            if loaded[0] == DFU_MAGIC_VALUE {
                (check_and_enter_dfu(loaded[0]), BootStage::Gone)
            } else {
                (boot_read_center_button(), BootStage::FirstPress)
            }
        },
        BootStage::FirstPress => {
            if center_pressed(loaded[0]) {
                let mut p: Plan = Plan::new();
                p.push(Op::Nops { count: PRESS_PAUSE });
                p.append(boot_read_center_button());
                assert(p@ =~= boot_acts(stage, loaded@));
                (p, BootStage::SecondPress)
            } else {
                (load_vector(), BootStage::Vector)
            }
        },
        BootStage::SecondPress => {
            if center_pressed(loaded[0]) {
                (enter_system_dfu(), BootStage::Gone)
            } else {
                (load_vector(), BootStage::Vector)
            }
        },
        BootStage::Vector => {
            if is_app_valid(loaded[0], loaded[1]) {
                (boot_app(loaded[0], loaded[1]), BootStage::Gone)
            } else {
                (enter_system_dfu(), BootStage::Gone)
            }
        },
        BootStage::Gone => (Plan::new(), BootStage::Gone),
    }
}

// ---------------------------------------------------------------------------
// The monitor
// ---------------------------------------------------------------------------

/// What the monitor knows once a plan has been performed.
#[derive(Clone, Copy, Debug, PartialEq, Eq, Structural)]
pub enum MonitorStage {
    /// The magic word.
    Magic,
    /// A sample of the center button, and the option bytes.
    Press,
    /// Whether a host is connected, after so many milliseconds: 1 if one is.
    Host { waited: u32 },
    /// The application's first two words.
    Vector,
    /// The shell is open.
    Shell,
    /// Nothing: it is gone.
    Gone,
}

/// Write protection of bootloader and monitor, where it is asked for.
pub open spec fn boot_protect_acts(protect: bool) -> Seq<Act> {
    if protect {
        option_acts(true)
    } else {
        Seq::empty()
    }
}

/// Clocks, the protection of the monitor, a beep, the green light, the pins of the
/// USB port. `protect` asks for write protection too.
pub open spec fn monitor_init_acts(protect: bool) -> Seq<Act> {
    init_clocks_acts() + mpu_acts() + boot_protect_acts(protect) + beep_acts(150, 1000)
        + status_led_acts() + usb_pins_acts()
}

fn monitor_init(protect: bool) -> (p: Plan)
    ensures
        p@ == monitor_init_acts(protect),
{
    let mut p: Plan = init_clocks();
    p.append(init_mpu());
    p.append(
        if protect {
            set_write_protection(true)
        } else {
            Plan::new()
        },
    );
    p.append(beep(150, 1000));
    p.append(init_status_led());
    p.append(init_usb_pins());
    p
}

/// The ROM bootloader entered from a monitor that has set itself up: it may program
/// all of the flash, so that the protection unit goes off.
pub open spec fn leave_for_dfu_acts() -> Seq<Act> {
    seq![wr(MPU_CTRL, 0, 0)] + enter_system_dfu_acts()
}

fn leave_for_dfu() -> (p: Plan)
    ensures
        p@ == leave_for_dfu_acts(),
{
    let mut p: Plan = Plan::new();
    reg_write(&mut p, MPU_CTRL, 0, 0);
    p.append(enter_system_dfu());
    assert(p@ =~= leave_for_dfu_acts());
    p
}

/// The look at the button, and at the option bytes.
pub open spec fn monitor_sample_acts() -> Seq<Act> {
    center_sample_acts(Act::Delay { cycles: ADC_SETTLE }).push(ld(FLASH_R, FLASH_OPTCR))
}

fn monitor_sample() -> (p: Plan)
    ensures
        p@ == monitor_sample_acts(),
{
    let mut p: Plan = read_center_button();
    reg_load(&mut p, FLASH_R, FLASH_OPTCR);
    p
}

/// How a monitor was built.
#[derive(Clone, Copy, Debug, PartialEq, Eq, Structural)]
pub struct MonitorSetup {
    /// It protects its flash from being written, where that is not so yet.
    pub protect: bool,
    /// Its exception handlers.
    pub handlers: Handlers,
}

/// An application started without a host: it finds the monitor's handlers, and the
/// tick serves the button and the serial line, should a host come later.
pub open spec fn start_app_acts(sp: u32, pc: u32, handlers: Handlers) -> Seq<Act> {
    seq![wr(TRAMPOLINE_ADDR, 0, handlers.debug)] + arm_systick_acts(handlers.tick)
        + jump_to_app_acts(sp, pc)
}

fn start_app(sp: u32, pc: u32, handlers: Handlers) -> (p: Plan)
    ensures
        p@ == start_app_acts(sp, pc, handlers),
{
    let mut p: Plan = Plan::new();
    reg_write(&mut p, TRAMPOLINE_ADDR, 0, handlers.debug);
    assert(p@ =~= seq![wr(TRAMPOLINE_ADDR, 0, handlers.debug)]);
    p.append(arm_systick(handlers.tick));
    p.append(jump_to_app(sp, pc));
    p
}

/// What a stage does with what was loaded.
pub open spec fn monitor_acts(
    stage: MonitorStage,
    loaded: Seq<u32>,
    setup: MonitorSetup,
) -> Seq<Act> {
    match stage {
        MonitorStage::Magic => if loaded[0] == DFU_MAGIC_VALUE {
            check_dfu_acts(loaded[0])
        } else {
            monitor_sample_acts()
        },
        MonitorStage::Press => if center_down(loaded[0]) {
            enter_system_dfu_acts()
        } else {
            monitor_init_acts(setup.protect && !sectors_protected(loaded[1]))
        },
        MonitorStage::Host { waited } => if loaded[0] != 0 {
            banner_acts()
        } else if waited >= HOST_WAIT_MS {
            load_vector_acts()
        } else {
            seq![Act::DelayMs { ms: 1 }]
        },
        MonitorStage::Vector => if app_valid(loaded[0], loaded[1]) {
            start_app_acts(loaded[0], loaded[1], setup.handlers)
        } else {
            leave_for_dfu_acts()
        },
        MonitorStage::Shell | MonitorStage::Gone => Seq::empty(),
    }
}

/// The stage behind a stage.
pub open spec fn monitor_next(stage: MonitorStage, loaded: Seq<u32>) -> MonitorStage {
    match stage {
        MonitorStage::Magic => if loaded[0] == DFU_MAGIC_VALUE {
            MonitorStage::Gone
        } else {
            MonitorStage::Press
        },
        MonitorStage::Press => if center_down(loaded[0]) {
            MonitorStage::Gone
        } else {
            MonitorStage::Host { waited: 0 }
        },
        MonitorStage::Host { waited } => if loaded[0] != 0 {
            MonitorStage::Shell
        } else if waited >= HOST_WAIT_MS {
            MonitorStage::Vector
        } else {
            MonitorStage::Host { waited: (waited + 1) as u32 }
        },
        MonitorStage::Vector => MonitorStage::Gone,
        MonitorStage::Shell => MonitorStage::Shell,
        MonitorStage::Gone => MonitorStage::Gone,
    }
}

/// Takes the monitor one stage on.
pub fn monitor_step(stage: MonitorStage, loaded: [u32; 2], setup: MonitorSetup) -> (r: (
    Plan,
    MonitorStage,
))
    ensures
        r.0@ == monitor_acts(stage, loaded@, setup),
        r.1 == monitor_next(stage, loaded@),
{
    match stage {
        MonitorStage::Magic => {
            if loaded[0] == DFU_MAGIC_VALUE {
                (check_and_enter_dfu(loaded[0]), MonitorStage::Gone)
            } else {
                (monitor_sample(), MonitorStage::Press)
            }
        },
        MonitorStage::Press => {
            if center_pressed(loaded[0]) {
                (enter_system_dfu(), MonitorStage::Gone)
            } else {
                (
                    monitor_init(setup.protect && !is_protected(loaded[1])),
                    MonitorStage::Host { waited: 0 },
                )
            }
        },
        MonitorStage::Host { waited } => {
            if loaded[0] != 0 {
                (banner(), MonitorStage::Shell)
            } else if waited >= HOST_WAIT_MS {
                (load_vector(), MonitorStage::Vector)
            } else {
                let mut p: Plan = Plan::new();
                p.push(Op::DelayMs { ms: 1 });
                (p, MonitorStage::Host { waited: waited + 1 })
            }
        },
        MonitorStage::Vector => {
            if is_app_valid(loaded[0], loaded[1]) {
                (start_app(loaded[0], loaded[1], setup.handlers), MonitorStage::Gone)
            } else {
                (leave_for_dfu(), MonitorStage::Gone)
            }
        },
        MonitorStage::Shell => (Plan::new(), MonitorStage::Shell),
        MonitorStage::Gone => (Plan::new(), MonitorStage::Gone),
    }
}

// ---------------------------------------------------------------------------
// Where a boot ends
// ---------------------------------------------------------------------------

/// Where a boot ends.
pub enum Outcome {
    /// In the ROM bootloader.
    Dfu,
    /// In the application, started at this vector.
    App { sp: u32, pc: u32 },
    /// In the monitor's shell.
    Shell,
}

/// The last act of a plan that ends a boot.
pub open spec fn ends_in(acts: Seq<Act>, o: Outcome) -> bool {
    match o {
        Outcome::Dfu => acts.last() == (Act::LaunchTable { table: SYSTEM_MEMORY }),
        Outcome::App { sp, pc } => acts.last() matches Act::Launch { sp: s, pc: p, .. } && s == sp
            && p == pc,
        Outcome::Shell => acts == banner_acts(),
    }
}

/// What a boot finds: the magic word, two samples of the button, the
/// application's first two words.
pub struct Found {
    pub magic: u32,
    pub first: u32,
    pub second: u32,
    pub sp: u32,
    pub pc: u32,
}

/// Where the bootloader ends: in the ROM bootloader on request, on a button held
/// for a while, and for want of a valid application; else in the application.
pub open spec fn boot_outcome(f: Found) -> Outcome {
    if f.magic == DFU_MAGIC_VALUE {
        Outcome::Dfu
    } else if center_down(f.first) && center_down(f.second) {
        Outcome::Dfu
    } else if app_valid(f.sp, f.pc) {
        Outcome::App { sp: f.sp, pc: f.pc }
    } else {
        Outcome::Dfu
    }
}

/// What is loaded at a stage.
pub open spec fn boot_loads(f: Found, stage: BootStage) -> Seq<u32> {
    match stage {
        BootStage::Magic => seq![f.magic, 0],
        BootStage::FirstPress => seq![f.first, 0],
        BootStage::SecondPress => seq![f.second, 0],
        _ => seq![f.sp, f.pc],
    }
}

/// The stage after `n` steps.
pub open spec fn boot_stage(f: Found, n: nat) -> BootStage
    decreases n,
{
    if n == 0 {
        BootStage::Magic
    } else {
        let before = boot_stage(f, (n - 1) as nat);
        boot_next(before, boot_loads(f, before))
    }
}

/// The bootloader always ends, in at most four steps, and ends where it should:
/// the step that ends it is the only one that leaves.
pub proof fn bootloader_ends_where_it_should(f: Found, n: nat)
    requires
        boot_stage(f, n) != BootStage::Gone,
    ensures
        n < 4,
        ({
            let stage = boot_stage(f, n);
            let acts = boot_acts(stage, boot_loads(f, stage));
            if boot_stage(f, n + 1) == BootStage::Gone {
                ends_in(acts, boot_outcome(f))
            } else {
                stays(acts)
            }
        }),
{
    reveal_with_fuel(boot_stage, 5);
    if n >= 4 {
        boot_gone_stays(f, 4, n);
    }
    let stage = boot_stage(f, n);
    let acts = boot_acts(stage, boot_loads(f, stage));
    assert(stays(boot_sample_acts()));
    assert(stays(seq![Act::Nops { count: PRESS_PAUSE }] + boot_sample_acts()));
    assert(stays(load_vector_acts()));
}

proof fn boot_gone_stays(f: Found, m: nat, n: nat)
    requires
        m <= n,
        boot_stage(f, m) == BootStage::Gone,
    ensures
        boot_stage(f, n) == BootStage::Gone,
    decreases n,
{
    if m < n {
        boot_gone_stays(f, m, (n - 1) as nat);
    }
}

proof fn masking_keeps_ram(n: nat, regs: Regs)
    requires
        n <= 8,
    ensures
        run(mask_interrupts_acts(n), regs)[DFU_MAGIC_ADDR] == regs[DFU_MAGIC_ADDR],
    decreases n,
{
    broadcast use group_run;

    if n > 0 {
        masking_keeps_ram((n - 1) as nat, regs);
        reveal_with_fuel(run_upto, 3);
    }
}

/// A request for the ROM bootloader is answered once: the magic word is gone from
/// RAM when the ROM bootloader runs, so that the boot after it is an ordinary one.
pub proof fn dfu_request_is_consumed(regs: Regs)
    ensures
        run(check_dfu_acts(DFU_MAGIC_VALUE), regs)[DFU_MAGIC_ADDR] != DFU_MAGIC_VALUE,
        ends_in(check_dfu_acts(DFU_MAGIC_VALUE), Outcome::Dfu),
{
    broadcast use group_run;

    reveal_with_fuel(run_upto, 5);
    let cleared = run(seq![wr(DFU_MAGIC_ADDR, 0, 0)], regs);
    let quiet = run(seq![Act::Irq { on: false }, wr(SYST_CSR, 0, 0)], cleared);
    masking_keeps_ram(8, quiet);
}

/// The stage of a monitor that has waited for a host and found none.
pub open spec fn alone(n: nat) -> MonitorStage
    decreases n,
{
    if n == 0 {
        MonitorStage::Host { waited: 0 }
    } else {
        monitor_next(alone((n - 1) as nat), seq![0, 0])
    }
}

/// Without a host the monitor waits three seconds, a millisecond at a time, and
/// then turns to the application.
pub proof fn monitor_waits_for_host(n: nat, setup: MonitorSetup)
    requires
        n <= HOST_WAIT_MS,
    ensures
        alone(n) == (MonitorStage::Host { waited: n as u32 }),
        n < HOST_WAIT_MS ==> monitor_acts(alone(n), seq![0, 0], setup) == seq![
            Act::DelayMs { ms: 1 },
        ],
        n == HOST_WAIT_MS ==> alone(n + 1) == MonitorStage::Vector,
    decreases n,
{
    if n > 0 {
        monitor_waits_for_host((n - 1) as nat, setup);
    }
}

/// The monitor starts only a valid application; without one it enters the ROM
/// bootloader.
pub proof fn monitor_starts_only_valid_app(sp: u32, pc: u32, setup: MonitorSetup)
    ensures
        ends_in(
            monitor_acts(MonitorStage::Vector, seq![sp, pc], setup),
            if app_valid(sp, pc) {
                Outcome::App { sp, pc }
            } else {
                Outcome::Dfu
            },
        ),
{
}

/// An application that the monitor starts by itself is served by the tick: its vector
/// table is in use, the tick runs, and both handlers can be found where applications
/// look for them.
pub proof fn started_app_is_served(sp: u32, pc: u32, handlers: Handlers, regs: Regs)
    ensures
        ({
            let after = run(start_app_acts(sp, pc, handlers), regs);
            &&& after[TRAMPOLINE_ADDR] == handlers.debug
            &&& after[SYSTICK_TRAMPOLINE] == handlers.tick
            &&& after[SYST_CSR] == 0x7
            &&& after[SYST_RVR] == TICK_RELOAD
            &&& after[SCB_VTOR] == APP_ADDR
        }),
{
    broadcast use group_run;

    reveal_with_fuel(run_upto, 6);
}

/// A host that is there at any time within the wait gets the shell.
pub proof fn host_gets_shell(waited: u32, sample: u32, setup: MonitorSetup)
    requires
        sample != 0,
    ensures
        monitor_next(MonitorStage::Host { waited }, seq![sample, 0]) == MonitorStage::Shell,
        ends_in(
            monitor_acts(MonitorStage::Host { waited }, seq![sample, 0], setup),
            Outcome::Shell,
        ),
{
}

// ---------------------------------------------------------------------------
// Where the monitor's boot ends
// ---------------------------------------------------------------------------

/// What the monitor finds: the magic word, a sample of the button, the option bytes,
/// the millisecond at which a host is there, if one comes, and the application's first
/// two words.
pub struct MonitorFound {
    pub magic: u32,
    pub press: u32,
    pub optcr: u32,
    pub host: Option<nat>,
    pub sp: u32,
    pub pc: u32,
}

/// Whether a host is there in time.
pub open spec fn host_in_time(f: MonitorFound) -> bool {
    f.host matches Some(ms) && ms <= HOST_WAIT_MS
}

/// Where the monitor ends: in the ROM bootloader on request and on a held button;
/// in its shell if a host is there in time; else in a valid application, or in the
/// ROM bootloader for want of one.
pub open spec fn monitor_outcome(f: MonitorFound) -> Outcome {
    if f.magic == DFU_MAGIC_VALUE || center_down(f.press) {
        Outcome::Dfu
    } else if host_in_time(f) {
        Outcome::Shell
    } else if app_valid(f.sp, f.pc) {
        Outcome::App { sp: f.sp, pc: f.pc }
    } else {
        Outcome::Dfu
    }
}

/// What is loaded at a stage.
pub open spec fn monitor_loads(f: MonitorFound, stage: MonitorStage) -> Seq<u32> {
    match stage {
        MonitorStage::Magic => seq![f.magic, 0],
        MonitorStage::Press => seq![f.press, f.optcr],
        MonitorStage::Host { waited } => seq![
            if f.host matches Some(ms) && ms <= waited {
                1u32
            } else {
                0u32
            },
            0,
        ],
        _ => seq![f.sp, f.pc],
    }
}

/// The stage after `n` steps.
pub open spec fn monitor_stage(f: MonitorFound, n: nat) -> MonitorStage
    decreases n,
{
    if n == 0 {
        MonitorStage::Magic
    } else {
        let before = monitor_stage(f, (n - 1) as nat);
        monitor_next(before, monitor_loads(f, before))
    }
}

/// Whether the boot is over at a stage.
pub open spec fn boot_over(stage: MonitorStage) -> bool {
    stage == MonitorStage::Shell || stage == MonitorStage::Gone
}

proof fn monitor_stays_over(f: MonitorFound, m: nat, n: nat)
    requires
        m <= n,
        boot_over(monitor_stage(f, m)),
    ensures
        boot_over(monitor_stage(f, n)),
    decreases n,
{
    if m < n {
        monitor_stays_over(f, m, (n - 1) as nat);
    }
}

/// While the monitor waits, it counts the milliseconds, and no host has come yet.
proof fn monitor_waits(f: MonitorFound, n: nat)
    requires
        !boot_over(monitor_stage(f, n)),
        n >= 2,
    ensures
        f.magic != DFU_MAGIC_VALUE,
        !center_down(f.press),
        n <= HOST_WAIT_MS + 3,
        n <= HOST_WAIT_MS + 2 ==> monitor_stage(f, n) == (MonitorStage::Host {
            waited: (n - 2) as u32,
        }),
        n == HOST_WAIT_MS + 3 ==> monitor_stage(f, n) == MonitorStage::Vector && !host_in_time(f),
        n <= HOST_WAIT_MS + 3 && f.host is Some ==> n - 2 <= f.host->0,
    decreases n,
{
    let before = monitor_stage(f, (n - 1) as nat);
    if boot_over(before) {
        monitor_stays_over(f, (n - 1) as nat, n);
    }
    if n == 2 {
        reveal_with_fuel(monitor_stage, 3);
    } else {
        monitor_waits(f, (n - 1) as nat);
    }
}

proof fn beep_runs_to_its_end(half: u32, n: nat)
    ensures
        stays(beep_wave_acts(half, n)),
    decreases n,
{
    if n > 0 {
        beep_runs_to_its_end(half, (n - 1) as nat);
    }
}

proof fn frame_runs_to_its_end(data: Seq<u8>, n: nat)
    ensures
        stays(spi_bytes_acts(data, n)),
    decreases n,
{
    if n > 0 {
        frame_runs_to_its_end(data, (n - 1) as nat);
    }
}

proof fn monitor_init_runs_to_its_end(protect: bool)
    ensures
        stays(monitor_init_acts(protect)),
{
    assert(stays(mpu_acts()));
    assert(stays(boot_protect_acts(protect)));
    beep_runs_to_its_end((HCLK_HZ / 2000) as u32, 150);
    frame_runs_to_its_end(control_bytes(), control_bytes().len());
    frame_runs_to_its_end(grey_bytes(status_levels()), grey_bytes(status_levels()).len());
    assert(stays(init_clocks_acts()));
    assert(stays(beep_acts(150, 1000)));
    assert(stays(status_led_acts()));
    assert(stays(usb_pins_acts()));
}

/// The monitor's boot always ends, after the wait for a host at the latest, and
/// ends where it should: the step that ends it is the only one that leaves.
pub proof fn monitor_ends_where_it_should(f: MonitorFound, n: nat, setup: MonitorSetup)
    requires
        !boot_over(monitor_stage(f, n)),
    ensures
        n <= HOST_WAIT_MS + 3,
        ({
            let stage = monitor_stage(f, n);
            let acts = monitor_acts(stage, monitor_loads(f, stage), setup);
            if boot_over(monitor_stage(f, n + 1)) {
                ends_in(acts, monitor_outcome(f))
            } else {
                stays(acts)
            }
        }),
{
    monitor_init_runs_to_its_end(setup.protect && !sectors_protected(f.optcr));
    assert(stays(monitor_sample_acts()));
    assert(stays(load_vector_acts()));
    assert(stays(seq![Act::DelayMs { ms: 1 }]));
    if n < 2 {
        reveal_with_fuel(monitor_stage, 3);
    } else {
        monitor_waits(f, n);
    }
}

proof fn mpu_of_prefix(m: Mpu, a: Seq<Act>, b: Seq<Act>, n: nat)
    requires
        n <= a.len(),
    ensures
        mpu_upto(m, a + b, n) == mpu_upto(m, a, n),
    decreases n,
{
    if n > 0 {
        mpu_of_prefix(m, a, b, (n - 1) as nat);
    }
}

proof fn mpu_of_both(m: Mpu, a: Seq<Act>, b: Seq<Act>, n: nat)
    requires
        n <= b.len(),
    ensures
        mpu_upto(m, a + b, a.len() + n) == mpu_upto(mpu_upto(m, a, a.len()), b, n),
    decreases n,
{
    if n > 0 {
        mpu_of_both(m, a, b, (n - 1) as nat);
        assert((a + b)[a.len() + n - 1] == b[n - 1]);
    } else {
        mpu_of_prefix(m, a, b, a.len());
    }
}

/// Whether an act leaves the protection unit alone.
pub open spec fn spares_mpu(act: Act) -> bool {
    act matches Act::Write { addr, .. } ==> addr < MPU_CTRL
}

pub open spec fn all_spare_mpu(acts: Seq<Act>) -> bool {
    forall|i: int| 0 <= i < acts.len() ==> spares_mpu(#[trigger] acts[i])
}

proof fn spared_mpu(m: Mpu, acts: Seq<Act>, n: nat)
    requires
        n <= acts.len(),
        all_spare_mpu(acts),
    ensures
        mpu_upto(m, acts, n) == m,
    decreases n,
{
    if n > 0 {
        spared_mpu(m, acts, (n - 1) as nat);
        assert(spares_mpu(acts[n - 1]));
    }
}

proof fn wave_spares_mpu(half: u32, n: nat)
    ensures
        all_spare_mpu(beep_wave_acts(half, n)),
    decreases n,
{
    if n > 0 {
        wave_spares_mpu(half, (n - 1) as nat);
        assert(all_spare_mpu(beep_period_acts(half)));
    }
}

proof fn bytes_spare_mpu(data: Seq<u8>, n: nat)
    ensures
        all_spare_mpu(spi_bytes_acts(data, n)),
    decreases n,
{
    if n > 0 {
        bytes_spare_mpu(data, (n - 1) as nat);
    }
}

/// What the monitor's start does behind the protection of its memory.
pub open spec fn greeting_acts() -> Seq<Act> {
    beep_acts(150, 1000) + status_led_acts() + usb_pins_acts()
}

proof fn greeting_spares_mpu()
    ensures
        all_spare_mpu(greeting_acts()),
{
    wave_spares_mpu((HCLK_HZ / 2000) as u32, 150);
    bytes_spare_mpu(control_bytes(), control_bytes().len());
    bytes_spare_mpu(grey_bytes(status_levels()), grey_bytes(status_levels()).len());
    assert(all_spare_mpu(beep_acts(150, 1000)));
    assert(all_spare_mpu(status_led_acts()));
    assert(all_spare_mpu(usb_pins_acts()));
}

/// Once the monitor has started, its flash is read-only and its RAM is for
/// privileged code only.
pub proof fn started_monitor_is_protected(m: Mpu, protect: bool)
    ensures
        ({
            let acts = monitor_init_acts(protect);
            let after = mpu_upto(m, acts, acts.len());
            &&& after.control & 1 == 1
            &&& after.regions[0].base == MONITOR_FLASH
            &&& permissions(after.regions[0]) == 6
            &&& region_log2(after.regions[0]) == 15
            &&& after.regions[1].base == MONITOR_RAM
            &&& permissions(after.regions[1]) == 1
            &&& region_log2(after.regions[1]) == 13
        }),
{
    let clocks = init_clocks_acts();
    let option = boot_protect_acts(protect);
    let rest = option + greeting_acts();
    greeting_spares_mpu();
    assert(all_spare_mpu(clocks));
    assert(all_spare_mpu(option));
    assert(all_spare_mpu(rest));
    spared_mpu(m, clocks, clocks.len());
    monitor_is_protected(m);
    let set = mpu_upto(m, mpu_acts(), mpu_acts().len());
    spared_mpu(set, rest, rest.len());
    mpu_of_both(m, clocks, mpu_acts(), mpu_acts().len());
    mpu_of_both(m, clocks + mpu_acts(), rest, rest.len());
    assert(monitor_init_acts(protect) =~= clocks + mpu_acts() + rest);
}

} // verus!
