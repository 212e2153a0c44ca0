//! The commands of the monitor's shell.
use crate::breakpoint::{
    bp_acts, bp_table, bp_writes_breakpoint_unit_only, cmd_bp, cmd_watch, watch_acts, watch_table,
    watch_writes_comparators_only,
};
use crate::clock::{arm_systick, arm_systick_acts, TICK_RELOAD};
use crate::debug::{debug_monitor_enable, debug_monitor_enable_acts, halting, load_debug_status};
use crate::freeze::{
    channels_in, cmd_pause, cmd_resume, freeze_stops_all_ports, frozen, go_on_acts, is_frozen,
    pause_acts, unfreeze_drives_all_ports, FORCED_INACTIVE, PWM_MODE,
};
use crate::hex::hex32;
use crate::memory::{
    cmd_dump, cmd_peek, cmd_poke, dump_acts, inspection_looks, peek_acts, poke_acts,
};
use crate::plan::{
    at, group_run, ld, leaves, looking_is_harmless, looks, output, output_upto, reg_load,
    reg_write, run, run_upto, say, stays, text, within_stays, wr, Act, Memory, Op, Plan, Regs,
};
use crate::ports::{
    bank_b_acts, bank_c_acts, motors_bank_b, motors_bank_c, motors_timer3, motors_timer4,
    timer3_acts, timer4_acts,
};
use crate::power::{
    app_valid, is_app_valid, jump_to_app, jump_to_app_acts, power_off, power_off_acts, request_dfu,
    request_dfu_acts,
};
use crate::protect::{
    cmd_protect, cmd_unprotect, protect_acts, unprotect_acts, write_protection_is_set, WRP_SECTORS,
};
use crate::regs::{
    APP_ADDR, DFU_MAGIC_ADDR, DFU_MAGIC_VALUE, DWT_COMP_BASE, DWT_END, DWT_MAX_COMP, FLASH_OPTCR,
    FLASH_R, FPB_CTRL, FPB_END, FPB_MAX_COMP, SCB_DHCSR, SCB_VTOR, SYSTICK_TRAMPOLINE, SYST_CSR,
    SYST_RVR, TRAMPOLINE_ADDR,
};
use crate::report::{
    cmd_motors, motors_flags, motors_flags_acts, motors_functions, motors_functions_acts,
    motors_heading_acts, motors_modes, motors_modes_acts,
};
use crate::trace::bit_values;
use crate::upload::{cmd_upload, upload_begin_acts};
use crate::words::{
    blank_line_has_no_words, command_words, contents, is_blank, split_words, word_is, words,
    MAX_WORDS,
};
use crate::trace::fields_by_division;
use vstd::prelude::*;
use vstd::slice::slice_subrange;
use vstd::string::*;

verus! {

/// How often the serial line is serviced before the hub leaves the monitor.
pub const FLUSH_POLLS: u32 = 50_000;

pub const HELP: &'static str = "LEGO Hub Monitor v0.2\r\n\
Commands:\r\n\
\x20 help              Show this help\r\n\
\x20 peek <addr>       Read 32-bit word\r\n\
\x20 peek16 <addr>     Read 16-bit half-word\r\n\
\x20 peek8 <addr>      Read byte\r\n\
\x20 poke <addr> <val> Write 32-bit word\r\n\
\x20 dump <addr> <len> Hex dump (max 256 bytes)\r\n\
\x20 bp <addr>         Set HW breakpoint (FPB, max 6)\r\n\
\x20 bp clear [id]     Clear breakpoint(s)\r\n\
\x20 bp list           List active breakpoints\r\n\
\x20 watch <addr>      Set data watchpoint (DWT, max 4)\r\n\
\x20 watch clear [id]  Clear watchpoint(s)\r\n\
\x20 watch list        List active watchpoints\r\n\
\x20 motors            Dump motor GPIO/TIM1 config\r\n\
\x20 dbgmon            Enable DebugMonitor exception\r\n\
\x20 upload            Flash app binary (serial)\r\n\
\x20 run               Arm monitor + jump to app\r\n\
\x20                   (center button = pause)\r\n\
\x20 pause             Freeze motors\r\n\
\x20 resume            Let frozen motors go on\r\n\
\x20 protect           Enable flash WRP (sectors 0-3)\r\n\
\x20 unprotect         Disable flash WRP (for DFU updates)\r\n\
\x20 off / poweroff    Power off hub (release PA13)\r\n\
\x20 dfu               Enter STM32 system DFU\r\n\
\x20 reboot            Reset MCU\r\n\
While app runs:\r\n\
\x20 stop / kill       Stop app, return to monitor\r\n\
\x20 status            Show app state\r\n\
\x20 Ctrl+C            Emergency stop\r\n\
In breakpoint (dbg>):\r\n\
\x20 cont / c          Continue execution\r\n\
\x20 stop              Stop app, reboot to monitor\r\n\
\x20 step / s          Single-step one instruction\r\n\
\x20 regs              Show saved registers\r\n\
\x20 set <reg> <val>   Modify register (r0-r3,r12,lr,pc)\r\n";

/// What comes once a plan has been performed.
#[derive(Clone, Copy, Debug, PartialEq, Eq, Structural)]
pub enum Next {
    /// The command is done.
    Done,
    /// The debug status was loaded for `dbgmon`.
    DebugMonitor,
    /// The first two words of the application were loaded for `run`.
    AppVector,
    /// The debug status was loaded for `run` with a valid application.
    Arm { sp: u32, pc: u32 },
    /// The port modes were loaded for `motors`.
    MotorModes,
    /// The alternate functions were loaded for `motors`.
    MotorFunctions,
    /// The timer's registers were loaded for `motors`.
    MotorFlags,
    /// The registers of GPIOB were loaded for `motors`.
    MotorBankB,
    /// The registers of GPIOC were loaded for `motors`.
    MotorBankC,
    /// The registers of timer 4 were loaded for `motors`.
    MotorTimer4,
    /// The registers of timer 3 were loaded for `motors`.
    MotorTimer3,
    /// The mode of the motor timer was loaded for `status`.
    Status,
    /// What is received belongs to an upload, until it is over.
    Upload,
    /// The debug handler returns to the application.
    Return,
    /// The plan does not come back.
    Gone,
}

/// A plan, and what comes after it.
pub struct Step {
    pub plan: Plan,
    pub next: Next,
}

/// Entry points of the monitor's exception handlers.
#[derive(Clone, Copy, Debug, PartialEq, Eq, Structural)]
pub struct Handlers {
    pub debug: u32,
    pub tick: u32,
}

/// The commands.
#[derive(Clone, Copy, Debug, PartialEq, Eq, Structural)]
pub enum Command {
    Help,
    Peek { width: u32 },
    Poke,
    Dump,
    Bp,
    Watch,
    Motors,
    Dbgmon,
    Upload,
    Run,
    Pause,
    Resume,
    Protect,
    Unprotect,
    Dfu,
    Reboot,
    Off,
    Unknown,
}

/// The command that a word names.
pub open spec fn command_named(word: Seq<u8>) -> Command {
    if word == text("help") || word == text("?") {
        Command::Help
    } else if word == text("peek") {
        Command::Peek { width: 4 }
    } else if word == text("peek16") {
        Command::Peek { width: 2 }
    } else if word == text("peek8") {
        Command::Peek { width: 1 }
    } else if word == text("poke") {
        Command::Poke
    } else if word == text("dump") {
        Command::Dump
    } else if word == text("bp") {
        Command::Bp
    } else if word == text("watch") {
        Command::Watch
    } else if word == text("motors") {
        Command::Motors
    } else if word == text("dbgmon") {
        Command::Dbgmon
    } else if word == text("upload") {
        Command::Upload
    } else if word == text("run") {
        Command::Run
    } else if word == text("pause") {
        Command::Pause
    } else if word == text("resume") {
        Command::Resume
    } else if word == text("protect") {
        Command::Protect
    } else if word == text("unprotect") {
        Command::Unprotect
    } else if word == text("dfu") {
        Command::Dfu
    } else if word == text("reboot") {
        Command::Reboot
    } else if word == text("off") || word == text("poweroff") {
        Command::Off
    } else {
        Command::Unknown
    }
}

/// The command that a word names.
pub fn command_of(word: &[u8]) -> (c: Command)
    ensures
        c == command_named(word@),
{
    if word_is(word, "help") || word_is(word, "?") {
        Command::Help
    } else if word_is(word, "peek") {
        Command::Peek { width: 4 }
    } else if word_is(word, "peek16") {
        Command::Peek { width: 2 }
    } else if word_is(word, "peek8") {
        Command::Peek { width: 1 }
    } else if word_is(word, "poke") {
        Command::Poke
    } else if word_is(word, "dump") {
        Command::Dump
    } else if word_is(word, "bp") {
        Command::Bp
    } else if word_is(word, "watch") {
        Command::Watch
    } else if word_is(word, "motors") {
        Command::Motors
    } else if word_is(word, "dbgmon") {
        Command::Dbgmon
    } else if word_is(word, "upload") {
        Command::Upload
    } else if word_is(word, "run") {
        Command::Run
    } else if word_is(word, "pause") {
        Command::Pause
    } else if word_is(word, "resume") {
        Command::Resume
    } else if word_is(word, "protect") {
        Command::Protect
    } else if word_is(word, "unprotect") {
        Command::Unprotect
    } else if word_is(word, "dfu") {
        Command::Dfu
    } else if word_is(word, "reboot") {
        Command::Reboot
    } else if word_is(word, "off") || word_is(word, "poweroff") {
        Command::Off
    } else {
        Command::Unknown
    }
}

/// Lists the commands.
pub fn cmd_help() -> (p: Plan)
    ensures
        p@ == seq![say(HELP)],
{
    let mut p: Plan = Plan::new();
    p.say(HELP);
    p
}

/// Text sent, and time for it to go out.
pub open spec fn farewell_acts(s: &str) -> Seq<Act> {
    seq![say(s), Act::Flush { polls: FLUSH_POLLS }]
}

/// Sends a last message before the hub leaves the monitor.
pub fn farewell(s: &str) -> (p: Plan)
    ensures
        p@ == farewell_acts(s),
{
    let mut p: Plan = Plan::new();
    p.say(s);
    p.push(Op::Flush { polls: FLUSH_POLLS });
    p
}

/// What a command does first, given its name, its arguments and the tables.
pub open spec fn command_acts(
    word: Seq<u8>,
    args: Seq<Seq<u8>>,
    bp: Seq<Option<u32>>,
    watch: Seq<Option<u32>>,
) -> Seq<Act> {
    match command_named(word) {
        Command::Help => seq![say(HELP)],
        Command::Peek { width } => peek_acts(args, width),
        Command::Poke => poke_acts(args),
        Command::Dump => dump_acts(args),
        Command::Bp => bp_acts(args, bp),
        Command::Watch => watch_acts(args, watch),
        Command::Motors => motors_heading_acts(),
        Command::Dbgmon => seq![ld(SCB_DHCSR, 0)],
        Command::Upload => upload_begin_acts(),
        Command::Run => seq![ld(APP_ADDR, 0), ld(APP_ADDR, 4)],
        Command::Pause => pause_acts(),
        Command::Resume => go_on_acts(),
        Command::Protect => protect_acts(),
        Command::Unprotect => unprotect_acts(),
        Command::Dfu => farewell_acts("Entering DFU...\r\n") + request_dfu_acts(),
        Command::Reboot => farewell_acts("Rebooting...\r\n") + seq![Act::Reset],
        Command::Off => power_off_acts(),
        Command::Unknown => seq![
            say("Unknown: "),
            Act::Send(word),
            say(" (type 'help')\r\n"),
        ],
    }
}

/// What comes after the first plan of a command.
pub open spec fn command_next(c: Command) -> Next {
    match c {
        Command::Motors => Next::MotorModes,
        Command::Dbgmon => Next::DebugMonitor,
        Command::Upload => Next::Upload,
        Command::Run => Next::AppVector,
        Command::Dfu | Command::Reboot | Command::Off => Next::Gone,
        _ => Next::Done,
    }
}

/// What a line does first. A line of blanks does nothing.
pub open spec fn line_acts(
    line: Seq<u8>,
    bp: Seq<Option<u32>>,
    watch: Seq<Option<u32>>,
) -> Seq<Act> {
    let w = command_words(line);
    if w.len() == 0 {
        Seq::empty()
    } else {
        command_acts(w[0], w.skip(1), bp, watch)
    }
}

pub open spec fn line_next(line: Seq<u8>) -> Next {
    let w = command_words(line);
    if w.len() == 0 {
        Next::Done
    } else {
        command_next(command_named(w[0]))
    }
}

/// The breakpoints after a line: only `bp` changes them.
pub open spec fn line_bp(line: Seq<u8>, bp: Seq<Option<u32>>) -> Seq<Option<u32>> {
    let w = command_words(line);
    if w.len() > 0 && command_named(w[0]) == Command::Bp {
        bp_table(w.skip(1), bp)
    } else {
        bp
    }
}

/// The watchpoints after a line: only `watch` changes them.
pub open spec fn line_watch(line: Seq<u8>, watch: Seq<Option<u32>>) -> Seq<Option<u32>> {
    let w = command_words(line);
    if w.len() > 0 && command_named(w[0]) == Command::Watch {
        watch_table(w.skip(1), watch)
    } else {
        watch
    }
}

/// Runs a command line up to the point where it needs something loaded.
pub fn dispatch_command(
    line: &[u8],
    bp_addrs: &mut [Option<u32>; FPB_MAX_COMP],
    watch_addrs: &mut [Option<u32>; DWT_MAX_COMP],
) -> (s: Step)
    ensures
        s.plan@ == line_acts(line@, old(bp_addrs)@, old(watch_addrs)@),
        s.next == line_next(line@),
        final(bp_addrs)@ == line_bp(line@, old(bp_addrs)@),
        final(watch_addrs)@ == line_watch(line@, old(watch_addrs)@),
{
    let words: Vec<Vec<u8>> = split_words(line);
    let mut p: Plan = Plan::new();
    if words.len() == 0 {
        return Step { plan: p, next: Next::Done };
    }
    let args: &[Vec<u8>] = slice_subrange(words.as_slice(), 1, words.len());
    assert(contents(args@) =~= command_words(line@).skip(1));
    assert(contents(words@)[0] == words@[0]@);
    match command_of(words[0].as_slice()) {
        Command::Help => Step { plan: cmd_help(), next: Next::Done },
        Command::Peek { width } => Step { plan: cmd_peek(args, width), next: Next::Done },
        Command::Poke => Step { plan: cmd_poke(args), next: Next::Done },
        Command::Dump => Step { plan: cmd_dump(args), next: Next::Done },
        Command::Bp => Step { plan: cmd_bp(args, bp_addrs), next: Next::Done },
        Command::Watch => Step { plan: cmd_watch(args, watch_addrs), next: Next::Done },
        Command::Motors => Step { plan: cmd_motors(), next: Next::MotorModes },
        Command::Dbgmon => Step { plan: load_debug_status(), next: Next::DebugMonitor },
        Command::Upload => Step { plan: cmd_upload(), next: Next::Upload },
        Command::Run => {
            reg_load(&mut p, APP_ADDR, 0);
            reg_load(&mut p, APP_ADDR, 4);
            Step { plan: p, next: Next::AppVector }
        },
        Command::Pause => Step { plan: cmd_pause(), next: Next::Done },
        Command::Resume => Step { plan: cmd_resume(), next: Next::Done },
        Command::Protect => Step { plan: cmd_protect(), next: Next::Done },
        Command::Unprotect => Step { plan: cmd_unprotect(), next: Next::Done },
        Command::Dfu => {
            p = farewell("Entering DFU...\r\n");
            p.append(request_dfu());
            Step { plan: p, next: Next::Gone }
        },
        Command::Reboot => {
            p = farewell("Rebooting...\r\n");
            p.push(Op::Reset);
            Step { plan: p, next: Next::Gone }
        },
        Command::Off => Step { plan: power_off(), next: Next::Gone },
        Command::Unknown => {
            p.say("Unknown: ");
            p.say_bytes(words[0].as_slice());
            p.say(" (type 'help')\r\n");
            Step { plan: p, next: Next::Done }
        },
    }
}

// ---------------------------------------------------------------------------
// Commands that go on once something was loaded
// ---------------------------------------------------------------------------

/// What `dbgmon` does once the debug status is known.
pub open spec fn dbgmon_acts(dhcsr: u32) -> Seq<Act> {
    debug_monitor_enable_acts(dhcsr) + seq![
        if halting(dhcsr) {
            say("Cannot enable: halting debug is active\r\n")
        } else {
            say("DebugMonitor enabled (priority 0xFF)\r\n")
        },
    ]
}

/// Enables the DebugMonitor exception and says so, or says why it cannot.
pub fn cmd_dbgmon(dhcsr: u32) -> (p: Plan)
    ensures
        p@ == dbgmon_acts(dhcsr),
{
    let (ok, mut p) = debug_monitor_enable(dhcsr);
    if ok {
        p.say("DebugMonitor enabled (priority 0xFF)\r\n");
    } else {
        p.say("Cannot enable: halting debug is active\r\n");
    }
    p
}

/// The message for a sector that holds no application.
pub open spec fn no_app_acts(sp: u32, pc: u32) -> Seq<Act> {
    seq![
        say("No valid app at 0x08010000\r\n"),
        say("  SP=0x"),
        Act::Send(hex32(sp)),
        say(" PC=0x"),
        Act::Send(hex32(pc)),
        say("\r\n"),
    ]
}

/// What `run` does once the application's first two words are known.
pub open spec fn run_vector_acts(sp: u32, pc: u32) -> Seq<Act> {
    if app_valid(sp, pc) {
        seq![ld(SCB_DHCSR, 0)]
    } else {
        no_app_acts(sp, pc)
    }
}

pub open spec fn run_vector_next(sp: u32, pc: u32) -> Next {
    if app_valid(sp, pc) {
        Next::Arm { sp, pc }
    } else {
        Next::Done
    }
}

/// Goes on with `run` where the application is valid, else says what was found.
pub fn run_vector(sp: u32, pc: u32) -> (s: Step)
    ensures
        s.plan@ == run_vector_acts(sp, pc),
        s.next == run_vector_next(sp, pc),
{
    let mut p: Plan = Plan::new();
    if is_app_valid(sp, pc) {
        Step { plan: load_debug_status(), next: Next::Arm { sp, pc } }
    } else {
        p.say("No valid app at 0x08010000\r\n");
        p.say("  SP=0x");
        p.say_hex32(sp);
        p.say(" PC=0x");
        p.say_hex32(pc);
        p.say("\r\n");
        Step { plan: p, next: Next::Done }
    }
}

/// The handler published to the application, and the message.
pub open spec fn run_announce_acts(handler: u32) -> Seq<Act> {
    seq![
        wr(TRAMPOLINE_ADDR, 0, handler),
        say("Monitor armed. Center button = pause.\r\n"),
        say("Jumping to app...\r\n"),
        Act::Flush { polls: FLUSH_POLLS },
    ]
}

/// What `run` does with a valid application: the exception enabled where that
/// is possible, its handler published, the tick armed, and the jump.
pub open spec fn run_app_acts(sp: u32, pc: u32, dhcsr: u32, handlers: Handlers) -> Seq<Act> {
    debug_monitor_enable_acts(dhcsr) + run_announce_acts(handlers.debug) + arm_systick_acts(
        handlers.tick,
    ) + jump_to_app_acts(sp, pc)
}

fn run_announce(handler: u32) -> (p: Plan)
    ensures
        p@ == run_announce_acts(handler),
{
    let mut p: Plan = Plan::new();
    reg_write(&mut p, TRAMPOLINE_ADDR, 0, handler);
    p.say("Monitor armed. Center button = pause.\r\n");
    p.say("Jumping to app...\r\n");
    p.push(Op::Flush { polls: FLUSH_POLLS });
    p
}

/// Starts the application under the monitor.
pub fn run_app(sp: u32, pc: u32, dhcsr: u32, handlers: Handlers) -> (p: Plan)
    ensures
        p@ == run_app_acts(sp, pc, dhcsr, handlers),
{
    let (_, mut p) = debug_monitor_enable(dhcsr);
    p.append(run_announce(handlers.debug));
    p.append(arm_systick(handlers.tick));
    p.append(jump_to_app(sp, pc));
    p
}

/// What `status` tells of an application that runs.
pub open spec fn status_acts(ccmr: u32) -> Seq<Act> {
    seq![
        if frozen(ccmr) {
            say("App running, motors frozen\r\n")
        } else {
            say("App running\r\n")
        },
    ]
}

/// Tells the state of the application that runs.
pub fn cmd_status(ccmr: u32) -> (p: Plan)
    ensures
        p@ == status_acts(ccmr),
{
    let mut p: Plan = Plan::new();
    if is_frozen(ccmr) {
        p.say("App running, motors frozen\r\n");
    } else {
        p.say("App running\r\n");
    }
    p
}

/// What a command does once its loads are in. `loaded` holds them in order.
pub open spec fn resume_acts(next: Next, loaded: Seq<u32>, handlers: Handlers) -> Seq<Act> {
    match next {
        Next::DebugMonitor => dbgmon_acts(loaded[0]),
        Next::AppVector => run_vector_acts(loaded[0], loaded[1]),
        Next::Arm { sp, pc } => run_app_acts(sp, pc, loaded[0], handlers),
        Next::MotorModes => motors_modes_acts(loaded[0]),
        Next::MotorFunctions => motors_functions_acts(loaded[0]),
        Next::MotorFlags => motors_flags_acts(loaded[0], loaded[1], loaded[2]),
        Next::MotorBankB => bank_b_acts(loaded[0], loaded[1], loaded[2]),
        Next::MotorBankC => bank_c_acts(loaded[0], loaded[1], loaded[2]),
        Next::MotorTimer4 => timer4_acts(loaded[0], loaded[1]),
        Next::MotorTimer3 => timer3_acts(loaded[0], loaded[1]),
        Next::Status => status_acts(loaded[0]),
        _ => Seq::empty(),
    }
}

pub open spec fn resume_next(next: Next, loaded: Seq<u32>) -> Next {
    match next {
        Next::AppVector => run_vector_next(loaded[0], loaded[1]),
        Next::Arm { .. } => Next::Gone,
        Next::MotorModes => Next::MotorFunctions,
        Next::MotorFunctions => Next::MotorFlags,
        Next::MotorFlags => Next::MotorBankB,
        Next::MotorBankB => Next::MotorBankC,
        Next::MotorBankC => Next::MotorTimer4,
        Next::MotorTimer4 => Next::MotorTimer3,
        Next::Return => Next::Return,
        Next::Gone => Next::Gone,
        _ => Next::Done,
    }
}

/// Goes on with a command. An upload that is over, and a command that is done,
/// have nothing left to do.
pub fn resume(next: Next, loaded: [u32; 3], handlers: Handlers) -> (s: Step)
    ensures
        s.plan@ == resume_acts(next, loaded@, handlers),
        s.next == resume_next(next, loaded@),
{
    match next {
        Next::DebugMonitor => Step { plan: cmd_dbgmon(loaded[0]), next: Next::Done },
        Next::AppVector => run_vector(loaded[0], loaded[1]),
        Next::Arm { sp, pc } => Step {
            plan: run_app(sp, pc, loaded[0], handlers),
            next: Next::Gone,
        },
        Next::MotorModes => Step { plan: motors_modes(loaded[0]), next: Next::MotorFunctions },
        Next::MotorFunctions => Step { plan: motors_functions(loaded[0]), next: Next::MotorFlags },
        Next::MotorFlags => Step {
            plan: motors_flags(loaded[0], loaded[1], loaded[2]),
            next: Next::MotorBankB,
        },
        Next::MotorBankB => Step {
            plan: motors_bank_b(loaded[0], loaded[1], loaded[2]),
            next: Next::MotorBankC,
        },
        Next::MotorBankC => Step {
            plan: motors_bank_c(loaded[0], loaded[1], loaded[2]),
            next: Next::MotorTimer4,
        },
        Next::MotorTimer4 => Step {
            plan: motors_timer4(loaded[0], loaded[1]),
            next: Next::MotorTimer3,
        },
        Next::MotorTimer3 => Step { plan: motors_timer3(loaded[0], loaded[1]), next: Next::Done },
        Next::Status => Step { plan: cmd_status(loaded[0]), next: Next::Done },
        Next::Return => Step { plan: Plan::new(), next: Next::Return },
        Next::Gone => Step { plan: Plan::new(), next: Next::Gone },
        Next::Done | Next::Upload => Step { plan: Plan::new(), next: Next::Done },
    }
}

// ---------------------------------------------------------------------------
// What the commands promise
// ---------------------------------------------------------------------------

/// Every documented name reaches its command.
pub proof fn names_reach_commands()
    ensures
        command_named(text("help")) == Command::Help,
        command_named(text("?")) == Command::Help,
        command_named(text("peek")) == (Command::Peek { width: 4 }),
        command_named(text("peek16")) == (Command::Peek { width: 2 }),
        command_named(text("peek8")) == (Command::Peek { width: 1 }),
        command_named(text("poke")) == Command::Poke,
        command_named(text("dump")) == Command::Dump,
        command_named(text("bp")) == Command::Bp,
        command_named(text("watch")) == Command::Watch,
        command_named(text("motors")) == Command::Motors,
        command_named(text("dbgmon")) == Command::Dbgmon,
        command_named(text("upload")) == Command::Upload,
        command_named(text("run")) == Command::Run,
        command_named(text("pause")) == Command::Pause,
        command_named(text("resume")) == Command::Resume,
        command_named(text("protect")) == Command::Protect,
        command_named(text("unprotect")) == Command::Unprotect,
        command_named(text("dfu")) == Command::Dfu,
        command_named(text("reboot")) == Command::Reboot,
        command_named(text("off")) == Command::Off,
        command_named(text("poweroff")) == Command::Off,
{
    reveal_strlit("help");
    reveal_strlit("?");
    reveal_strlit("peek");
    reveal_strlit("peek16");
    reveal_strlit("peek8");
    reveal_strlit("poke");
    reveal_strlit("dump");
    reveal_strlit("bp");
    reveal_strlit("watch");
    reveal_strlit("motors");
    reveal_strlit("dbgmon");
    reveal_strlit("upload");
    reveal_strlit("run");
    reveal_strlit("pause");
    reveal_strlit("resume");
    reveal_strlit("protect");
    reveal_strlit("unprotect");
    reveal_strlit("dfu");
    reveal_strlit("reboot");
    reveal_strlit("off");
    reveal_strlit("poweroff");
    assert("help".is_ascii() && "?".is_ascii() && "peek".is_ascii() && "peek16".is_ascii()
        && "peek8".is_ascii() && "poke".is_ascii() && "dump".is_ascii() && "bp".is_ascii());
    assert("watch".is_ascii() && "motors".is_ascii() && "dbgmon".is_ascii() && "upload".is_ascii()
        && "run".is_ascii() && "dfu".is_ascii() && "reboot".is_ascii() && "off".is_ascii()
        && "poweroff".is_ascii());
    assert("pause".is_ascii() && "resume".is_ascii() && "protect".is_ascii()
        && "unprotect".is_ascii());
    // Names of one length differ in a letter: (help, peek, poke, dump), (peek8, watch,
    // pause), (peek16, motors, dbgmon, upload, reboot, resume), (run, dfu, off).
    assert(text("pause")[1] == 97 && text("peek8")[1] == 101 && text("pause")[0] == 112);
    assert(text("reboot")[2] == 98 && text("resume")[2] == 115 && text("resume")[0] == 114);
    assert(text("pause").len() == 5 && text("resume").len() == 6 && text("protect").len() == 7
        && text("unprotect").len() == 9);
    assert(text("help")[0] == 104 && text("peek")[0] == 112 && text("poke")[0] == 112 && text(
        "dump",
    )[0] == 100);
    assert(text("peek")[1] == 101 && text("poke")[1] == 111);
    assert(text("peek8")[0] == 112 && text("watch")[0] == 119);
    assert(text("peek16")[0] == 112 && text("motors")[0] == 109 && text("dbgmon")[0] == 100
        && text("upload")[0] == 117 && text("reboot")[0] == 114);
    assert(text("run")[0] == 114 && text("dfu")[0] == 100 && text("off")[0] == 111);
    assert(text("help").len() == 4 && text("?").len() == 1 && text("peek").len() == 4 && text(
        "peek16",
    ).len() == 6 && text("peek8").len() == 5 && text("poke").len() == 4 && text("dump").len() == 4
        && text("bp").len() == 2);
    assert(text("watch").len() == 5 && text("motors").len() == 6 && text("dbgmon").len() == 6
        && text("upload").len() == 6 && text("run").len() == 3 && text("dfu").len() == 3 && text(
        "reboot",
    ).len() == 6 && text("off").len() == 3 && text("poweroff").len() == 8);
}

/// The commands that need something loaded, and those that only tell, only look.
pub proof fn short_commands_look(word: Seq<u8>)
    ensures
        looks(seq![say(HELP)]),
        looks(motors_heading_acts()),
        looks(seq![ld(SCB_DHCSR, 0)]),
        looks(seq![ld(APP_ADDR, 0), ld(APP_ADDR, 4)]),
        looks(seq![say("Unknown: "), Act::Send(word), say(" (type 'help')\r\n")]),
{
}

proof fn changing_commands_stay(args: Seq<Seq<u8>>)
    ensures
        stays(poke_acts(args)),
        stays(upload_begin_acts()),
        stays(pause_acts()),
        stays(go_on_acts()),
        stays(protect_acts()),
        stays(unprotect_acts()),
{
}

proof fn last_commands_leave(s: &str)
    ensures
        leaves((farewell_acts(s) + request_dfu_acts()).last()),
        leaves((farewell_acts(s) + seq![Act::Reset]).last()),
        leaves(power_off_acts().last()),
{
}

proof fn looking_stays(acts: Seq<Act>)
    requires
        looks(acts),
    ensures
        stays(acts),
{
    looking_is_harmless(acts, Map::empty());
}

/// A command leaves the monitor exactly where its step says that it does.
pub proof fn only_leaving_commands_leave(
    word: Seq<u8>,
    args: Seq<Seq<u8>>,
    bp: Seq<Option<u32>>,
    watch: Seq<Option<u32>>,
)
    ensures
        command_next(command_named(word)) != Next::Gone ==> stays(
            command_acts(word, args, bp, watch),
        ),
        command_next(command_named(word)) == Next::Gone ==> leaves(
            command_acts(word, args, bp, watch).last(),
        ),
{
    let acts = command_acts(word, args, bp, watch);
    let c = command_named(word);
    if let Command::Peek { width } = c {
        inspection_looks(args, width);
        looking_stays(acts);
    } else if c == Command::Dump {
        inspection_looks(args, 1);
        looking_stays(acts);
    } else if c == Command::Bp {
        bp_writes_breakpoint_unit_only(args, bp);
        within_stays(acts, FPB_CTRL, FPB_END);
    } else if c == Command::Watch {
        watch_writes_comparators_only(args, watch);
        within_stays(acts, DWT_COMP_BASE, DWT_END);
    } else if command_next(c) == Next::Gone {
        last_commands_leave("Entering DFU...\r\n");
        last_commands_leave("Rebooting...\r\n");
    } else if c is Poke || c is Upload || c is Pause || c is Resume || c is Protect
        || c is Unprotect {
        changing_commands_stay(args);
    } else {
        short_commands_look(word);
        looking_stays(acts);
    }
}

/// `help`, `peek`, `dump`, `motors` and an unknown command change no register.
pub proof fn looking_commands_look(
    word: Seq<u8>,
    args: Seq<Seq<u8>>,
    bp: Seq<Option<u32>>,
    watch: Seq<Option<u32>>,
    regs: Regs,
)
    requires
        ({
            let c = command_named(word);
            c is Help || c is Peek || c is Dump || c is Motors || c is Unknown
        }),
    ensures
        run(command_acts(word, args, bp, watch), regs) == regs,
{
    let acts = command_acts(word, args, bp, watch);
    if let Command::Peek { width } = command_named(word) {
        inspection_looks(args, width);
    } else if command_named(word) == Command::Dump {
        inspection_looks(args, 1);
    } else {
        short_commands_look(word);
    }
    looking_is_harmless(acts, regs);
}

/// `run` starts the application that is there, and only a valid one: it goes on
/// for a valid vector alone, and then ends in the jump to exactly that vector.
pub proof fn run_starts_only_valid_app(sp: u32, pc: u32, dhcsr: u32, handlers: Handlers)
    ensures
        run_vector_next(sp, pc) == (Next::Arm { sp, pc }) <==> app_valid(sp, pc),
        looks(run_vector_acts(sp, pc)),
        run_app_acts(sp, pc, dhcsr, handlers).last() == (Act::Launch { sp, pc, irqs: true }),
        stays(run_app_acts(sp, pc, dhcsr, handlers).drop_last()),
{
}

/// When the application starts, its vector table is in use, the tick runs, and
/// both handlers of the monitor can be found where applications look for them.
pub proof fn run_leaves_monitor_reachable(
    sp: u32,
    pc: u32,
    dhcsr: u32,
    handlers: Handlers,
    regs: Regs,
)
    ensures
        ({
            let after = run(run_app_acts(sp, pc, dhcsr, handlers), regs);
            &&& after[TRAMPOLINE_ADDR] == handlers.debug
            &&& after[SYSTICK_TRAMPOLINE] == handlers.tick
            &&& after[SYST_CSR] == 0x7
            &&& after[SYST_RVR] == TICK_RELOAD
            &&& after[SCB_VTOR] == APP_ADDR
        }),
{
    broadcast use group_run;

    reveal_with_fuel(run_upto, 6);
}

/// `protect` leaves flash sectors 0 to 3 protected, and `unprotect` leaves them
/// writable.
pub proof fn protect_protects(
    args: Seq<Seq<u8>>,
    bp: Seq<Option<u32>>,
    watch: Seq<Option<u32>>,
    regs: Regs,
)
    ensures
        ({
            let on = run(command_acts(text("protect"), args, bp, watch), regs);
            let off = run(command_acts(text("unprotect"), args, bp, watch), regs);
            &&& on[at(FLASH_R, FLASH_OPTCR)] & WRP_SECTORS == 0
            &&& off[at(FLASH_R, FLASH_OPTCR)] & WRP_SECTORS == WRP_SECTORS
        }),
{
    broadcast use group_run;

    names_reach_commands();
    write_protection_is_set(true, regs);
    write_protection_is_set(false, regs);
}

/// `pause` freezes the motors of all ports, and `resume` lets them go on.
pub proof fn pause_freezes(
    args: Seq<Seq<u8>>,
    bp: Seq<Option<u32>>,
    watch: Seq<Option<u32>>,
    regs: Regs,
)
    ensures
        channels_in(run(command_acts(text("pause"), args, bp, watch), regs), FORCED_INACTIVE),
        channels_in(run(command_acts(text("resume"), args, bp, watch), regs), PWM_MODE),
{
    broadcast use group_run;

    names_reach_commands();
    freeze_stops_all_ports(regs);
    unfreeze_drives_all_ports(regs);
}

/// Only the first words of a line count: two lines that share them do the same,
/// go on alike and leave the same tables, whatever else they hold.
pub proof fn first_words_decide(
    a: Seq<u8>,
    b: Seq<u8>,
    bp: Seq<Option<u32>>,
    watch: Seq<Option<u32>>,
)
    requires
        words(a) == words(b) || (words(a).len() >= MAX_WORDS && words(b).len() >= MAX_WORDS
            && words(a).take(MAX_WORDS as int) == words(b).take(MAX_WORDS as int)),
    ensures
        line_acts(a, bp, watch) == line_acts(b, bp, watch),
        line_next(a) == line_next(b),
        line_bp(a, bp) == line_bp(b, bp),
        line_watch(a, watch) == line_watch(b, watch),
{
    let n = MAX_WORDS as int;
    assert(words(a).len() == n ==> words(a).take(n) =~= words(a));
    assert(words(b).len() == n ==> words(b).take(n) =~= words(b));
    assert(command_words(a) == command_words(b));
}

/// The `dfu` command leaves the magic word that the next boot looks for.
pub proof fn dfu_leaves_magic(regs: Regs)
    ensures
        ({
            let acts = farewell_acts("Entering DFU...\r\n") + request_dfu_acts();
            &&& run(acts, regs)[DFU_MAGIC_ADDR] == DFU_MAGIC_VALUE
            &&& acts.last() == Act::Reset
        }),
{
    broadcast use group_run;

    reveal_with_fuel(run_upto, 3);
}

// ---------------------------------------------------------------------------
// What a line does, by its first word
// ---------------------------------------------------------------------------

/// A line does what the command does that its first word names, with the words behind it
/// for arguments; the commands that need something loaded load it first.
#[verifier::rlimit(50)]
pub proof fn first_word_names_command(
    line: Seq<u8>,
    bp: Seq<Option<u32>>,
    watch: Seq<Option<u32>>,
)
    requires
        command_words(line).len() > 0,
    ensures
        ({
            let w = command_words(line);
            &&& w[0] == text("help") ==> line_acts(line, bp, watch) == seq![say(HELP)]
                && line_next(line) == Next::Done
            &&& w[0] == text("?") ==> line_acts(line, bp, watch) == seq![say(HELP)]
                && line_next(line) == Next::Done
            &&& w[0] == text("peek") ==> line_acts(line, bp, watch) == peek_acts(w.skip(1), 4)
                && line_next(line) == Next::Done
            &&& w[0] == text("peek16") ==> line_acts(line, bp, watch) == peek_acts(w.skip(1), 2)
                && line_next(line) == Next::Done
            &&& w[0] == text("peek8") ==> line_acts(line, bp, watch) == peek_acts(w.skip(1), 1)
                && line_next(line) == Next::Done
            &&& w[0] == text("poke") ==> line_acts(line, bp, watch) == poke_acts(w.skip(1))
                && line_next(line) == Next::Done
            &&& w[0] == text("dump") ==> line_acts(line, bp, watch) == dump_acts(w.skip(1))
                && line_next(line) == Next::Done
            &&& w[0] == text("bp") ==> line_acts(line, bp, watch) == bp_acts(w.skip(1), bp)
                && line_next(line) == Next::Done
            &&& w[0] == text("watch") ==> line_acts(line, bp, watch) == watch_acts(w.skip(1), watch)
                && line_next(line) == Next::Done
            &&& w[0] == text("motors") ==> line_acts(line, bp, watch) == motors_heading_acts()
                && line_next(line) == Next::MotorModes
            &&& w[0] == text("dbgmon") ==> line_acts(line, bp, watch) == seq![
                Act::Load { addr: 0xE000_EDF0 },
            ] && line_next(line) == Next::DebugMonitor
            &&& w[0] == text("upload") ==> line_acts(line, bp, watch) == upload_begin_acts()
                && line_next(line) == Next::Upload
            &&& w[0] == text("run") ==> line_acts(line, bp, watch) == seq![
                Act::Load { addr: 0x0801_0000 },
                Act::Load { addr: 0x0801_0004 },
            ] && line_next(line) == Next::AppVector
            &&& w[0] == text("pause") ==> line_acts(line, bp, watch) == pause_acts()
                && line_next(line) == Next::Done
            &&& w[0] == text("resume") ==> line_acts(line, bp, watch) == go_on_acts()
                && line_next(line) == Next::Done
            &&& w[0] == text("protect") ==> line_acts(line, bp, watch) == protect_acts()
                && line_next(line) == Next::Done
            &&& w[0] == text("unprotect") ==> line_acts(line, bp, watch) == unprotect_acts()
                && line_next(line) == Next::Done
            &&& w[0] != text("bp") ==> line_bp(line, bp) == bp
            &&& w[0] == text("bp") ==> line_bp(line, bp) == bp_table(w.skip(1), bp)
            &&& w[0] != text("watch") ==> line_watch(line, watch) == watch
            &&& w[0] == text("watch") ==> line_watch(line, watch) == watch_table(w.skip(1), watch)
        }),
{
    names_reach_commands();
}

/// The commands that leave the monitor: `dfu` leaves 0xDEADB007 at 0x2004FFF0 and resets,
/// `reboot` resets, `off` and `poweroff` reset pin 13 of port A and sleep. The first two say
/// so before.
#[verifier::rlimit(50)]
pub proof fn last_words_leave(
    line: Seq<u8>,
    bp: Seq<Option<u32>>,
    watch: Seq<Option<u32>>,
    mem: Memory,
)
    requires
        command_words(line).len() > 0,
    ensures
        ({
            let w = command_words(line);
            let acts = line_acts(line, bp, watch);
            &&& w[0] == text("dfu") ==> {
                &&& line_next(line) == Next::Gone
                &&& acts.len() == 4
                &&& acts[1] == (Act::Flush { polls: 50_000 })
                &&& acts[2] == (Act::Write { addr: 0x2004_FFF0, val: 0xDEAD_B007 })
                &&& acts[3] == Act::Reset
                &&& output(acts, mem) == text("Entering DFU...\r\n")
            }
            &&& w[0] == text("reboot") ==> {
                &&& line_next(line) == Next::Gone
                &&& acts.len() == 3
                &&& acts[1] == (Act::Flush { polls: 50_000 })
                &&& acts[2] == Act::Reset
                &&& output(acts, mem) == text("Rebooting...\r\n")
            }
            &&& w[0] == text("off") || w[0] == text("poweroff") ==> {
                &&& line_next(line) == Next::Gone
                &&& acts == seq![Act::Write { addr: 0x4002_0018, val: 0x2000_0000 }, Act::Sleep]
            }
        }),
{
    names_reach_commands();
    leaving_is_announced(mem);
    bit_values();
}

proof fn leaving_is_announced(mem: Memory)
    ensures
        output(farewell_acts("Entering DFU...\r\n") + request_dfu_acts(), mem) == text(
            "Entering DFU...\r\n",
        ),
        output(farewell_acts("Rebooting...\r\n") + seq![Act::Reset], mem) == text(
            "Rebooting...\r\n",
        ),
{
    reveal_with_fuel(output_upto, 5);
    assert(output(farewell_acts("Entering DFU...\r\n") + request_dfu_acts(), mem) =~= text(
        "Entering DFU...\r\n",
    ));
    assert(output(farewell_acts("Rebooting...\r\n") + seq![Act::Reset], mem) =~= text(
        "Rebooting...\r\n",
    ));
}

/// Any other first word is called unknown, and nothing else happens.
#[verifier::rlimit(50)]
pub proof fn other_words_are_unknown(
    line: Seq<u8>,
    bp: Seq<Option<u32>>,
    watch: Seq<Option<u32>>,
    mem: Memory,
    regs: Regs,
)
    requires
        command_words(line).len() > 0,
        ({
            let word = command_words(line)[0];
            &&& word != text("help")
            &&& word != text("?")
            &&& word != text("peek")
            &&& word != text("peek16")
            &&& word != text("peek8")
            &&& word != text("poke")
            &&& word != text("dump")
            &&& word != text("bp")
            &&& word != text("watch")
            &&& word != text("motors")
            &&& word != text("dbgmon")
            &&& word != text("upload")
            &&& word != text("run")
            &&& word != text("pause")
            &&& word != text("resume")
            &&& word != text("protect")
            &&& word != text("unprotect")
            &&& word != text("dfu")
            &&& word != text("reboot")
            &&& word != text("off")
            &&& word != text("poweroff")
        }),
    ensures
        output(line_acts(line, bp, watch), mem) == text("Unknown: ") + command_words(line)[0]
            + text(" (type 'help')\r\n"),
        run(line_acts(line, bp, watch), regs) == regs,
        line_next(line) == Next::Done,
{
    let word = command_words(line)[0];
    let acts = seq![say("Unknown: "), Act::Send(word), say(" (type 'help')\r\n")];
    assert(command_named(word) == Command::Unknown);
    assert(line_acts(line, bp, watch) == acts);
    reveal_with_fuel(output_upto, 4);
    reveal_with_fuel(run_upto, 4);
    assert(output(acts, mem) =~= text("Unknown: ") + word + text(" (type 'help')\r\n"));
}

/// A line of blanks does nothing.
pub proof fn blank_lines_do_nothing(
    line: Seq<u8>,
    bp: Seq<Option<u32>>,
    watch: Seq<Option<u32>>,
)
    requires
        forall|i: int| 0 <= i < line.len() ==> #[trigger] line[i] == 0x20 || line[i] == 0x09,
    ensures
        line_acts(line, bp, watch) == Seq::<Act>::empty(),
        line_next(line) == Next::Done,
        line_bp(line, bp) == bp,
        line_watch(line, watch) == watch,
{
    assert forall|i: int| 0 <= i < line.len() implies is_blank(#[trigger] line[i]) by {}
    blank_line_has_no_words(line);
}

/// `run` goes on exactly where the application's first word lies from 0x20000000 to
/// 0x20050000 and its second from 0x08010000 to 0x08100000; else it tells what it found.
pub proof fn run_checks_addresses(sp: u32, pc: u32, handlers: Handlers, mem: Memory)
    ensures
        ({
            let loaded = seq![sp, pc, 0u32];
            let acts = resume_acts(Next::AppVector, loaded, handlers);
            let next = resume_next(Next::AppVector, loaded);
            if 0x2000_0000 <= sp && sp <= 0x2005_0000 && 0x0801_0000 <= pc && pc <= 0x0810_0000 {
                &&& next == (Next::Arm { sp, pc })
                &&& acts == seq![Act::Load { addr: 0xE000_EDF0 }]
            } else {
                &&& next == Next::Done
                &&& output(acts, mem) == text("No valid app at 0x08010000\r\n") + text("  SP=0x")
                    + hex32(sp) + text(" PC=0x") + hex32(pc) + text("\r\n")
            }
        }),
{
    reveal_with_fuel(output_upto, 7);
    assert(output(no_app_acts(sp, pc), mem) =~= text("No valid app at 0x08010000\r\n") + text(
        "  SP=0x",
    ) + hex32(sp) + text(" PC=0x") + hex32(pc) + text("\r\n"));
}

/// What `run` leaves when it jumps: the handlers at 0x2004FFE0 and 0x2004FFE4, the tick on
/// every 96000 cycles, the application's vector table, and, unless a probe has halting debug
/// on, the DebugMonitor exception enabled at the lowest priority.
pub proof fn run_arms_by_address(sp: u32, pc: u32, dhcsr: u32, handlers: Handlers, regs: Regs)
    ensures
        ({
            let acts = resume_acts(Next::Arm { sp, pc }, seq![dhcsr, 0u32, 0u32], handlers);
            let after = run(acts, regs);
            &&& resume_next(Next::Arm { sp, pc }, seq![dhcsr, 0u32, 0u32]) == Next::Gone
            &&& acts.last() == (Act::Launch { sp, pc, irqs: true })
            &&& after[0x2004_FFE0u32] == handlers.debug
            &&& after[0x2004_FFE4u32] == handlers.tick
            &&& after[0xE000_E010u32] == 7
            &&& after[0xE000_E014u32] == 95_999
            &&& after[0xE000_E018u32] == 0
            &&& after[0xE000_ED08u32] == 0x0801_0000
            &&& after[0xE000_EDFCu32] == if dhcsr % 2 == 0 {
                regs[0xE000_EDFCu32] | 0x1_0000
            } else {
                regs[0xE000_EDFCu32]
            }
            &&& after[0xE000_ED20u32] == if dhcsr % 2 == 0 {
                regs[0xE000_ED20u32] | 0xFF
            } else {
                regs[0xE000_ED20u32]
            }
        }),
{
    broadcast use group_run;

    reveal_with_fuel(run_upto, 6);
    enabling_sets_bits(dhcsr, regs);
}

proof fn enabling_sets_bits(dhcsr: u32, regs: Regs)
    ensures
        ({
            let after = run(debug_monitor_enable_acts(dhcsr), regs);
            &&& after[0xE000_EDFCu32] == if dhcsr % 2 == 0 {
                regs[0xE000_EDFCu32] | 0x1_0000
            } else {
                regs[0xE000_EDFCu32]
            }
            &&& after[0xE000_ED20u32] == if dhcsr % 2 == 0 {
                regs[0xE000_ED20u32] | 0xFF
            } else {
                regs[0xE000_ED20u32]
            }
        }),
{
    let d = regs[0xE000_EDFCu32];
    let p = regs[0xE000_ED20u32];
    assert((d & !0u32) | (1u32 << 16) == d | 0x1_0000 && (p & !0xFFu32) | 0xFF == p | 0xFF && (
    dhcsr & 1 != 0 <==> dhcsr % 2 != 0)) by (bit_vector);
    reveal_with_fuel(run_upto, 3);
}

/// `dbgmon` enables the exception unless a probe has halting debug on, and says which it
/// was.
pub proof fn dbgmon_enables_unless_halting(dhcsr: u32, handlers: Handlers, regs: Regs, mem: Memory)
    ensures
        ({
            let loaded = seq![dhcsr, 0u32, 0u32];
            let acts = resume_acts(Next::DebugMonitor, loaded, handlers);
            let after = run(acts, regs);
            &&& resume_next(Next::DebugMonitor, loaded) == Next::Done
            &&& dhcsr % 2 == 0 ==> {
                &&& after[0xE000_EDFCu32] == regs[0xE000_EDFCu32] | 0x1_0000
                &&& after[0xE000_ED20u32] == regs[0xE000_ED20u32] | 0xFF
                &&& output(acts, mem) == text("DebugMonitor enabled (priority 0xFF)\r\n")
            }
            &&& dhcsr % 2 != 0 ==> {
                &&& after == regs
                &&& output(acts, mem) == text("Cannot enable: halting debug is active\r\n")
            }
        }),
{
    broadcast use group_run;

    enabling_sets_bits(dhcsr, regs);
    reveal_with_fuel(run_upto, 3);
    reveal_with_fuel(output_upto, 4);
    fields_by_division(dhcsr);
    let acts = dbgmon_acts(dhcsr);
    assert(output(acts, mem) =~= if dhcsr % 2 == 0 {
        text("DebugMonitor enabled (priority 0xFF)\r\n")
    } else {
        text("Cannot enable: halting debug is active\r\n")
    });
}

/// `motors` goes through its parts in their order, `status` tells whether the channels of
/// the motor timer are forced inactive, and what is done has nothing left to do.
pub proof fn commands_go_on_in_order(loaded: Seq<u32>, handlers: Handlers, mem: Memory)
    requires
        loaded.len() == 3,
    ensures
        resume_acts(Next::MotorModes, loaded, handlers) == motors_modes_acts(loaded[0]),
        resume_next(Next::MotorModes, loaded) == Next::MotorFunctions,
        resume_acts(Next::MotorFunctions, loaded, handlers) == motors_functions_acts(loaded[0]),
        resume_next(Next::MotorFunctions, loaded) == Next::MotorFlags,
        resume_acts(Next::MotorFlags, loaded, handlers) == motors_flags_acts(
            loaded[0],
            loaded[1],
            loaded[2],
        ),
        resume_next(Next::MotorFlags, loaded) == Next::MotorBankB,
        resume_acts(Next::MotorBankB, loaded, handlers) == bank_b_acts(
            loaded[0],
            loaded[1],
            loaded[2],
        ),
        resume_next(Next::MotorBankB, loaded) == Next::MotorBankC,
        resume_acts(Next::MotorBankC, loaded, handlers) == bank_c_acts(
            loaded[0],
            loaded[1],
            loaded[2],
        ),
        resume_next(Next::MotorBankC, loaded) == Next::MotorTimer4,
        resume_acts(Next::MotorTimer4, loaded, handlers) == timer4_acts(loaded[0], loaded[1]),
        resume_next(Next::MotorTimer4, loaded) == Next::MotorTimer3,
        resume_acts(Next::MotorTimer3, loaded, handlers) == timer3_acts(loaded[0], loaded[1]),
        resume_next(Next::MotorTimer3, loaded) == Next::Done,
        output(resume_acts(Next::Status, loaded, handlers), mem) == if loaded[0] & 0x7070
            == 0x4040 {
            text("App running, motors frozen\r\n")
        } else {
            text("App running\r\n")
        },
        resume_next(Next::Status, loaded) == Next::Done,
        resume_acts(Next::Done, loaded, handlers).len() == 0,
        resume_acts(Next::Upload, loaded, handlers).len() == 0,
        resume_acts(Next::Return, loaded, handlers).len() == 0,
        resume_acts(Next::Gone, loaded, handlers).len() == 0,
        resume_next(Next::Upload, loaded) == Next::Done,
        resume_next(Next::Return, loaded) == Next::Return,
        resume_next(Next::Gone, loaded) == Next::Gone,
{
    reveal_with_fuel(output_upto, 2);
    assert(output(status_acts(loaded[0]), mem) =~= if loaded[0] & 0x7070 == 0x4040 {
        text("App running, motors frozen\r\n")
    } else {
        text("App running\r\n")
    });
}

/// An application starts with the exception enabled where that is possible, its handler at
/// 0x2004FFE0, both messages out on the line, the tick armed, and the jump, in this order.
pub proof fn run_starts_in_order(sp: u32, pc: u32, dhcsr: u32, handlers: Handlers)
    ensures
        run_app_acts(sp, pc, dhcsr, handlers) == debug_monitor_enable_acts(dhcsr) + seq![
            Act::Write { addr: 0x2004_FFE0, val: handlers.debug },
            say("Monitor armed. Center button = pause.\r\n"),
            say("Jumping to app...\r\n"),
            Act::Flush { polls: 50_000 },
        ] + arm_systick_acts(handlers.tick) + jump_to_app_acts(sp, pc),
{
}

/// The help, in full.
pub proof fn help_in_full()
    ensures
        HELP@ == "LEGO Hub Monitor v0.2\r\n\
Commands:\r\n\
\x20 help              Show this help\r\n\
\x20 peek <addr>       Read 32-bit word\r\n\
\x20 peek16 <addr>     Read 16-bit half-word\r\n\
\x20 peek8 <addr>      Read byte\r\n\
\x20 poke <addr> <val> Write 32-bit word\r\n\
\x20 dump <addr> <len> Hex dump (max 256 bytes)\r\n\
\x20 bp <addr>         Set HW breakpoint (FPB, max 6)\r\n\
\x20 bp clear [id]     Clear breakpoint(s)\r\n\
\x20 bp list           List active breakpoints\r\n\
\x20 watch <addr>      Set data watchpoint (DWT, max 4)\r\n\
\x20 watch clear [id]  Clear watchpoint(s)\r\n\
\x20 watch list        List active watchpoints\r\n\
\x20 motors            Dump motor GPIO/TIM1 config\r\n\
\x20 dbgmon            Enable DebugMonitor exception\r\n\
\x20 upload            Flash app binary (serial)\r\n\
\x20 run               Arm monitor + jump to app\r\n\
\x20                   (center button = pause)\r\n\
\x20 pause             Freeze motors\r\n\
\x20 resume            Let frozen motors go on\r\n\
\x20 protect           Enable flash WRP (sectors 0-3)\r\n\
\x20 unprotect         Disable flash WRP (for DFU updates)\r\n\
\x20 off / poweroff    Power off hub (release PA13)\r\n\
\x20 dfu               Enter STM32 system DFU\r\n\
\x20 reboot            Reset MCU\r\n\
While app runs:\r\n\
\x20 stop / kill       Stop app, return to monitor\r\n\
\x20 status            Show app state\r\n\
\x20 Ctrl+C            Emergency stop\r\n\
In breakpoint (dbg>):\r\n\
\x20 cont / c          Continue execution\r\n\
\x20 stop              Stop app, reboot to monitor\r\n\
\x20 step / s          Single-step one instruction\r\n\
\x20 regs              Show saved registers\r\n\
\x20 set <reg> <val>   Modify register (r0-r3,r12,lr,pc)\r\n"@,
{
}

} // verus!
