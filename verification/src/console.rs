//! The console: the monitor's shell, the debugger that takes over at a breakpoint,
//! and the shell that the tick serves while an application runs.
use crate::button::Tick;
use crate::command::{
    dispatch_command, farewell, farewell_acts, line_acts, line_bp, line_next, line_watch,
    names_reach_commands, resume, resume_acts, resume_next, Handlers, Next, Step,
};
use crate::debug::{MON_PEND, MON_STEP};
use crate::freeze::{freeze_acts, motor_freeze};
use crate::hex::{hex32, hex8, hex_number, parse_hex};
use crate::memory::{byte_at, little_endian, peek_acts};
use crate::motor::{
    all_spare_bridges, coast_all_acts, coast_all_coasts_both, is_coasting, motor_coast_all,
    spared_run, Motor,
};
use crate::plan::{
    bytes_of, fetch, group_run, is_bsrr, ld, looking_is_harmless, looks, md, output, output_append,
    output_push, output_upto, quiet_run, reg_load, reg_modify, reg_write, run, run_append,
    run_upto, say, store, text, word_reads_back, wr, Act, Form, Memory, Op, Plan, Regs,
};
use crate::regs::{DWT_MAX_COMP, FPB_MAX_COMP, SCB_DEMCR, SCB_DFSR, TIM1, TIM_CCMR1};
use crate::shell::{echoed, edited, is_cancel, is_enter, ShellState};
use crate::words::{
    command_words, contents, find_space, first_space_is_first, space_from, split_words, word_is,
};
use vstd::prelude::*;
use vstd::slice::slice_subrange;

verus! {

// ---------------------------------------------------------------------------
// Registers that the processor saved
// ---------------------------------------------------------------------------

/// Whether all eight saved words have an address.
pub open spec fn frame_fits(frame: u32) -> bool {
    frame + 28 <= u32::MAX
}

/// Address of a saved register: r0, r1, r2, r3, r12, lr, pc, xpsr.
pub open spec fn saved(frame: u32, i: int) -> u32 {
    (frame + 4 * i) as u32
}

/// Name of a saved register in a listing.
pub open spec fn register_label(i: int) -> Seq<u8> {
    if i == 0 {
        text(" r0")
    } else if i == 1 {
        text(" r1")
    } else if i == 2 {
        text(" r2")
    } else if i == 3 {
        text(" r3")
    } else if i == 4 {
        text("r12")
    } else if i == 5 {
        text(" lr")
    } else if i == 6 {
        text(" pc")
    } else {
        text("xpsr")
    }
}

fn label_of(i: u32) -> (s: &'static str)
    requires
        i < 8,
    ensures
        text(s) == register_label(i as int),
{
    if i == 0 {
        " r0"
    } else if i == 1 {
        " r1"
    } else if i == 2 {
        " r2"
    } else if i == 3 {
        " r3"
    } else if i == 4 {
        "r12"
    } else if i == 5 {
        " lr"
    } else if i == 6 {
        " pc"
    } else {
        "xpsr"
    }
}

/// What separates a register from the one behind it: four stand on a line.
pub open spec fn register_end(i: int) -> Seq<Act> {
    if i == 3 {
        seq![say("\r\n")]
    } else if i < 7 {
        seq![say(" ")]
    } else {
        Seq::empty()
    }
}

/// The first `n` registers listed.
pub open spec fn registers_acts(frame: u32, n: nat) -> Seq<Act>
    decreases n,
{
    if n == 0 {
        Seq::empty()
    } else {
        registers_acts(frame, (n - 1) as nat) + seq![
            Act::Send(register_label(n - 1)),
            say("=0x"),
            Act::Show { addr: saved(frame, n - 1), form: Form::Word },
        ] + register_end(n - 1)
    }
}

/// All registers listed.
pub open spec fn print_regs_acts(frame: u32) -> Seq<Act> {
    registers_acts(frame, 8).push(say("\r\n"))
}

/// Lists the registers that the processor saved.
pub fn dbg_print_regs(frame: u32) -> (p: Plan)
    requires
        frame_fits(frame),
    ensures
        p@ == print_regs_acts(frame),
{
    let mut p: Plan = Plan::new();
    let mut i: u32 = 0;
    while i < 8
        invariant
            i <= 8,
            frame_fits(frame),
            p@ == registers_acts(frame, i as nat),
        decreases 8 - i,
    {
        let ghost before = p@;
        p.say(label_of(i));
        p.say("=0x");
        p.push(Op::Show { addr: frame + 4 * i, form: Form::Word });
        if i == 3 {
            p.say("\r\n");
        } else if i < 7 {
            p.say(" ");
        }
        assert(p@ =~= registers_acts(frame, (i + 1) as nat));
        i = i + 1;
    }
    p.say("\r\n");
    p
}

/// Position of a register among the saved words, by its name.
pub open spec fn register_index(name: Seq<u8>) -> Option<u32> {
    if name == text("r0") {
        Some(0u32)
    } else if name == text("r1") {
        Some(1u32)
    } else if name == text("r2") {
        Some(2u32)
    } else if name == text("r3") {
        Some(3u32)
    } else if name == text("r12") {
        Some(4u32)
    } else if name == text("lr") {
        Some(5u32)
    } else if name == text("pc") {
        Some(6u32)
    } else if name == text("xpsr") {
        Some(7u32)
    } else {
        None
    }
}

fn index_of(name: &[u8]) -> (r: Option<u32>)
    ensures
        r == register_index(name@),
{
    if word_is(name, "r0") {
        Some(0)
    } else if word_is(name, "r1") {
        Some(1)
    } else if word_is(name, "r2") {
        Some(2)
    } else if word_is(name, "r3") {
        Some(3)
    } else if word_is(name, "r12") {
        Some(4)
    } else if word_is(name, "lr") {
        Some(5)
    } else if word_is(name, "pc") {
        Some(6)
    } else if word_is(name, "xpsr") {
        Some(7)
    } else {
        None
    }
}

/// What `set` does with its arguments: a register's name, a space, a value.
pub open spec fn set_reg_acts(frame: u32, args: Seq<u8>) -> Seq<Act> {
    let sp = space_from(args, 0);
    if sp >= args.len() {
        seq![say("Usage: set <reg> <hex_val>\r\n")]
    } else {
        match hex_number(args.skip(sp + 1)) {
            None => seq![say("Bad value\r\n")],
            Some(val) => match register_index(args.take(sp)) {
                None => seq![say("Unknown reg (r0-r3,r12,lr,pc,xpsr)\r\n")],
                Some(i) => seq![
                    Act::Write { addr: saved(frame, i as int), val },
                    say("OK\r\n"),
                ],
            },
        }
    }
}

/// Changes a saved register.
pub fn dbg_set_reg(frame: u32, args: &[u8]) -> (p: Plan)
    requires
        frame_fits(frame),
    ensures
        p@ == set_reg_acts(frame, args@),
{
    let mut p: Plan = Plan::new();
    let sp: usize = find_space(args);
    if sp >= args.len() {
        p.say("Usage: set <reg> <hex_val>\r\n");
        return p;
    }
    let name: &[u8] = slice_subrange(args, 0, sp);
    let number: &[u8] = slice_subrange(args, sp + 1, args.len());
    assert(name@ =~= args@.take(sp as int));
    assert(number@ =~= args@.skip(sp + 1));
    let val: u32 = match parse_hex(number) {
        Some(v) => v,
        None => {
            p.say("Bad value\r\n");
            return p;
        },
    };
    match index_of(name) {
        Some(i) => {
            p.push(Op::Write { addr: frame + 4 * i, val });
            p.say("OK\r\n");
        },
        None => p.say("Unknown reg (r0-r3,r12,lr,pc,xpsr)\r\n"),
    }
    p
}

// ---------------------------------------------------------------------------
// Entering the debugger
// ---------------------------------------------------------------------------

/// Loads the reason for a debug exception.
pub fn debug_entry() -> (p: Plan)
    ensures
        p@ == seq![ld(SCB_DFSR, 0)],
{
    let mut p: Plan = Plan::new();
    reg_load(&mut p, SCB_DFSR, 0);
    p
}

/// Acknowledges the reason by writing it back, and loads the address where the
/// application stands.
pub fn debug_acknowledge(frame: u32, dfsr: u32) -> (p: Plan)
    requires
        frame_fits(frame),
    ensures
        p@ == seq![wr(SCB_DFSR, 0, dfsr), Act::Load { addr: saved(frame, 6) }],
{
    let mut p: Plan = Plan::new();
    reg_write(&mut p, SCB_DFSR, 0, dfsr);
    p.push(Op::Load { addr: frame + 24 });
    p
}

/// The reasons that a debug status gives, in the order in which they are told.
pub open spec fn reason_acts(dfsr: u32) -> Seq<Act> {
    (if dfsr & 2 != 0 {
        seq![say(" [BKPT]")]
    } else {
        Seq::empty()
    }) + (if dfsr & 4 != 0 {
        seq![say(" [DWTTRAP]")]
    } else {
        Seq::empty()
    }) + (if dfsr & 1 != 0 {
        seq![say(" [HALTED]")]
    } else {
        Seq::empty()
    })
}

fn say_reasons(p: &mut Plan, dfsr: u32)
    ensures
        final(p)@ == old(p)@ + reason_acts(dfsr),
{
    if dfsr & 2 != 0 {
        p.say(" [BKPT]");
    }
    if dfsr & 4 != 0 {
        p.say(" [DWTTRAP]");
    }
    if dfsr & 1 != 0 {
        p.say(" [HALTED]");
    }
}

/// The report at a breakpoint: where, why, the registers, the instruction.
pub open spec fn breakpoint_acts(frame: u32, dfsr: u32, pc: u32) -> Seq<Act> {
    seq![say("\r\n*** BREAKPOINT ***\r\n"), say("PC=0x"), Act::Send(hex32(pc))] + reason_acts(dfsr)
        + seq![say("\r\n")] + print_regs_acts(frame) + seq![
        say("instr=0x"),
        Act::Show { addr: pc, form: Form::Half },
        say("\r\n"),
        say("dbg> "),
    ]
}

/// Reports where the application stopped, and asks for a command.
pub fn debug_report(frame: u32, dfsr: u32, pc: u32) -> (p: Plan)
    requires
        frame_fits(frame),
    ensures
        p@ == breakpoint_acts(frame, dfsr, pc),
{
    let mut p: Plan = Plan::new();
    p.say("\r\n*** BREAKPOINT ***\r\n");
    p.say("PC=0x");
    p.say_hex32(pc);
    say_reasons(&mut p, dfsr);
    p.say("\r\n");
    p.append(dbg_print_regs(frame));
    let ghost told = p@;
    p.say("instr=0x");
    p.push(Op::Show { addr: pc, form: Form::Half });
    p.say("\r\n");
    p.say("dbg> ");
    assert(p@ =~= breakpoint_acts(frame, dfsr, pc));
    p
}

// ---------------------------------------------------------------------------
// The console
// ---------------------------------------------------------------------------

/// Who reads the line.
#[derive(Clone, Copy, Debug, PartialEq, Eq, Structural)]
pub enum Mode {
    /// The monitor's shell.
    Shell,
    /// The debugger, with the address of the saved registers.
    Debug { frame: u32 },
    /// The shell while an application runs, served by the tick.
    Live,
}

pub open spec fn mode_fits(mode: Mode) -> bool {
    match mode {
        Mode::Shell | Mode::Live => true,
        Mode::Debug { frame } => frame_fits(frame),
    }
}

pub open spec fn prompt_text(mode: Mode) -> Seq<u8> {
    match mode {
        Mode::Shell | Mode::Live => text("> "),
        Mode::Debug { .. } => text("dbg> "),
    }
}

fn prompt_of(mode: Mode) -> (s: &'static str)
    ensures
        text(s) == prompt_text(mode),
{
    match mode {
        Mode::Shell | Mode::Live => "> ",
        Mode::Debug { frame: _ } => "dbg> ",
    }
}

/// What appears when a line is given up.
pub open spec fn cancel_text(mode: Mode) -> &'static str {
    match mode {
        Mode::Shell | Mode::Live => "^C\r\n> ",
        Mode::Debug { .. } => "^C\r\ndbg> ",
    }
}

fn cancel_of(mode: Mode) -> (s: &'static str)
    ensures
        s == cancel_text(mode),
{
    match mode {
        Mode::Shell | Mode::Live => "^C\r\n> ",
        Mode::Debug { frame: _ } => "^C\r\ndbg> ",
    }
}

/// State of the monitor that outlives a command.
pub struct Tables {
    pub bp: [Option<u32>; FPB_MAX_COMP],
    pub watch: [Option<u32>; DWT_MAX_COMP],
    pub tick: Tick,
}

impl Tables {
    /// No breakpoints, no watchpoints, no button held.
    pub fn new() -> (t: Tables)
        ensures
            t.bp@ == Seq::new(FPB_MAX_COMP as nat, |i: int| None::<u32>),
            t.watch@ == Seq::new(DWT_MAX_COMP as nat, |i: int| None::<u32>),
            t.tick == (Tick { debounce: 0, hold: 0 }),
    {
        let t: Tables = Tables {
            bp: [None; FPB_MAX_COMP],
            watch: [None; DWT_MAX_COMP],
            tick: Tick::new(),
        };
        assert(t.bp@ =~= Seq::new(FPB_MAX_COMP as nat, |i: int| None::<u32>));
        assert(t.watch@ =~= Seq::new(DWT_MAX_COMP as nat, |i: int| None::<u32>));
        t
    }
}

/// The debugger's own commands.
#[derive(Clone, Copy, Debug, PartialEq, Eq, Structural)]
pub enum DebugCommand {
    Cont,
    Stop,
    Step,
    Regs,
    SetReg,
    Other,
}

/// The debugger's command that a line gives. It is compared as typed: blanks
/// around it make it another line.
pub open spec fn debug_command_named(line: Seq<u8>) -> DebugCommand {
    if line == text("cont") || line == text("c") {
        DebugCommand::Cont
    } else if line == text("stop") {
        DebugCommand::Stop
    } else if line == text("step") || line == text("s") {
        DebugCommand::Step
    } else if line == text("regs") {
        DebugCommand::Regs
    } else if line.len() > 4 && line.take(4) == text("set ") {
        DebugCommand::SetReg
    } else {
        DebugCommand::Other
    }
}

fn debug_command_of(line: &[u8]) -> (c: DebugCommand)
    ensures
        c == debug_command_named(line@),
{
    if word_is(line, "cont") || word_is(line, "c") {
        DebugCommand::Cont
    } else if word_is(line, "stop") {
        DebugCommand::Stop
    } else if word_is(line, "step") || word_is(line, "s") {
        DebugCommand::Step
    } else if word_is(line, "regs") {
        DebugCommand::Regs
    } else if line.len() > 4 {
        let head: &[u8] = slice_subrange(line, 0, 4);
        assert(head@ =~= line@.take(4));
        if word_is(head, "set ") {
            DebugCommand::SetReg
        } else {
            DebugCommand::Other
        }
    } else {
        DebugCommand::Other
    }
}

/// What `cont` does. The exception may have been pended again while the
/// debugger waited; it is dropped, and so is single-stepping.
pub open spec fn cont_acts() -> Seq<Act> {
    seq![md(SCB_DEMCR, 0, MON_STEP | MON_PEND, 0), say("Continuing...\r\n")]
}

/// The commands about an application that runs.
#[derive(Clone, Copy, Debug, PartialEq, Eq, Structural)]
pub enum AppCommand {
    Stop,
    Status,
    /// A command that cannot be had while an application runs.
    Refused,
    Other,
}

/// The command about a running application that a line gives.
pub open spec fn app_command_named(line: Seq<u8>) -> AppCommand {
    let w = command_words(line);
    if w.len() == 0 {
        AppCommand::Other
    } else if w[0] == text("stop") || w[0] == text("kill") {
        AppCommand::Stop
    } else if w[0] == text("status") {
        AppCommand::Status
    } else if w[0] == text("run") || w[0] == text("upload") {
        AppCommand::Refused
    } else {
        AppCommand::Other
    }
}

fn app_command_of(line: &[u8]) -> (c: AppCommand)
    ensures
        c == app_command_named(line@),
{
    let words: Vec<Vec<u8>> = split_words(line);
    if words.len() == 0 {
        return AppCommand::Other;
    }
    assert(contents(words@)[0] == words@[0]@);
    let word: &[u8] = words[0].as_slice();
    if word_is(word, "stop") || word_is(word, "kill") {
        AppCommand::Stop
    } else if word_is(word, "status") {
        AppCommand::Status
    } else if word_is(word, "run") || word_is(word, "upload") {
        AppCommand::Refused
    } else {
        AppCommand::Other
    }
}

/// An application stopped: its motors first, then a message, and a reset that
/// brings the monitor back.
pub open spec fn stop_app_acts(message: &str) -> Seq<Act> {
    coast_all_acts() + freeze_acts() + farewell_acts(message) + seq![Act::Reset]
}

/// Stops the application and returns to the monitor.
pub fn stop_app(message: &str) -> (p: Plan)
    ensures
        p@ == stop_app_acts(message),
{
    let mut p: Plan = motor_coast_all();
    p.append(motor_freeze());
    p.append(farewell(message));
    let ghost before = p@;
    p.push(Op::Reset);
    assert(p@ =~= before + seq![Act::Reset]);
    p
}

/// What a line does while an application runs.
pub open spec fn live_line_acts(
    line: Seq<u8>,
    bp: Seq<Option<u32>>,
    watch: Seq<Option<u32>>,
) -> Seq<Act> {
    match app_command_named(line) {
        AppCommand::Stop => stop_app_acts("Stopping app, rebooting to monitor...\r\n"),
        AppCommand::Status => seq![ld(TIM1, TIM_CCMR1)],
        AppCommand::Refused => seq![say("An app is running (stop it first)\r\n")],
        AppCommand::Other => line_acts(line, bp, watch),
    }
}

pub open spec fn live_line_next(line: Seq<u8>) -> Next {
    match app_command_named(line) {
        AppCommand::Stop => Next::Gone,
        AppCommand::Status => Next::Status,
        AppCommand::Refused => Next::Done,
        AppCommand::Other => line_next(line),
    }
}

/// What a line does in the debugger.
pub open spec fn debug_line_acts(
    frame: u32,
    line: Seq<u8>,
    bp: Seq<Option<u32>>,
    watch: Seq<Option<u32>>,
) -> Seq<Act> {
    match debug_command_named(line) {
        DebugCommand::Cont => cont_acts(),
        DebugCommand::Stop => farewell_acts("Stopping app, rebooting to monitor...\r\n") + seq![
            Act::Reset,
        ],
        DebugCommand::Step => seq![md(SCB_DEMCR, 0, 0, MON_STEP)],
        DebugCommand::Regs => print_regs_acts(frame),
        DebugCommand::SetReg => set_reg_acts(frame, line.skip(4)),
        DebugCommand::Other => line_acts(line, bp, watch),
    }
}

pub open spec fn debug_line_next(line: Seq<u8>) -> Next {
    match debug_command_named(line) {
        DebugCommand::Cont | DebugCommand::Step => Next::Return,
        DebugCommand::Stop => Next::Gone,
        DebugCommand::Regs | DebugCommand::SetReg => Next::Done,
        DebugCommand::Other => line_next(line),
    }
}

/// What an entered line does, by who reads it. An empty line does nothing.
pub open spec fn entered_acts(
    mode: Mode,
    line: Seq<u8>,
    bp: Seq<Option<u32>>,
    watch: Seq<Option<u32>>,
) -> Seq<Act> {
    if line.len() == 0 {
        Seq::empty()
    } else {
        match mode {
            Mode::Shell => line_acts(line, bp, watch),
            Mode::Debug { frame } => debug_line_acts(frame, line, bp, watch),
            Mode::Live => live_line_acts(line, bp, watch),
        }
    }
}

pub open spec fn entered_next(mode: Mode, line: Seq<u8>) -> Next {
    if line.len() == 0 {
        Next::Done
    } else {
        match mode {
            Mode::Shell => line_next(line),
            Mode::Debug { .. } => debug_line_next(line),
            Mode::Live => live_line_next(line),
        }
    }
}

/// Whether a line reaches the commands that the shell and the debugger share.
pub open spec fn is_shared(mode: Mode, line: Seq<u8>) -> bool {
    line.len() > 0 && match mode {
        Mode::Shell => true,
        Mode::Debug { .. } => debug_command_named(line) == DebugCommand::Other,
        Mode::Live => app_command_named(line) == AppCommand::Other,
    }
}

/// The prompt, once a command is done.
pub open spec fn prompt_acts(mode: Mode, next: Next) -> Seq<Act> {
    if next == Next::Done {
        seq![Act::Send(prompt_text(mode))]
    } else {
        Seq::empty()
    }
}

/// Whether a byte asks for an emergency stop: Ctrl+C while an application runs.
pub open spec fn is_emergency(mode: Mode, ch: u8) -> bool {
    mode == Mode::Live && is_cancel(ch)
}

/// What a byte does.
pub open spec fn byte_acts(
    mode: Mode,
    line: Seq<u8>,
    ch: u8,
    bp: Seq<Option<u32>>,
    watch: Seq<Option<u32>>,
) -> Seq<Act> {
    if is_enter(ch) {
        seq![say("\r\n")] + entered_acts(mode, line, bp, watch) + prompt_acts(
            mode,
            entered_next(mode, line),
        )
    } else if is_emergency(mode, ch) {
        stop_app_acts("^C\r\nEmergency stop, rebooting to monitor...\r\n")
    } else {
        echoed(line, ch, cancel_text(mode))
    }
}

pub open spec fn byte_next(mode: Mode, line: Seq<u8>, ch: u8) -> Next {
    if is_enter(ch) {
        entered_next(mode, line)
    } else if is_emergency(mode, ch) {
        Next::Gone
    } else {
        Next::Done
    }
}

/// The shell or the debugger, with the line typed so far.
pub struct Console {
    pub shell: ShellState,
    pub mode: Mode,
}

impl Console {
    pub open spec fn wf(&self) -> bool {
        self.shell.wf() && mode_fits(self.mode)
    }

    /// A console with an empty line.
    pub fn new(mode: Mode) -> (c: Console)
        requires
            mode_fits(mode),
        ensures
            c.wf(),
            c.shell@ == Seq::<u8>::empty(),
            c.mode == mode,
    {
        Console { shell: ShellState::new(), mode }
    }

    /// Takes a byte. The step's plan ends in the prompt where the byte entered a
    /// line that is done.
    pub fn on_byte(&mut self, ch: u8, tables: &mut Tables) -> (s: Step)
        requires
            old(self).wf(),
        ensures
            final(self).wf(),
            final(self).mode == old(self).mode,
            final(self).shell@ == edited(old(self).shell@, ch),
            s.plan@ == byte_acts(
                old(self).mode,
                old(self).shell@,
                ch,
                old(tables).bp@,
                old(tables).watch@,
            ),
            s.next == byte_next(old(self).mode, old(self).shell@, ch),
            final(tables).bp@ == if is_enter(ch) && is_shared(old(self).mode, old(self).shell@) {
                line_bp(old(self).shell@, old(tables).bp@)
            } else {
                old(tables).bp@
            },
            final(tables).watch@ == if is_enter(ch) && is_shared(
                old(self).mode,
                old(self).shell@,
            ) {
                line_watch(old(self).shell@, old(tables).watch@)
            } else {
                old(tables).watch@
            },
            final(tables).tick == if is_enter(ch) && old(self).mode is Debug
                && debug_command_named(old(self).shell@) == DebugCommand::Cont && old(
                self,
            ).shell@.len() > 0 {
                Tick { debounce: 0, ..old(tables).tick }
            } else {
                old(tables).tick
            },
    {
        if self.mode == Mode::Live && ch == 0x03 {
            self.shell.reset();
            return Step {
                plan: stop_app("^C\r\nEmergency stop, rebooting to monitor...\r\n"),
                next: Next::Gone,
            };
        }
        let (mut p, entered) = self.shell.feed(ch, cancel_of(self.mode));
        match entered {
            None => Step { plan: p, next: Next::Done },
            Some(line) => {
                let mut next: Next = Next::Done;
                if line.len() > 0 {
                    let step: Step = run_line(self.mode, line.as_slice(), tables);
                    p.append(step.plan);
                    next = step.next;
                }
                if next == Next::Done {
                    p.say(prompt_of(self.mode));
                }
                Step { plan: p, next }
            },
        }
    }

    /// Goes on with a command once its loads are in, or its upload is over.
    pub fn resume(&self, next: Next, loaded: [u32; 3], handlers: Handlers) -> (s: Step)
        ensures
            s.plan@ == resume_acts(next, loaded@, handlers) + prompt_acts(
                self.mode,
                resume_next(next, loaded@),
            ),
            s.next == resume_next(next, loaded@),
    {
        let step: Step = resume(next, loaded, handlers);
        let mut p: Plan = step.plan;
        if step.next == Next::Done {
            p.say(prompt_of(self.mode));
        }
        Step { plan: p, next: step.next }
    }
}

fn run_line(mode: Mode, line: &[u8], tables: &mut Tables) -> (s: Step)
    requires
        line@.len() > 0,
        mode_fits(mode),
    ensures
        s.plan@ == entered_acts(mode, line@, old(tables).bp@, old(tables).watch@),
        s.next == entered_next(mode, line@),
        final(tables).bp@ == if is_shared(mode, line@) {
            line_bp(line@, old(tables).bp@)
        } else {
            old(tables).bp@
        },
        final(tables).watch@ == if is_shared(mode, line@) {
            line_watch(line@, old(tables).watch@)
        } else {
            old(tables).watch@
        },
        final(tables).tick == if mode is Debug && debug_command_named(line@)
            == DebugCommand::Cont {
            Tick { debounce: 0, ..old(tables).tick }
        } else {
            old(tables).tick
        },
{
    match mode {
        Mode::Shell => dispatch_command(line, &mut tables.bp, &mut tables.watch),
        Mode::Live => {
            let mut p: Plan = Plan::new();
            match app_command_of(line) {
                AppCommand::Stop => Step {
                    plan: stop_app("Stopping app, rebooting to monitor...\r\n"),
                    next: Next::Gone,
                },
                AppCommand::Status => {
                    reg_load(&mut p, TIM1, TIM_CCMR1);
                    Step { plan: p, next: Next::Status }
                },
                AppCommand::Refused => {
                    p.say("An app is running (stop it first)\r\n");
                    Step { plan: p, next: Next::Done }
                },
                AppCommand::Other => {
                    dispatch_command(line, &mut tables.bp, &mut tables.watch)
                },
            }
        },
        Mode::Debug { frame } => {
            let mut p: Plan = Plan::new();
            match debug_command_of(line) {
                DebugCommand::Cont => {
                    reg_modify(&mut p, SCB_DEMCR, 0, MON_STEP | MON_PEND, 0);
                    tables.tick.debounce = 0;
                    p.say("Continuing...\r\n");
                    Step { plan: p, next: Next::Return }
                },
                DebugCommand::Stop => {
                    p = farewell("Stopping app, rebooting to monitor...\r\n");
                    p.push(Op::Reset);
                    Step { plan: p, next: Next::Gone }
                },
                DebugCommand::Step => {
                    reg_modify(&mut p, SCB_DEMCR, 0, 0, MON_STEP);
                    Step { plan: p, next: Next::Return }
                },
                DebugCommand::Regs => Step { plan: dbg_print_regs(frame), next: Next::Done },
                DebugCommand::SetReg => {
                    let args: &[u8] = slice_subrange(line, 4, line.len());
                    assert(args@ =~= line@.skip(4));
                    Step { plan: dbg_set_reg(frame, args), next: Next::Done }
                },
                DebugCommand::Other => {
                    dispatch_command(line, &mut tables.bp, &mut tables.watch)
                },
            }
        },
    }
}

/// The monitor's greeting.
pub open spec fn banner_acts() -> Seq<Act> {
    seq![
        say("\r\n╔══════════════════════════════════╗\r\n"),
        say("║  LEGO Hub Debug Monitor v0.2    ║\r\n"),
        say("║  STM32F413 @ 96 MHz            ║\r\n"),
        say("║  Type 'help' for commands      ║\r\n"),
        say("╚══════════════════════════════════╝\r\n"),
        say("> "),
    ]
}

/// Greets the host and asks for a command.
pub fn banner() -> (p: Plan)
    ensures
        p@ == banner_acts(),
{
    let mut p: Plan = Plan::new();
    p.say("\r\n╔══════════════════════════════════╗\r\n");
    p.say("║  LEGO Hub Debug Monitor v0.2    ║\r\n");
    p.say("║  STM32F413 @ 96 MHz            ║\r\n");
    p.say("║  Type 'help' for commands      ║\r\n");
    p.say("╚══════════════════════════════════╝\r\n");
    p.say("> ");
    p
}

// ---------------------------------------------------------------------------
// What the console promises while an application runs
// ---------------------------------------------------------------------------

/// Stopping an application leaves its motors coasting and ends in a reset; so does
/// an emergency stop, whatever line was being typed.
pub proof fn stopping_stops_motors(
    message: &str,
    line: Seq<u8>,
    bp: Seq<Option<u32>>,
    watch: Seq<Option<u32>>,
    regs: Regs,
)
    ensures
        is_coasting(run(stop_app_acts(message), regs), Motor::A),
        is_coasting(run(stop_app_acts(message), regs), Motor::B),
        stop_app_acts(message).last() == Act::Reset,
        byte_acts(Mode::Live, line, 0x03, bp, watch) == stop_app_acts(
            "^C\r\nEmergency stop, rebooting to monitor...\r\n",
        ),
        byte_next(Mode::Live, line, 0x03) == Next::Gone,
{
    broadcast use group_run;

    let coasting = run(coast_all_acts(), regs);
    coast_all_coasts_both(regs);
    assert(all_spare_bridges(freeze_acts()));
    spared_run(freeze_acts(), coasting);
    let frozen = run(freeze_acts(), coasting);
    quiet_run(farewell_acts(message), frozen);
    quiet_run(seq![Act::Reset], frozen);
}

/// What memory holds can be looked at while an application runs, by the same
/// commands as in the shell.
pub proof fn live_peek_is_peek(
    line: Seq<u8>,
    bp: Seq<Option<u32>>,
    watch: Seq<Option<u32>>,
)
    requires
        command_words(line).len() > 0,
        command_words(line)[0] == text("peek"),
    ensures
        live_line_acts(line, bp, watch) == peek_acts(command_words(line).skip(1), 4),
        live_line_next(line) == Next::Done,
{
    names_reach_commands();
    peek_is_no_app_command();
}

proof fn peek_is_no_app_command()
    ensures
        text("peek") != text("stop"),
        text("peek") != text("kill"),
        text("peek") != text("status"),
        text("peek") != text("run"),
        text("peek") != text("upload"),
{
    reveal_strlit("peek");
    reveal_strlit("stop");
    reveal_strlit("kill");
    reveal_strlit("status");
    reveal_strlit("run");
    reveal_strlit("upload");
    assert("peek".is_ascii() && "stop".is_ascii() && "kill".is_ascii() && "status".is_ascii()
        && "run".is_ascii() && "upload".is_ascii());
    assert(text("peek")[0] == 112 && text("stop")[0] == 115 && text("kill")[0] == 107);
    assert(text("peek").len() == 4 && text("status").len() == 6 && text("run").len() == 3
        && text("upload").len() == 6);
}

// ---------------------------------------------------------------------------
// What the debugger promises
// ---------------------------------------------------------------------------

/// `cont` leaves neither single-stepping nor a pending exception behind.
pub proof fn cont_runs_free(regs: Regs)
    ensures
        run(cont_acts(), regs)[SCB_DEMCR] & (MON_STEP | MON_PEND) == 0,
{
    reveal_with_fuel(run_upto, 3);
    let v = regs[SCB_DEMCR];
    assert(((v & !(0x4_0000u32 | 0x2_0000u32)) | 0) & (0x4_0000u32 | 0x2_0000u32) == 0)
        by (bit_vector);
}

/// `step` asks for an exception behind the next instruction, and keeps every
/// other bit of the control register.
pub proof fn step_asks_for_one_instruction(regs: Regs)
    ensures
        ({
            let after = run(seq![md(SCB_DEMCR, 0, 0, MON_STEP)], regs)[SCB_DEMCR];
            &&& after & MON_STEP != 0
            &&& after & !MON_STEP == regs[SCB_DEMCR] & !MON_STEP
        }),
{
    reveal_with_fuel(run_upto, 2);
    let v = regs[SCB_DEMCR];
    assert(((v & !0u32) | 0x4_0000u32) & 0x4_0000 != 0 && ((v & !0u32) | 0x4_0000u32)
        & !0x4_0000u32 == v & !0x4_0000u32) by (bit_vector);
}

/// `set` changes the register it names and nothing else.
pub proof fn set_changes_one_register(frame: u32, args: Seq<u8>, i: u32, val: u32, regs: Regs)
    requires
        space_from(args, 0) < args.len(),
        register_index(args.take(space_from(args, 0))) == Some(i),
        hex_number(args.skip(space_from(args, 0) + 1)) == Some(val),
    ensures
        run(set_reg_acts(frame, args), regs) == store(regs, saved(frame, i as int), val),
{
    reveal_with_fuel(run_upto, 3);
}

/// A register as text.
pub open spec fn register_text(mem: Memory, frame: u32, i: int) -> Seq<u8> {
    register_label(i) + text("=0x") + hex32(fetch(mem, saved(frame, i), Form::Word)) + if i == 3 {
        text("\r\n")
    } else if i < 7 {
        text(" ")
    } else {
        Seq::empty()
    }
}

/// The first `n` registers as text.
pub open spec fn registers_text(mem: Memory, frame: u32, n: nat) -> Seq<u8>
    decreases n,
{
    if n == 0 {
        Seq::empty()
    } else {
        registers_text(mem, frame, (n - 1) as nat) + register_text(mem, frame, n - 1)
    }
}

/// `regs` prints every saved register with its contents.
pub proof fn regs_shows_saved_words(frame: u32, n: nat, mem: Memory)
    requires
        n <= 8,
    ensures
        output(registers_acts(frame, n), mem) == registers_text(mem, frame, n),
    decreases n,
{
    if n > 0 {
        let k = (n - 1) as nat;
        regs_shows_saved_words(frame, k, mem);
        let part = seq![
            Act::Send(register_label(n - 1)),
            say("=0x"),
            Act::Show { addr: saved(frame, n - 1), form: Form::Word },
        ];
        output_append(registers_acts(frame, k), part, mem);
        output_append(registers_acts(frame, k) + part, register_end(n - 1), mem);
        reveal_with_fuel(output_upto, 4);
        assert(output(part, mem) =~= register_label(n - 1) + text("=0x") + hex32(
            fetch(mem, saved(frame, n - 1), Form::Word),
        ));
        assert(output(registers_acts(frame, n), mem) =~= registers_text(mem, frame, n));
    }
}

/// A register that was set shows its new value.
pub proof fn regs_shows_what_set_wrote(
    frame: u32,
    args: Seq<u8>,
    i: u32,
    val: u32,
    regs: Regs,
)
    requires
        frame_fits(frame),
        frame % 4 == 0,
        !is_bsrr(saved(frame, i as int)),
        space_from(args, 0) < args.len(),
        register_index(args.take(space_from(args, 0))) == Some(i),
        hex_number(args.skip(space_from(args, 0) + 1)) == Some(val),
    ensures
        fetch(
            bytes_of(run(set_reg_acts(frame, args), regs)),
            saved(frame, i as int),
            Form::Word,
        ) == val,
{
    set_changes_one_register(frame, args, i, val, regs);
    word_reads_back(run(set_reg_acts(frame, args), regs), saved(frame, i as int));
}

// ---------------------------------------------------------------------------
// What is seen at the debugger's prompt
// ---------------------------------------------------------------------------

/// One word of a listing: its name, its digits, and what follows.
pub open spec fn listed(mem: Memory, name: Seq<u8>, addr: u32, end: Seq<u8>) -> Seq<u8> {
    name + text("=0x") + hex32(little_endian(mem, addr)) + end
}

/// The registers as they are listed: eight words from the saved frame on, four a line.
pub open spec fn saved_registers(mem: Memory, frame: u32) -> Seq<u8> {
    listed(mem, text(" r0"), (frame + 0) as u32, text(" "))
        + listed(mem, text(" r1"), (frame + 4) as u32, text(" "))
        + listed(mem, text(" r2"), (frame + 8) as u32, text(" "))
        + listed(mem, text(" r3"), (frame + 12) as u32, text("\r\n"))
        + listed(mem, text("r12"), (frame + 16) as u32, text(" "))
        + listed(mem, text(" lr"), (frame + 20) as u32, text(" "))
        + listed(mem, text(" pc"), (frame + 24) as u32, text(" "))
        + listed(mem, text("xpsr"), (frame + 28) as u32, Seq::empty())
}

proof fn register_is_listed(mem: Memory, frame: u32, i: int)
    requires
        0 <= i < 8,
        frame + 31 <= u32::MAX,
    ensures
        register_text(mem, frame, i) == register_label(i) + text("=0x") + hex32(
            little_endian(mem, (frame + 4 * i) as u32),
        ) + (if i == 3 {
            text("\r\n")
        } else if i < 7 {
            text(" ")
        } else {
            Seq::empty()
        }),
{
    assert(fetch(mem, saved(frame, i), Form::Word) == little_endian(mem, (frame + 4 * i) as u32));
}

#[verifier::rlimit(50)]
proof fn listing_is_complete(mem: Memory, frame: u32)
    requires
        frame + 31 <= u32::MAX,
    ensures
        registers_text(mem, frame, 8) == saved_registers(mem, frame),
{
    reveal_with_fuel(registers_text, 9);
    assert(register_text(mem, frame, 0) == listed(
        mem,
        text(" r0"),
        (frame + 0) as u32,
        text(" "),
    )) by {
        register_is_listed(mem, frame, 0);
    }
    assert(register_text(mem, frame, 1) == listed(
        mem,
        text(" r1"),
        (frame + 4) as u32,
        text(" "),
    )) by {
        register_is_listed(mem, frame, 1);
    }
    assert(register_text(mem, frame, 2) == listed(
        mem,
        text(" r2"),
        (frame + 8) as u32,
        text(" "),
    )) by {
        register_is_listed(mem, frame, 2);
    }
    assert(register_text(mem, frame, 3) == listed(
        mem,
        text(" r3"),
        (frame + 12) as u32,
        text("\r\n"),
    )) by {
        register_is_listed(mem, frame, 3);
    }
    assert(register_text(mem, frame, 4) == listed(
        mem,
        text("r12"),
        (frame + 16) as u32,
        text(" "),
    )) by {
        register_is_listed(mem, frame, 4);
    }
    assert(register_text(mem, frame, 5) == listed(
        mem,
        text(" lr"),
        (frame + 20) as u32,
        text(" "),
    )) by {
        register_is_listed(mem, frame, 5);
    }
    assert(register_text(mem, frame, 6) == listed(
        mem,
        text(" pc"),
        (frame + 24) as u32,
        text(" "),
    )) by {
        register_is_listed(mem, frame, 6);
    }
    assert(register_text(mem, frame, 7) == listed(
        mem,
        text("xpsr"),
        (frame + 28) as u32,
        Seq::empty(),
    )) by {
        register_is_listed(mem, frame, 7);
    }
    let first = register_text(mem, frame, 0);
    assert(registers_text(mem, frame, 0) + first =~= first);
}

proof fn print_regs_prints(mem: Memory, frame: u32)
    requires
        frame + 31 <= u32::MAX,
    ensures
        output(print_regs_acts(frame), mem) == saved_registers(mem, frame) + text("\r\n"),
{
    regs_shows_saved_words(frame, 8, mem);
    listing_is_complete(mem, frame);
    output_push(registers_acts(frame, 8), say("\r\n"), mem);
}

/// The words of the debugger differ from one another.
proof fn debugger_words_differ()
    ensures
        text("cont").len() == 4 && text("c").len() == 1 && text("stop").len() == 4 && text(
            "step",
        ).len() == 4 && text("s").len() == 1 && text("regs").len() == 4,
        text("cont") != text("stop") && text("cont") != text("step") && text("cont") != text(
            "regs",
        ),
        text("stop") != text("step") && text("stop") != text("regs") && text("step") != text(
            "regs",
        ),
        text("c") != text("s"),
{
    reveal_strlit("cont");
    reveal_strlit("c");
    reveal_strlit("stop");
    reveal_strlit("step");
    reveal_strlit("s");
    reveal_strlit("regs");
    assert("cont".is_ascii() && "c".is_ascii() && "stop".is_ascii() && "step".is_ascii()
        && "s".is_ascii() && "regs".is_ascii());
    assert(text("cont")[0] == 99 && text("stop")[0] == 115 && text("step")[0] == 115 && text(
        "regs",
    )[0] == 114);
    assert(text("stop")[2] == 111 && text("step")[2] == 101);
    assert(text("c")[0] == 99 && text("s")[0] == 115);
}

/// What an entered line makes appear: a line end, what it does, and the prompt where it
/// is done.
proof fn entered_output(
    mode: Mode,
    line: Seq<u8>,
    ch: u8,
    bp: Seq<Option<u32>>,
    watch: Seq<Option<u32>>,
    mem: Memory,
    regs: Regs,
)
    requires
        ch == 13 || ch == 10,
    ensures
        output(byte_acts(mode, line, ch, bp, watch), mem) == text("\r\n") + output(
            entered_acts(mode, line, bp, watch),
            mem,
        ) + (if entered_next(mode, line) == Next::Done {
            prompt_text(mode)
        } else {
            Seq::empty()
        }),
        run(byte_acts(mode, line, ch, bp, watch), regs) == run(
            entered_acts(mode, line, bp, watch),
            regs,
        ),
{
    let head = seq![say("\r\n")];
    let body = entered_acts(mode, line, bp, watch);
    let tail = prompt_acts(mode, entered_next(mode, line));
    output_append(head, body, mem);
    output_append(head + body, tail, mem);
    run_append(head, body, regs);
    run_append(head + body, tail, regs);
    reveal_with_fuel(output_upto, 2);
    reveal_with_fuel(run_upto, 2);
    assert(output(head, mem) =~= text("\r\n"));
    assert(output(tail, mem) =~= if entered_next(mode, line) == Next::Done {
        prompt_text(mode)
    } else {
        Seq::empty()
    });
    assert(run(tail, run(head + body, regs)) == run(head + body, regs));
}

/// `regs` lists the eight saved words, under their names and in their order, and asks for
/// the next command.
pub proof fn regs_lists_saved_words(
    frame: u32,
    bp: Seq<Option<u32>>,
    watch: Seq<Option<u32>>,
    mem: Memory,
    regs: Regs,
)
    requires
        frame + 31 <= u32::MAX,
    ensures
        output(byte_acts(Mode::Debug { frame }, text("regs"), 13, bp, watch), mem) == text("\r\n")
            + (saved_registers(mem, frame) + text("\r\n")) + text("dbg> "),
        byte_next(Mode::Debug { frame }, text("regs"), 13) == Next::Done,
        run(byte_acts(Mode::Debug { frame }, text("regs"), 13, bp, watch), regs) == regs,
{
    debugger_words_differ();
    entered_output(Mode::Debug { frame }, text("regs"), 13, bp, watch, mem, regs);
    print_regs_prints(mem, frame);
    registers_look(frame, 8);
    looking_is_harmless(print_regs_acts(frame), regs);
}

proof fn registers_look(frame: u32, n: nat)
    ensures
        looks(registers_acts(frame, n)),
    decreases n,
{
    if n > 0 {
        registers_look(frame, (n - 1) as nat);
    }
}

/// `cont` and `c` return to the application with nothing pending and no step asked for;
/// `step` and `s` return with a step asked for; `stop` resets the hub. All keep the other
/// bits of the debug control register at 0xE000EDFC, whose bit 17 is a pending exception
/// and whose bit 18 a step.
pub proof fn debugger_lets_go(
    frame: u32,
    word: Seq<u8>,
    bp: Seq<Option<u32>>,
    watch: Seq<Option<u32>>,
    mem: Memory,
    regs: Regs,
)
    ensures
        ({
            let mode = Mode::Debug { frame };
            let acts = byte_acts(mode, word, 13, bp, watch);
            let before = regs[0xE000_EDFCu32];
            let after = run(acts, regs)[0xE000_EDFCu32];
            &&& word == text("cont") || word == text("c") ==> {
                &&& byte_next(mode, word, 13) == Next::Return
                &&& after == before & 0xFFF9_FFFF
                &&& output(acts, mem) == text("\r\n") + text("Continuing...\r\n")
            }
            &&& word == text("step") || word == text("s") ==> {
                &&& byte_next(mode, word, 13) == Next::Return
                &&& after == before | 0x0004_0000
                &&& output(acts, mem) == text("\r\n")
            }
            &&& word == text("stop") ==> {
                &&& byte_next(mode, word, 13) == Next::Gone
                &&& acts.last() == Act::Reset
                &&& run(acts, regs) == regs
                &&& output(acts, mem) == text("\r\n") + text(
                    "Stopping app, rebooting to monitor...\r\n",
                )
            }
        }),
{
    let mode = Mode::Debug { frame };
    debugger_words_differ();
    entered_output(mode, word, 13, bp, watch, mem, regs);
    reveal_with_fuel(run_upto, 4);
    reveal_with_fuel(output_upto, 4);
    let v = regs[0xE000_EDFCu32];
    assert((v & !(0x4_0000u32 | 0x2_0000u32)) | 0 == v & 0xFFF9_FFFF && (v & !0u32) | 0x4_0000u32
        == v | 0x0004_0000) by (bit_vector);
    if word == text("cont") || word == text("c") {
        assert(entered_acts(mode, word, bp, watch) == cont_acts());
        assert(output(cont_acts(), mem) =~= text("Continuing...\r\n"));
        assert(output(byte_acts(mode, word, 13, bp, watch), mem) =~= text("\r\n") + text(
            "Continuing...\r\n",
        ));
    } else if word == text("step") || word == text("s") {
        let step = seq![md(SCB_DEMCR, 0, 0, MON_STEP)];
        assert(entered_acts(mode, word, bp, watch) == step);
        assert(output(step, mem) =~= Seq::<u8>::empty());
        assert(output(byte_acts(mode, word, 13, bp, watch), mem) =~= text("\r\n"));
    } else if word == text("stop") {
        let stop = farewell_acts("Stopping app, rebooting to monitor...\r\n") + seq![Act::Reset];
        assert(entered_acts(mode, word, bp, watch) == stop);
        assert(output(stop, mem) =~= text("Stopping app, rebooting to monitor...\r\n"));
        assert(output(byte_acts(mode, word, 13, bp, watch), mem) =~= text("\r\n") + text(
            "Stopping app, rebooting to monitor...\r\n",
        ));
        assert(byte_acts(mode, word, 13, bp, watch).last() == stop.last());
    }
}

proof fn set_line_writes(
    frame: u32,
    head: &str,
    name: &str,
    i: u32,
    digits: Seq<u8>,
    val: u32,
    bp: Seq<Option<u32>>,
    watch: Seq<Option<u32>>,
    regs: Regs,
)
    requires
        frame_fits(frame),
        i < 8,
        hex_number(digits) == Some(val),
        text(head).len() == text(name).len() + 5,
        text(head).take(4) == text("set "),
        text(head).subrange(4, 4 + text(name).len() as int) == text(name),
        text(head).last() == 0x20,
        forall|k: int| 0 <= k < text(name).len() ==> #[trigger] text(name)[k] != 0x20,
        register_index(text(name)) == Some(i),
    ensures
        run(byte_acts(Mode::Debug { frame }, text(head) + digits, 13, bp, watch), regs) == store(
            regs,
            (frame + 4 * i) as u32,
            val,
        ),
{
    let line = text(head) + digits;
    let n = text(name).len() as int;
    let args = line.skip(4);
    debugger_words_differ();
    assert(line.take(4) =~= text("set "));
    assert(args.take(n) =~= text(name));
    assert(args[n] == text(head).last());
    assert(args.skip(n + 1) =~= digits);
    first_space_is_first(args, 0, n);
    let sp = space_from(args, 0);
    if sp < n {
        assert(args[sp] == text(name)[sp]);
    }
    assert(sp == n);
    entered_output(Mode::Debug { frame }, line, 13, bp, watch, |a: u32| 0u8, regs);
    set_changes_one_register(frame, args, i, val, regs);
}

proof fn set_r0_stores(
    frame: u32,
    digits: Seq<u8>,
    val: u32,
    bp: Seq<Option<u32>>,
    watch: Seq<Option<u32>>,
    regs: Regs,
)
    requires
        frame_fits(frame),
        hex_number(digits) == Some(val),
    ensures
        run(byte_acts(Mode::Debug { frame }, text("set r0 ") + digits, 13, bp, watch), regs)
            == store(regs, (frame + 0) as u32, val),
{
    names_of_registers_differ();
    reveal_strlit("set ");
    reveal_strlit("r0");
    reveal_strlit("set r0 ");
    assert("set ".is_ascii() && "r0".is_ascii() && "set r0 ".is_ascii());
    assert(text("set r0 ").take(4) =~= text("set "));
    assert(text("set r0 ").subrange(4, 6) =~= text("r0"));
    set_line_writes(frame, "set r0 ", "r0", 0, digits, val, bp, watch, regs);
}

proof fn set_r1_stores(
    frame: u32,
    digits: Seq<u8>,
    val: u32,
    bp: Seq<Option<u32>>,
    watch: Seq<Option<u32>>,
    regs: Regs,
)
    requires
        frame_fits(frame),
        hex_number(digits) == Some(val),
    ensures
        run(byte_acts(Mode::Debug { frame }, text("set r1 ") + digits, 13, bp, watch), regs)
            == store(regs, (frame + 4) as u32, val),
{
    names_of_registers_differ();
    reveal_strlit("set ");
    reveal_strlit("r1");
    reveal_strlit("set r1 ");
    assert("set ".is_ascii() && "r1".is_ascii() && "set r1 ".is_ascii());
    assert(text("set r1 ").take(4) =~= text("set "));
    assert(text("set r1 ").subrange(4, 6) =~= text("r1"));
    set_line_writes(frame, "set r1 ", "r1", 1, digits, val, bp, watch, regs);
}

proof fn set_r2_stores(
    frame: u32,
    digits: Seq<u8>,
    val: u32,
    bp: Seq<Option<u32>>,
    watch: Seq<Option<u32>>,
    regs: Regs,
)
    requires
        frame_fits(frame),
        hex_number(digits) == Some(val),
    ensures
        run(byte_acts(Mode::Debug { frame }, text("set r2 ") + digits, 13, bp, watch), regs)
            == store(regs, (frame + 8) as u32, val),
{
    names_of_registers_differ();
    reveal_strlit("set ");
    reveal_strlit("r2");
    reveal_strlit("set r2 ");
    assert("set ".is_ascii() && "r2".is_ascii() && "set r2 ".is_ascii());
    assert(text("set r2 ").take(4) =~= text("set "));
    assert(text("set r2 ").subrange(4, 6) =~= text("r2"));
    set_line_writes(frame, "set r2 ", "r2", 2, digits, val, bp, watch, regs);
}

proof fn set_r3_stores(
    frame: u32,
    digits: Seq<u8>,
    val: u32,
    bp: Seq<Option<u32>>,
    watch: Seq<Option<u32>>,
    regs: Regs,
)
    requires
        frame_fits(frame),
        hex_number(digits) == Some(val),
    ensures
        run(byte_acts(Mode::Debug { frame }, text("set r3 ") + digits, 13, bp, watch), regs)
            == store(regs, (frame + 12) as u32, val),
{
    names_of_registers_differ();
    reveal_strlit("set ");
    reveal_strlit("r3");
    reveal_strlit("set r3 ");
    assert("set ".is_ascii() && "r3".is_ascii() && "set r3 ".is_ascii());
    assert(text("set r3 ").take(4) =~= text("set "));
    assert(text("set r3 ").subrange(4, 6) =~= text("r3"));
    set_line_writes(frame, "set r3 ", "r3", 3, digits, val, bp, watch, regs);
}

proof fn set_r12_stores(
    frame: u32,
    digits: Seq<u8>,
    val: u32,
    bp: Seq<Option<u32>>,
    watch: Seq<Option<u32>>,
    regs: Regs,
)
    requires
        frame_fits(frame),
        hex_number(digits) == Some(val),
    ensures
        run(byte_acts(Mode::Debug { frame }, text("set r12 ") + digits, 13, bp, watch), regs)
            == store(regs, (frame + 16) as u32, val),
{
    names_of_registers_differ();
    reveal_strlit("set ");
    reveal_strlit("r12");
    reveal_strlit("set r12 ");
    assert("set ".is_ascii() && "r12".is_ascii() && "set r12 ".is_ascii());
    assert(text("set r12 ").take(4) =~= text("set "));
    assert(text("set r12 ").subrange(4, 7) =~= text("r12"));
    set_line_writes(frame, "set r12 ", "r12", 4, digits, val, bp, watch, regs);
}

proof fn set_lr_stores(
    frame: u32,
    digits: Seq<u8>,
    val: u32,
    bp: Seq<Option<u32>>,
    watch: Seq<Option<u32>>,
    regs: Regs,
)
    requires
        frame_fits(frame),
        hex_number(digits) == Some(val),
    ensures
        run(byte_acts(Mode::Debug { frame }, text("set lr ") + digits, 13, bp, watch), regs)
            == store(regs, (frame + 20) as u32, val),
{
    names_of_registers_differ();
    reveal_strlit("set ");
    reveal_strlit("lr");
    reveal_strlit("set lr ");
    assert("set ".is_ascii() && "lr".is_ascii() && "set lr ".is_ascii());
    assert(text("set lr ").take(4) =~= text("set "));
    assert(text("set lr ").subrange(4, 6) =~= text("lr"));
    set_line_writes(frame, "set lr ", "lr", 5, digits, val, bp, watch, regs);
}

proof fn set_pc_stores(
    frame: u32,
    digits: Seq<u8>,
    val: u32,
    bp: Seq<Option<u32>>,
    watch: Seq<Option<u32>>,
    regs: Regs,
)
    requires
        frame_fits(frame),
        hex_number(digits) == Some(val),
    ensures
        run(byte_acts(Mode::Debug { frame }, text("set pc ") + digits, 13, bp, watch), regs)
            == store(regs, (frame + 24) as u32, val),
{
    names_of_registers_differ();
    reveal_strlit("set ");
    reveal_strlit("pc");
    reveal_strlit("set pc ");
    assert("set ".is_ascii() && "pc".is_ascii() && "set pc ".is_ascii());
    assert(text("set pc ").take(4) =~= text("set "));
    assert(text("set pc ").subrange(4, 6) =~= text("pc"));
    set_line_writes(frame, "set pc ", "pc", 6, digits, val, bp, watch, regs);
}

proof fn set_xpsr_stores(
    frame: u32,
    digits: Seq<u8>,
    val: u32,
    bp: Seq<Option<u32>>,
    watch: Seq<Option<u32>>,
    regs: Regs,
)
    requires
        frame_fits(frame),
        hex_number(digits) == Some(val),
    ensures
        run(byte_acts(Mode::Debug { frame }, text("set xpsr ") + digits, 13, bp, watch), regs)
            == store(regs, (frame + 28) as u32, val),
{
    names_of_registers_differ();
    reveal_strlit("set ");
    reveal_strlit("xpsr");
    reveal_strlit("set xpsr ");
    assert("set ".is_ascii() && "xpsr".is_ascii() && "set xpsr ".is_ascii());
    assert(text("set xpsr ").take(4) =~= text("set "));
    assert(text("set xpsr ").subrange(4, 8) =~= text("xpsr"));
    set_line_writes(frame, "set xpsr ", "xpsr", 7, digits, val, bp, watch, regs);
}

/// `set` with a register's name and a value stores the value in the word that was saved for
/// the register: r0 to r3, r12, lr, pc and xpsr stand in this order.
#[verifier::rlimit(50)]
pub proof fn set_stores_by_name(
    frame: u32,
    digits: Seq<u8>,
    val: u32,
    bp: Seq<Option<u32>>,
    watch: Seq<Option<u32>>,
    regs: Regs,
)
    requires
        frame_fits(frame),
        hex_number(digits) == Some(val),
    ensures
        run(byte_acts(Mode::Debug { frame }, text("set r0 ") + digits, 13, bp, watch), regs)
            == store(regs, (frame + 0) as u32, val),
        run(byte_acts(Mode::Debug { frame }, text("set r1 ") + digits, 13, bp, watch), regs)
            == store(regs, (frame + 4) as u32, val),
        run(byte_acts(Mode::Debug { frame }, text("set r2 ") + digits, 13, bp, watch), regs)
            == store(regs, (frame + 8) as u32, val),
        run(byte_acts(Mode::Debug { frame }, text("set r3 ") + digits, 13, bp, watch), regs)
            == store(regs, (frame + 12) as u32, val),
        run(byte_acts(Mode::Debug { frame }, text("set r12 ") + digits, 13, bp, watch), regs)
            == store(regs, (frame + 16) as u32, val),
        run(byte_acts(Mode::Debug { frame }, text("set lr ") + digits, 13, bp, watch), regs)
            == store(regs, (frame + 20) as u32, val),
        run(byte_acts(Mode::Debug { frame }, text("set pc ") + digits, 13, bp, watch), regs)
            == store(regs, (frame + 24) as u32, val),
        run(byte_acts(Mode::Debug { frame }, text("set xpsr ") + digits, 13, bp, watch), regs)
            == store(regs, (frame + 28) as u32, val),
{
    set_r0_stores(frame, digits, val, bp, watch, regs);
    set_r1_stores(frame, digits, val, bp, watch, regs);
    set_r2_stores(frame, digits, val, bp, watch, regs);
    set_r3_stores(frame, digits, val, bp, watch, regs);
    set_r12_stores(frame, digits, val, bp, watch, regs);
    set_lr_stores(frame, digits, val, bp, watch, regs);
    set_pc_stores(frame, digits, val, bp, watch, regs);
    set_xpsr_stores(frame, digits, val, bp, watch, regs);
}

proof fn names_of_registers_differ()
    ensures
        register_index(text("r0")) == Some(0u32),
        register_index(text("r1")) == Some(1u32),
        register_index(text("r2")) == Some(2u32),
        register_index(text("r3")) == Some(3u32),
        register_index(text("r12")) == Some(4u32),
        register_index(text("lr")) == Some(5u32),
        register_index(text("pc")) == Some(6u32),
        register_index(text("xpsr")) == Some(7u32),
{
    reveal_strlit("r0");
    reveal_strlit("r1");
    reveal_strlit("r2");
    reveal_strlit("r3");
    reveal_strlit("r12");
    reveal_strlit("lr");
    reveal_strlit("pc");
    reveal_strlit("xpsr");
    assert("r0".is_ascii() && "r1".is_ascii() && "r2".is_ascii() && "r3".is_ascii());
    assert("r12".is_ascii() && "lr".is_ascii() && "pc".is_ascii() && "xpsr".is_ascii());
    assert(text("r0").len() == 2 && text("r0")[0] == 114 && text("r0")[1] == 48);
    assert(text("r1").len() == 2 && text("r1")[0] == 114 && text("r1")[1] == 49);
    assert(text("r2").len() == 2 && text("r2")[0] == 114 && text("r2")[1] == 50);
    assert(text("r3").len() == 2 && text("r3")[0] == 114 && text("r3")[1] == 51);
    assert(text("r12").len() == 3 && text("r12")[0] == 114 && text("r12")[1] == 49);
    assert(text("r12")[2] == 50);
    assert(text("lr").len() == 2 && text("lr")[0] == 108 && text("lr")[1] == 114);
    assert(text("pc").len() == 2 && text("pc")[0] == 112 && text("pc")[1] == 99);
    assert(text("xpsr").len() == 4 && text("xpsr")[0] == 120 && text("xpsr")[1] == 112);
    assert(text("xpsr")[2] == 115 && text("xpsr")[3] == 114);
}

/// The reasons for which an application stopped, as text.
pub open spec fn reasons_text(dfsr: u32) -> Seq<u8> {
    (if dfsr & 2 == 2 {
        text(" [BKPT]")
    } else {
        Seq::empty()
    }) + (if dfsr & 4 == 4 {
        text(" [DWTTRAP]")
    } else {
        Seq::empty()
    }) + (if dfsr & 1 == 1 {
        text(" [HALTED]")
    } else {
        Seq::empty()
    })
}

/// Where an application stopped is reported by its address, the reasons, the registers and
/// the instruction at that address; bit 1 of the debug status stands for a breakpoint, bit 2
/// for a watchpoint, bit 0 for a halt or a step.
#[verifier::rlimit(50)]
pub proof fn stop_is_reported(frame: u32, dfsr: u32, pc: u32, mem: Memory)
    requires
        frame + 31 <= u32::MAX,
        pc < u32::MAX,
    ensures
        output(breakpoint_acts(frame, dfsr, pc), mem) == (text("\r\n*** BREAKPOINT ***\r\n")
            + text("PC=0x") + hex32(pc)) + reasons_text(dfsr) + text("\r\n") + (saved_registers(
            mem,
            frame,
        ) + text("\r\n")) + (text("instr=0x") + (hex8(byte_at(mem, pc, 1)) + hex8(
            byte_at(mem, pc, 0),
        )) + text("\r\n") + text("dbg> ")),
{
    let head = seq![say("\r\n*** BREAKPOINT ***\r\n"), say("PC=0x"), Act::Send(hex32(pc))];
    let why = reason_acts(dfsr);
    let end = seq![say("\r\n")];
    let tail = seq![
        say("instr=0x"),
        Act::Show { addr: pc, form: Form::Half },
        say("\r\n"),
        say("dbg> "),
    ];
    output_append(head, why, mem);
    output_append(head + why, end, mem);
    output_append(head + why + end, print_regs_acts(frame), mem);
    output_append(head + why + end + print_regs_acts(frame), tail, mem);
    print_regs_prints(mem, frame);
    reasons_are_told(dfsr, mem);
    assert(output(head, mem) =~= text("\r\n*** BREAKPOINT ***\r\n") + text("PC=0x") + hex32(
        pc,
    )) by {
        reveal_with_fuel(output_upto, 4);
    }
    assert(output(end, mem) =~= text("\r\n")) by {
        reveal_with_fuel(output_upto, 2);
    }
    instruction_is_told(pc, mem);
}

proof fn instruction_is_told(pc: u32, mem: Memory)
    requires
        pc < u32::MAX,
    ensures
        output(
            seq![
                say("instr=0x"),
                Act::Show { addr: pc, form: Form::Half },
                say("\r\n"),
                say("dbg> "),
            ],
            mem,
        ) == text("instr=0x") + (hex8(byte_at(mem, pc, 1)) + hex8(byte_at(mem, pc, 0))) + text(
            "\r\n",
        ) + text("dbg> "),
{
    let tail = seq![
        say("instr=0x"),
        Act::Show { addr: pc, form: Form::Half },
        say("\r\n"),
        say("dbg> "),
    ];
    let v = fetch(mem, pc, Form::Half);
    let hi = byte_at(mem, pc, 1);
    assert(mem((pc + 1) as u32) == hi && mem(pc) == byte_at(mem, pc, 0));
    assert(v == mem(pc) + 0x100 * hi);
    assert((v % 256) as u8 == mem(pc) && (v / 256 % 256) as u8 == hi);
    reveal_with_fuel(output_upto, 5);
    assert(output(tail, mem) =~= text("instr=0x") + (hex8(hi) + hex8(mem(pc))) + text("\r\n")
        + text("dbg> "));
}

proof fn reasons_are_told(dfsr: u32, mem: Memory)
    ensures
        output(reason_acts(dfsr), mem) == reasons_text(dfsr),
{
    assert((dfsr & 2 == 2 || dfsr & 2 == 0) && (dfsr & 4 == 4 || dfsr & 4 == 0) && (dfsr & 1 == 1
        || dfsr & 1 == 0)) by (bit_vector);
    reveal_with_fuel(output_upto, 4);
    assert(output(reason_acts(dfsr), mem) =~= reasons_text(dfsr));
}

/// The debugger's own commands are exactly these words, and lines that begin with `set` and
/// a space and hold something more.
pub proof fn debugger_knows_its_words(line: Seq<u8>)
    ensures
        debug_command_named(line) == DebugCommand::Cont <==> line == text("cont") || line == text(
            "c",
        ),
        debug_command_named(line) == DebugCommand::Step <==> line == text("step") || line == text(
            "s",
        ),
        debug_command_named(line) == DebugCommand::Stop <==> line == text("stop"),
        debug_command_named(line) == DebugCommand::Regs <==> line == text("regs"),
        debug_command_named(line) == DebugCommand::SetReg <==> line.len() > 4 && line.take(4)
            == text("set "),
{
    debugger_words_differ();
}

/// A line that is none of the debugger's own does at a breakpoint what it does in the shell,
/// and either ends in the prompt of where it was typed.
pub proof fn prompts_share_commands(
    frame: u32,
    line: Seq<u8>,
    ch: u8,
    bp: Seq<Option<u32>>,
    watch: Seq<Option<u32>>,
    mem: Memory,
    regs: Regs,
)
    requires
        line.len() > 0,
        ch == 13 || ch == 10,
    ensures
        ({
            let told = text("\r\n") + output(line_acts(line, bp, watch), mem);
            let done = line_next(line) == Next::Done;
            let shell = byte_acts(Mode::Shell, line, ch, bp, watch);
            &&& output(shell, mem) == told + (if done {
                text("> ")
            } else {
                Seq::empty()
            })
            &&& run(shell, regs) == run(line_acts(line, bp, watch), regs)
            &&& byte_next(Mode::Shell, line, ch) == line_next(line)
            &&& is_shared(Mode::Shell, line)
            &&& line != text("cont") && line != text("c") && line != text("stop") && line != text(
                "step",
            ) && line != text("s") && line != text("regs") && !(line.len() > 4 && line.take(4)
                == text("set ")) ==> {
                let debug = byte_acts(Mode::Debug { frame }, line, ch, bp, watch);
                &&& output(debug, mem) == told + (if done {
                    text("dbg> ")
                } else {
                    Seq::empty()
                })
                &&& run(debug, regs) == run(line_acts(line, bp, watch), regs)
                &&& byte_next(Mode::Debug { frame }, line, ch) == line_next(line)
                &&& is_shared(Mode::Debug { frame }, line)
            }
        }),
{
    entered_output(Mode::Shell, line, ch, bp, watch, mem, regs);
    entered_output(Mode::Debug { frame }, line, ch, bp, watch, mem, regs);
}

/// Enter on an empty line only asks again.
pub proof fn empty_lines_ask_again(
    mode: Mode,
    ch: u8,
    bp: Seq<Option<u32>>,
    watch: Seq<Option<u32>>,
    mem: Memory,
)
    requires
        ch == 13 || ch == 10,
    ensures
        output(byte_acts(mode, Seq::empty(), ch, bp, watch), mem) == text("\r\n") + (match mode {
            Mode::Debug { .. } => text("dbg> "),
            _ => text("> "),
        }),
        byte_next(mode, Seq::empty(), ch) == Next::Done,
        !is_shared(mode, Seq::empty()),
{
    entered_output(mode, Seq::empty(), ch, bp, watch, mem, Map::empty());
    assert(text("\r\n") + Seq::<u8>::empty() =~= text("\r\n"));
}

/// While an application runs, `stop` and `kill` stop it, `status` looks at the mode of the
/// motor timer at 0x40010018, `run` and `upload` are refused, and every other line does what
/// it does in the shell.
pub proof fn running_applications_can_be_managed(
    line: Seq<u8>,
    ch: u8,
    bp: Seq<Option<u32>>,
    watch: Seq<Option<u32>>,
    mem: Memory,
    regs: Regs,
)
    requires
        ch == 13 || ch == 10,
        command_words(line).len() > 0,
        line.len() > 0,
    ensures
        ({
            let word = command_words(line)[0];
            let acts = byte_acts(Mode::Live, line, ch, bp, watch);
            let next = byte_next(Mode::Live, line, ch);
            &&& word == text("stop") || word == text("kill") ==> {
                &&& next == Next::Gone
                &&& acts.last() == Act::Reset
                &&& is_coasting(run(acts, regs), Motor::A)
                &&& is_coasting(run(acts, regs), Motor::B)
                &&& !is_shared(Mode::Live, line)
            }
            &&& word == text("status") ==> {
                &&& next == Next::Status
                &&& acts.last() == (Act::Load { addr: 0x4001_0018 })
                &&& run(acts, regs) == regs
                &&& !is_shared(Mode::Live, line)
            }
            &&& word == text("run") || word == text("upload") ==> {
                &&& next == Next::Done
                &&& output(acts, mem) == text("\r\n") + text(
                    "An app is running (stop it first)\r\n",
                ) + text("> ")
                &&& run(acts, regs) == regs
                &&& !is_shared(Mode::Live, line)
            }
            &&& word != text("stop") && word != text("kill") && word != text("status") && word
                != text("run") && word != text("upload") ==> {
                &&& next == line_next(line)
                &&& output(acts, mem) == text("\r\n") + output(line_acts(line, bp, watch), mem) + (
                if line_next(line) == Next::Done {
                    text("> ")
                } else {
                    Seq::empty()
                })
                &&& run(acts, regs) == run(line_acts(line, bp, watch), regs)
                &&& is_shared(Mode::Live, line)
            }
        }),
{
    let word = command_words(line)[0];
    let acts = byte_acts(Mode::Live, line, ch, bp, watch);
    live_words_differ();
    entered_output(Mode::Live, line, ch, bp, watch, mem, regs);
    if word == text("stop") || word == text("kill") {
        stopping_stops_motors("Stopping app, rebooting to monitor...\r\n", line, bp, watch, regs);
        assert(acts.last() == stop_app_acts("Stopping app, rebooting to monitor...\r\n").last());
    } else if word == text("status") {
        let look = seq![ld(TIM1, TIM_CCMR1)];
        quiet_run(look, regs);
        assert(acts.last() == look.last());
    } else if word == text("run") || word == text("upload") {
        let refuse = seq![say("An app is running (stop it first)\r\n")];
        quiet_run(refuse, regs);
        reveal_with_fuel(output_upto, 2);
        assert(output(refuse, mem) =~= text("An app is running (stop it first)\r\n"));
    }
}

proof fn live_words_differ()
    ensures
        text("status") != text("stop") && text("status") != text("kill"),
        text("run") != text("stop") && text("run") != text("kill") && text("run") != text("status"),
        text("upload") != text("stop") && text("upload") != text("kill") && text("upload") != text(
            "status",
        ),
{
    reveal_strlit("stop");
    reveal_strlit("kill");
    reveal_strlit("status");
    reveal_strlit("run");
    reveal_strlit("upload");
    assert("stop".is_ascii() && "kill".is_ascii() && "status".is_ascii() && "run".is_ascii()
        && "upload".is_ascii());
    assert(text("status").len() == 6 && text("run").len() == 3 && text("upload").len() == 6
        && text("stop").len() == 4 && text("kill").len() == 4);
    assert(text("status")[0] == 115 && text("upload")[0] == 117);
}

/// The debugger acknowledges the debug status at 0xE000ED30 by writing it back, and looks at
/// the address where the application stands, the seventh saved word.
pub proof fn stop_is_acknowledged(p: Seq<Act>, frame: u32, dfsr: u32)
    requires
        frame_fits(frame),
        p == seq![wr(SCB_DFSR, 0, dfsr), Act::Load { addr: saved(frame, 6) }],
    ensures
        p == seq![
            Act::Write { addr: 0xE000_ED30, val: dfsr },
            Act::Load { addr: (frame + 24) as u32 },
        ],
        seq![ld(SCB_DFSR, 0)] == seq![Act::Load { addr: 0xE000_ED30 }],
{
}

/// What `set` answers, by its name and its digits with a space between them: a bad value is
/// told first, then an unknown name, and what could be stored is acknowledged. Without a space
/// it tells how it is used. Nothing is stored where it complains.
pub proof fn set_answers(frame: u32, name: Seq<u8>, digits: Seq<u8>, mem: Memory, regs: Regs)
    requires
        forall|i: int| 0 <= i < name.len() ==> name[i] != 0x20,
    ensures
        ({
            let acts = set_reg_acts(frame, name + seq![0x20u8] + digits);
            let known = name == text("r0") || name == text("r1") || name == text("r2") || name
                == text("r3") || name == text("r12") || name == text("lr") || name == text("pc")
                || name == text("xpsr");
            &&& hex_number(digits) is None ==> output(acts, mem) == text("Bad value\r\n") && run(
                acts,
                regs,
            ) == regs
            &&& hex_number(digits) is Some && !known ==> output(acts, mem) == text(
                "Unknown reg (r0-r3,r12,lr,pc,xpsr)\r\n",
            ) && run(acts, regs) == regs
            &&& hex_number(digits) is Some && known ==> output(acts, mem) == text("OK\r\n")
        }),
        output(set_reg_acts(frame, name), mem) == text("Usage: set <reg> <hex_val>\r\n"),
        run(set_reg_acts(frame, name), regs) == regs,
{
    let args = name + seq![0x20u8] + digits;
    let n = name.len() as int;
    first_space_is_first(args, 0, n);
    first_space_is_first(name, 0, 0);
    let sp = space_from(args, 0);
    assert(args[n] == 0x20);
    if sp < n {
        assert(args[sp] == name[sp]);
    }
    assert(sp == n);
    assert(args.take(sp) =~= name);
    assert(args.skip(sp + 1) =~= digits);
    reveal_with_fuel(output_upto, 3);
    reveal_with_fuel(run_upto, 2);
}

/// Ctrl-C gives up the line in the shell and at a breakpoint, and asks again.
pub proof fn cancelled_lines_ask_again(
    mode: Mode,
    line: Seq<u8>,
    bp: Seq<Option<u32>>,
    watch: Seq<Option<u32>>,
    mem: Memory,
)
    requires
        !(mode is Live),
    ensures
        output(byte_acts(mode, line, 3, bp, watch), mem) == (match mode {
            Mode::Debug { .. } => text("^C\r\ndbg> "),
            _ => text("^C\r\n> "),
        }),
        byte_next(mode, line, 3) == Next::Done,
{
    reveal_with_fuel(output_upto, 2);
}

/// The greeting, line by line.
pub proof fn greeting_in_full()
    ensures
        banner_acts() == seq![
            say("\r\n╔══════════════════════════════════╗\r\n"),
            say("║  LEGO Hub Debug Monitor v0.2    ║\r\n"),
            say("║  STM32F413 @ 96 MHz            ║\r\n"),
            say("║  Type 'help' for commands      ║\r\n"),
            say("╚══════════════════════════════════╝\r\n"),
            say("> "),
        ],
{
}

/// The prompt comes exactly when a command is done.
pub proof fn prompt_follows_what_is_done(mode: Mode, next: Next, mem: Memory)
    ensures
        output(prompt_acts(mode, next), mem) == if next == Next::Done {
            match mode {
                Mode::Debug { .. } => text("dbg> "),
                _ => text("> "),
            }
        } else {
            Seq::empty()
        },
{
    reveal_with_fuel(output_upto, 2);
}

/// Every reader of lines shows what is typed, takes it back, and passes over keys that mean
/// nothing.
pub proof fn keys_are_shown(
    mode: Mode,
    line: Seq<u8>,
    ch: u8,
    bp: Seq<Option<u32>>,
    watch: Seq<Option<u32>>,
    mem: Memory,
)
    requires
        ch != 3,
        ch != 10,
        ch != 13,
    ensures
        output(byte_acts(mode, line, ch, bp, watch), mem) == if ch == 8 || ch == 127 {
            if line.len() > 0 {
                text("\x08 \x08")
            } else {
                Seq::empty()
            }
        } else if 32 <= ch && ch < 127 && line.len() < 127 {
            seq![ch]
        } else {
            Seq::empty()
        },
        byte_next(mode, line, ch) == Next::Done,
{
    reveal_with_fuel(output_upto, 2);
}

} // verus!
