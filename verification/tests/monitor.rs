use spike_hub::command::{
    command_of, dispatch_command, resume, Command, Handlers, Next, FLUSH_POLLS, HELP,
};
use spike_hub::debug::{
    debug_monitor_enable, dwt_set_watchpoint, fpb_clear_breakpoint, fpb_set_breakpoint,
    fpb_set_enabled,
};
use spike_hub::freeze::{is_frozen, motor_freeze, motor_unfreeze, toggle_freeze};
use spike_hub::memory::cmd_peek;
use spike_hub::plan::{modified, show, Form, Op, Plan};
use spike_hub::protect::is_protected;
use spike_hub::upload::{cmd_upload, Upload};

const HANDLERS: Handlers = Handlers { debug: 0x0800_8101, tick: 0x0800_8201 };

fn text(p: &Plan) -> String {
    let mut out = Vec::new();
    for op in &p.ops {
        if let Op::Send(t) = op {
            out.extend_from_slice(t);
        }
    }
    String::from_utf8(out).unwrap()
}

fn concat(lines: &[&str]) -> String {
    lines.iter().map(|l| format!("{}\r\n", l)).collect()
}

fn run(line: &str, bp: &mut [Option<u32>; 6], watch: &mut [Option<u32>; 4]) -> (Plan, Next) {
    let s = dispatch_command(line.as_bytes(), bp, watch);
    (s.plan, s.next)
}

fn run_fresh(line: &str) -> (Plan, Next) {
    run(line, &mut [None; 6], &mut [None; 4])
}

#[test]
fn every_name_reaches_its_command() {
    assert_eq!(command_of(b"help"), Command::Help);
    assert_eq!(command_of(b"?"), Command::Help);
    assert_eq!(command_of(b"peek"), Command::Peek { width: 4 });
    assert_eq!(command_of(b"peek16"), Command::Peek { width: 2 });
    assert_eq!(command_of(b"peek8"), Command::Peek { width: 1 });
    assert_eq!(command_of(b"poke"), Command::Poke);
    assert_eq!(command_of(b"dump"), Command::Dump);
    assert_eq!(command_of(b"bp"), Command::Bp);
    assert_eq!(command_of(b"watch"), Command::Watch);
    assert_eq!(command_of(b"motors"), Command::Motors);
    assert_eq!(command_of(b"dbgmon"), Command::Dbgmon);
    assert_eq!(command_of(b"upload"), Command::Upload);
    assert_eq!(command_of(b"run"), Command::Run);
    assert_eq!(command_of(b"pause"), Command::Pause);
    assert_eq!(command_of(b"resume"), Command::Resume);
    assert_eq!(command_of(b"protect"), Command::Protect);
    assert_eq!(command_of(b"unprotect"), Command::Unprotect);
    assert_eq!(command_of(b"dfu"), Command::Dfu);
    assert_eq!(command_of(b"reboot"), Command::Reboot);
    assert_eq!(command_of(b"off"), Command::Off);
    assert_eq!(command_of(b"poweroff"), Command::Off);
    assert_eq!(command_of(b"nonsense"), Command::Unknown);
}

#[test]
fn help_lists_the_commands() {
    let (p, next) = run_fresh("help");
    assert_eq!(next, Next::Done);
    assert_eq!(text(&p), HELP);
    assert!(HELP.starts_with("LEGO Hub Monitor v0.2\r\nCommands:\r\n"));
    for name in [
        "help", "peek <addr>", "peek16", "peek8", "poke", "dump", "bp <addr>", "bp clear",
        "bp list", "watch <addr>", "watch clear", "watch list", "motors", "dbgmon", "upload",
        "run", "pause", "resume", "protect", "unprotect", "off / poweroff", "dfu", "reboot",
        "stop / kill", "status", "Ctrl+C", "cont / c", "stop", "step / s", "regs", "set <reg>",
    ] {
        assert!(HELP.contains(&format!("\n  {}", name)));
    }
    assert!(HELP.contains("jump to app\r\n                    (center button = pause)\r\n"));
    assert!(HELP.ends_with("  set <reg> <val>   Modify register (r0-r3,r12,lr,pc)\r\n"));
    assert_eq!(HELP.matches("\r\n").count(), 36);
}

#[test]
fn unknown_commands_are_named() {
    let (p, next) = run_fresh("frobnicate 1 2");
    assert_eq!(next, Next::Done);
    assert_eq!(text(&p), "Unknown: frobnicate (type 'help')\r\n");
}

#[test]
fn blank_lines_do_nothing() {
    let (p, next) = run_fresh("   ");
    assert_eq!(next, Next::Done);
    assert!(p.ops.is_empty());
}

#[test]
fn peek_shows_a_word() {
    let (p, _) = run_fresh("peek 20000004");
    assert_eq!(
        p.ops,
        vec![
            Op::Send(b"0x".to_vec()),
            Op::Send(b"20000004".to_vec()),
            Op::Send(b" = 0x".to_vec()),
            Op::Show { addr: 0x2000_0004, form: Form::Word },
            Op::Send(b"\r\n".to_vec()),
        ]
    );
}

#[test]
fn peek_wants_an_aligned_address() {
    assert_eq!(text(&run_fresh("peek").0), "Usage: peek <hex_addr>\r\n");
    assert_eq!(text(&run_fresh("peek zz").0), "Bad address\r\n");
    assert_eq!(text(&run_fresh("peek 20000002").0), "Address not 4-byte aligned\r\n");
    assert_eq!(text(&run_fresh("peek16 20000001").0), "Address not 2-byte aligned\r\n");
    let (p, _) = run_fresh("peek16 20000002");
    assert_eq!(p.ops[3], Op::Show { addr: 0x2000_0002, form: Form::Half });
    let (p, _) = run_fresh("peek8 20000003");
    assert_eq!(p.ops[3], Op::Show { addr: 0x2000_0003, form: Form::Byte });
}

#[test]
fn any_other_width_peeks_a_byte() {
    let p = cmd_peek(&[b"20000003".to_vec()], 7);
    assert_eq!(p.ops[3], Op::Show { addr: 0x2000_0003, form: Form::Byte });
}

#[test]
fn shown_values_have_the_width_of_their_form() {
    assert_eq!(show(Form::Word, 0x1234_ABCD), b"1234abcd");
    assert_eq!(show(Form::Half, 0x0000_ABCD), b"abcd");
    assert_eq!(show(Form::Byte, 0xCD), b"cd");
    assert_eq!(show(Form::Ascii, 0x41), b"A");
    assert_eq!(show(Form::Ascii, 0x7F), b".");
    assert_eq!(show(Form::Ascii, 0x1F), b".");
}

#[test]
fn poke_writes_a_word() {
    let (p, next) = run_fresh("poke 20000000 cafe");
    assert_eq!(next, Next::Done);
    assert_eq!(
        p.ops,
        vec![Op::Write { addr: 0x2000_0000, val: 0xCAFE }, Op::Send(b"OK\r\n".to_vec())]
    );
    assert_eq!(text(&run_fresh("poke 20000000").0), "Usage: poke <hex_addr> <hex_val>\r\n");
    assert_eq!(text(&run_fresh("poke q 1").0), "Bad address\r\n");
    assert_eq!(text(&run_fresh("poke 0 q").0), "Bad value\r\n");
    assert_eq!(text(&run_fresh("poke 1 1").0), "Address not 4-byte aligned\r\n");
}

#[test]
fn dump_shows_sixteen_bytes_a_line() {
    let (p, _) = run_fresh("dump 1000 12");
    let shows: Vec<&Op> = p.ops.iter().filter(|o| matches!(o, Op::Show { .. })).collect();
    assert_eq!(shows.len(), 2 * 0x12);
    assert_eq!(shows[0], &Op::Show { addr: 0x1000, form: Form::Byte });
    assert_eq!(shows[16], &Op::Show { addr: 0x1000, form: Form::Ascii });
    assert_eq!(shows[32], &Op::Show { addr: 0x1010, form: Form::Byte });
    assert_eq!(
        text(&p),
        format!("0x00001000: {} ||\r\n0x00001010:    ||\r\n", " ".repeat(16))
    );
}

#[test]
fn dump_stops_at_256_bytes() {
    let (p, _) = run_fresh("dump 20000000 1000");
    let bytes = p.ops.iter().filter(|o| matches!(o, Op::Show { form: Form::Byte, .. })).count();
    assert_eq!(bytes, 256);
    let (p, _) = run_fresh("dump 20000000 0");
    assert!(p.ops.is_empty());
    assert_eq!(text(&run_fresh("dump 1").0), "Usage: dump <hex_addr> <hex_len>\r\n");
    assert_eq!(text(&run_fresh("dump g 1").0), "Bad address\r\n");
    assert_eq!(text(&run_fresh("dump 1 g").0), "Bad length\r\n");
}

#[test]
fn dump_wraps_at_the_end_of_memory() {
    let (p, _) = run_fresh("dump fffffffe 4");
    assert_eq!(p.ops[3], Op::Show { addr: 0xFFFF_FFFE, form: Form::Byte });
    assert_eq!(p.ops[7], Op::Show { addr: 0, form: Form::Byte });
}

#[test]
fn breakpoints_take_the_first_free_slot() {
    let mut bp = [None; 6];
    let mut watch = [None; 4];
    let (p, _) = run("bp 8010100", &mut bp, &mut watch);
    assert_eq!(bp, [Some(0x0801_0100), None, None, None, None, None]);
    assert_eq!(p.ops[0], Op::Write { addr: 0xE000_2000, val: 3 });
    assert_eq!(p.ops[1], Op::Write { addr: 0xE000_2008, val: 0x4801_0101 });
    assert_eq!(text(&p), "BP [0] set at 0x08010100\r\n");
    let (p, _) = run("bp 8010102", &mut bp, &mut watch);
    assert_eq!(bp[1], Some(0x0801_0102));
    assert_eq!(p.ops[1], Op::Write { addr: 0xE000_200C, val: 0x8801_0101 });
    let (p, _) = run("bp clear 0", &mut bp, &mut watch);
    assert_eq!(bp, [None, Some(0x0801_0102), None, None, None, None]);
    assert_eq!(p.ops[0], Op::Write { addr: 0xE000_2008, val: 0 });
    assert_eq!(text(&p), "BP cleared\r\n");
    run("bp 8010104", &mut bp, &mut watch);
    assert_eq!(bp[0], Some(0x0801_0104));
    assert_eq!(watch, [None; 4]);
}

#[test]
fn breakpoints_are_listed() {
    let mut bp = [Some(0x0801_0000), None, None, None, None, None];
    let (p, _) = run("bp list", &mut bp, &mut [None; 4]);
    let empty: String = (1..6).map(|i| format!("  [{}] empty\r\n", i)).collect();
    assert_eq!(text(&p), format!("  [0] 0x08010000\r\n{}", empty));
}

#[test]
fn address_zero_takes_a_slot_like_any_other() {
    let mut bp = [None; 6];
    let mut watch = [None; 4];
    run("bp 0", &mut bp, &mut watch);
    assert_eq!(bp[0], Some(0));
    let (p, _) = run("bp list", &mut bp, &mut watch);
    assert!(text(&p).starts_with("  [0] 0x00000000\r\n  [1] empty\r\n"));
    let (p, _) = run("bp 8010000", &mut bp, &mut watch);
    assert_eq!(text(&p), "BP [1] set at 0x08010000\r\n");
    run("bp clear 0", &mut bp, &mut watch);
    assert_eq!(bp[0], None);
    run("watch 0", &mut bp, &mut watch);
    assert_eq!(watch[0], Some(0));
    let (p, _) = run("watch list", &mut bp, &mut watch);
    assert!(text(&p).starts_with("  [0] 0x00000000\r\n"));
}

#[test]
fn breakpoints_are_refused() {
    let mut bp = [1, 2, 3, 4, 5, 6].map(Some);
    let mut watch = [None; 4];
    assert_eq!(text(&run("bp 100", &mut bp, &mut watch).0), "No free BP slots\r\n");
    assert_eq!(bp, [1, 2, 3, 4, 5, 6].map(Some));
    assert_eq!(
        text(&run("bp", &mut bp, &mut watch).0),
        "Usage: bp <addr> | bp clear [id] | bp list\r\n"
    );
    assert_eq!(
        text(&run("bp 20000000", &mut bp, &mut watch).0),
        "FPB only supports code region (<0x20000000)\r\n"
    );
    assert_eq!(text(&run("bp xx", &mut bp, &mut watch).0), "Bad address\r\n");
    assert_eq!(text(&run("bp clear 6", &mut bp, &mut watch).0), "Invalid BP id\r\n");
    assert!(run("bp clear zz", &mut bp, &mut watch).0.ops.is_empty());
    let (p, _) = run("bp clear", &mut bp, &mut watch);
    assert_eq!(bp, [None; 6]);
    assert_eq!(p.ops.len(), 7);
    assert_eq!(text(&p), "All BPs cleared\r\n");
}

#[test]
fn watchpoints_follow_their_table() {
    let mut bp = [None; 6];
    let mut watch = [None; 4];
    let (p, _) = run("watch 20000010", &mut bp, &mut watch);
    assert_eq!(watch, [Some(0x2000_0010), None, None, None]);
    assert_eq!(
        p.ops[..3],
        [
            Op::Write { addr: 0xE000_1020, val: 0x2000_0010 },
            Op::Write { addr: 0xE000_1024, val: 0 },
            Op::Write { addr: 0xE000_1028, val: 6 },
        ]
    );
    assert_eq!(text(&p), "Watch [0] on write to 0x20000010\r\n");
    let (p, _) = run("watch clear 0", &mut bp, &mut watch);
    assert_eq!(p.ops[0], Op::Write { addr: 0xE000_1028, val: 0 });
    assert_eq!(text(&p), "Watch cleared\r\n");
    assert_eq!(watch, [None; 4]);
    assert!(run("watch clear 4", &mut bp, &mut watch).0.ops.is_empty());
    let mut full = [1, 2, 3, 4].map(Some);
    assert_eq!(text(&run("watch 10", &mut bp, &mut full).0), "No free watch slots\r\n");
    assert_eq!(text(&run("watch clear", &mut bp, &mut full).0), "All watches cleared\r\n");
    assert_eq!(full, [None; 4]);
    assert_eq!(
        text(&run("watch", &mut bp, &mut full).0),
        "Usage: watch <addr> | watch clear [id] | watch list\r\n"
    );
    assert_eq!(text(&run("watch q", &mut bp, &mut full).0), "Bad address\r\n");
    assert_eq!(
        text(&run("watch list", &mut bp, &mut [Some(9), None, None, None]).0),
        "  [0] 0x00000009\r\n  [1] empty\r\n  [2] empty\r\n  [3] empty\r\n"
    );
}

#[test]
fn comparators_have_limits() {
    assert!(!fpb_set_breakpoint(6, 0x100).0);
    assert!(!fpb_set_breakpoint(0, 0x2000_0000).0);
    assert!(fpb_clear_breakpoint(6).ops.is_empty());
    assert!(!dwt_set_watchpoint(4, 0, true).0);
    let (ok, p) = dwt_set_watchpoint(1, 0x2000_0000, false);
    assert!(ok);
    assert_eq!(p.ops[2], Op::Write { addr: 0xE000_1038, val: 7 });
    let (_, p) = dwt_set_watchpoint(1, 0x2000_0000, true);
    assert_eq!(p.ops[2], Op::Write { addr: 0xE000_1038, val: 6 });
    assert_eq!(fpb_set_enabled(true).ops, vec![Op::Write { addr: 0xE000_2000, val: 3 }]);
    assert_eq!(fpb_set_enabled(false).ops, vec![Op::Write { addr: 0xE000_2000, val: 2 }]);
}

#[test]
fn dbgmon_needs_halting_debug_off() {
    let (p, next) = run_fresh("dbgmon");
    assert_eq!(p.ops, vec![Op::Load { addr: 0xE000_EDF0 }]);
    assert_eq!(next, Next::DebugMonitor);
    let s = resume(next, [0, 0, 0], HANDLERS);
    assert_eq!(s.next, Next::Done);
    assert_eq!(s.plan.ops[0], Op::Modify { addr: 0xE000_EDFC, clear: 0, set: 1 << 16 });
    assert_eq!(s.plan.ops[1], Op::Modify { addr: 0xE000_ED20, clear: 0xFF, set: 0xFF });
    assert_eq!(text(&s.plan), "DebugMonitor enabled (priority 0xFF)\r\n");
    let s = resume(next, [1, 0, 0], HANDLERS);
    assert_eq!(text(&s.plan), "Cannot enable: halting debug is active\r\n");
    assert_eq!(s.plan.ops.len(), 1);
    assert!(!debug_monitor_enable(1).0);
    assert!(debug_monitor_enable(2).0);
}

#[test]
fn run_starts_a_valid_application() {
    let (p, next) = run_fresh("run");
    assert_eq!(p.ops, vec![Op::Load { addr: 0x0801_0000 }, Op::Load { addr: 0x0801_0004 }]);
    assert_eq!(next, Next::AppVector);
    let s = resume(next, [0x2005_0000, 0x0801_0201, 0], HANDLERS);
    assert_eq!(s.plan.ops, vec![Op::Load { addr: 0xE000_EDF0 }]);
    assert_eq!(s.next, Next::Arm { sp: 0x2005_0000, pc: 0x0801_0201 });
    let s = resume(s.next, [0, 0, 0], HANDLERS);
    assert_eq!(s.next, Next::Gone);
    assert_eq!(
        text(&s.plan),
        "Monitor armed. Center button = pause.\r\nJumping to app...\r\n"
    );
    assert_eq!(s.plan.ops[2], Op::Write { addr: 0x2004_FFE0, val: HANDLERS.debug });
    assert!(s.plan.ops.contains(&Op::Flush { polls: FLUSH_POLLS }));
    assert!(s.plan.ops.contains(&Op::Write { addr: 0x2004_FFE4, val: HANDLERS.tick }));
    assert!(s.plan.ops.contains(&Op::Write { addr: 0xE000_E014, val: 95_999 }));
    assert_eq!(
        s.plan.ops.last(),
        Some(&Op::Launch { sp: 0x2005_0000, pc: 0x0801_0201, irqs: true })
    );
}

#[test]
fn run_refuses_what_is_no_application() {
    let s = resume(Next::AppVector, [0xFFFF_FFFF, 0xFFFF_FFFF, 0], HANDLERS);
    assert_eq!(s.next, Next::Done);
    assert_eq!(
        text(&s.plan),
        "No valid app at 0x08010000\r\n  SP=0xffffffff PC=0xffffffff\r\n"
    );
}

#[test]
fn leaving_commands_say_goodbye() {
    let (p, next) = run_fresh("dfu");
    assert_eq!(next, Next::Gone);
    assert_eq!(
        p.ops,
        vec![
            Op::Send(b"Entering DFU...\r\n".to_vec()),
            Op::Flush { polls: 50_000 },
            Op::Write { addr: 0x2004_FFF0, val: 0xDEAD_B007 },
            Op::Reset,
        ]
    );
    let (p, next) = run_fresh("reboot");
    assert_eq!(next, Next::Gone);
    assert_eq!(
        p.ops,
        vec![Op::Send(b"Rebooting...\r\n".to_vec()), Op::Flush { polls: 50_000 }, Op::Reset]
    );
    let (p, next) = run_fresh("poweroff");
    assert_eq!(next, Next::Gone);
    assert_eq!(p.ops, vec![Op::Write { addr: 0x4002_0018, val: 1 << 29 }, Op::Sleep]);
}

#[test]
fn motors_reports_pins_and_timer() {
    let (p, next) = run_fresh("motors");
    assert_eq!(
        text(&p),
        concat(&[
            "=== Motor Diagnostics ===",
            "A: PE9/PE11 (TIM1 CH1/CH2)",
            "B: PE13/PE14 (TIM1 CH3/CH4)",
            "C: PB6/PB7 (TIM4 CH1/CH2)",
            "D: PB8/PB9 (TIM4 CH3/CH4)",
            "E: PC6/PC7 (TIM3 CH1/CH2)",
            "F: PC8/PB1 (TIM3 CH3/CH4)",
            "",
        ])
    );
    assert_eq!(p.ops.last(), Some(&Op::Load { addr: 0x4002_1000 }));
    assert_eq!(next, Next::MotorModes);
    // PE9 timer, PE11 output, PE13 input, PE14 analog
    let moder = (2 << 18) | (1 << 22) | (3 << 28);
    let s = resume(next, [moder, 0, 0], HANDLERS);
    assert_eq!(s.next, Next::MotorFunctions);
    assert_eq!(
        text(&s.plan),
        "GPIOE_MODER=0x30480000\r\n  PE9 =AF \r\n  PE11=Out\r\n  PE13=In \r\n  PE14=Ana\r\n"
    );
    assert_eq!(s.plan.ops.last(), Some(&Op::Load { addr: 0x4002_1024 }));
    let s = resume(s.next, [(1 << 4) | (1 << 12) | (2 << 20), 0, 0], HANDLERS);
    assert_eq!(s.next, Next::MotorFlags);
    assert!(text(&s.plan).starts_with(
        "GPIOE_AFRH =0x00201010\r\n  PE9 =AF1\r\n  PE11=AF1\r\n  PE13=AF2\r\n  PE14=AF0\r\n\r\nTIM1:\r\n  CR1  =0x"
    ));
    assert!(s.plan.ops.contains(&Op::Show { addr: 0x4001_0040, form: Form::Word }));
    let s = resume(s.next, [1, 1 << 15, 0x0110], HANDLERS);
    assert_eq!(s.next, Next::MotorBankB);
    assert_eq!(text(&s.plan), "\r\n  CEN=1 MOE=1 CH1=0 CH2=1 CH3=1 CH4=0\r\n");
    let n = s.plan.ops.len();
    assert_eq!(
        s.plan.ops[n - 3..],
        [0x4002_0400, 0x4002_0420, 0x4002_0424].map(|addr| Op::Load { addr })
    );
    // PB6 timer, PB7 output, PB8 analog, PB9 timer, PB1 input
    let moder = (2 << 12) | (1 << 14) | (3 << 16) | (2 << 18);
    let s = resume(s.next, [moder, (2 << 24) | (1 << 4), 2 << 4], HANDLERS);
    assert_eq!(s.next, Next::MotorBankC);
    assert_eq!(
        text(&s.plan),
        concat(&[
            "",
            "GPIOB_MODER=0x000b6000",
            "  PB6 =AF ",
            "  PB7 =Out",
            "  PB8 =Ana",
            "  PB9 =AF ",
            "  PB1 =In ",
            "GPIOB_AFRL =0x02000010",
            "GPIOB_AFRH =0x00000020",
            "  PB6 =AF2",
            "  PB7 =AF0",
            "  PB8 =AF0",
            "  PB9 =AF2",
            "  PB1 =AF1",
        ])
    );
    let s = resume(s.next, [2 << 14, 2 << 28, 2], HANDLERS);
    assert_eq!(s.next, Next::MotorTimer4);
    assert!(text(&s.plan).contains("  PC6 =In \r\n  PC7 =AF \r\n  PC8 =In \r\n"));
    assert!(text(&s.plan).ends_with("  PC6 =AF0\r\n  PC7 =AF2\r\n  PC8 =AF2\r\n"));
    let s = resume(s.next, [1, 0x1001, 0], HANDLERS);
    assert_eq!(s.next, Next::MotorTimer3);
    assert!(text(&s.plan).starts_with("\r\nTIM4:\r\n  CR1  =0x"));
    assert!(text(&s.plan).ends_with("(Port D)\r\n\r\n  CEN=1 CH1=1 CH2=0 CH3=0 CH4=1\r\n"));
    assert!(s.plan.ops.contains(&Op::Show { addr: 0x4000_0834, form: Form::Word }));
    let s = resume(s.next, [0, 0, 0], HANDLERS);
    assert_eq!(s.next, Next::Done);
    assert!(text(&s.plan).starts_with("\r\nTIM3:\r\n"));
    assert!(text(&s.plan).contains("  (Port E)\r\n") && text(&s.plan).contains("  (Port F)\r\n"));
    assert!(s.plan.ops.contains(&Op::Show { addr: 0x4000_0440, form: Form::Word }));
}

#[test]
fn finished_steps_have_nothing_left() {
    for next in [Next::Done, Next::Upload] {
        let s = resume(next, [1, 2, 3], HANDLERS);
        assert!(s.plan.ops.is_empty());
        assert_eq!(s.next, Next::Done);
    }
    assert_eq!(resume(Next::Return, [0; 3], HANDLERS).next, Next::Return);
    assert_eq!(resume(Next::Gone, [0; 3], HANDLERS).next, Next::Gone);
}

#[test]
fn upload_erases_the_sector_first() {
    let p = cmd_upload();
    assert_eq!(p.ops[0], Op::Write { addr: 0x4002_3C04, val: 0x4567_0123 });
    assert_eq!(p.ops[1], Op::Write { addr: 0x4002_3C04, val: 0xCDEF_89AB });
    assert_eq!(p.ops[4], Op::Write { addr: 0x4002_3C10, val: 0x0001_0222 });
    assert_eq!(p.ops[8], Op::Write { addr: 0x4002_3C10, val: 0x0000_0201 });
    assert_eq!(
        text(&p),
        "Erasing sector 4... OK\r\nSend: ADDR VALUE (hex), 'end' to finish.\r\n"
    );
}

#[test]
fn upload_programs_what_is_sent() {
    let mut up = Upload::new();
    let (p, over) = up.receive(b"08010000 20050000\r\n0801");
    assert!(!over);
    assert_eq!(
        p.ops,
        vec![
            Op::WaitClear { addr: 0x4002_3C0C, mask: 1 << 16 },
            Op::Write { addr: 0x0801_0000, val: 0x2005_0000 },
            Op::WaitClear { addr: 0x4002_3C0C, mask: 1 << 16 },
        ]
    );
    let (p, _) = up.receive(b"0004 08010201\n");
    assert_eq!(p.ops[1], Op::Write { addr: 0x0801_0004, val: 0x0801_0201 });
    let (p, over) = up.receive(b"end\r08010008 1\r");
    assert!(over);
    assert_eq!(text(&p), "OK 00000008 bytes\r\n");
    assert_eq!(p.ops[0], Op::Write { addr: 0x4002_3C10, val: 0 });
    assert_eq!(p.ops[1], Op::Modify { addr: 0x4002_3C10, clear: 0, set: 1 << 31 });
    assert_eq!(p.ops.len(), 5);
}

#[test]
fn upload_programs_nothing_else() {
    let mut up = Upload::new();
    for line in [
        "08008000 1\n",
        "0800fffc 1\n",
        "08020000 1\n",
        "08010002 1\n",
        "20000000 1\n",
        "08010000\n",
        "08010000 xyz\n",
        "xyz 08010000\n",
        " 08010000 1\n",
        "\n\r\n",
        "ending\n",
    ] {
        let (p, over) = up.receive(line.as_bytes());
        assert!(p.ops.is_empty());
        assert!(!over);
    }
    assert_eq!(up.total, 0);
    let (p, _) = up.receive(b"0801fffc 1\n");
    assert_eq!(p.ops.len(), 3);
    assert_eq!(up.total, 4);
}

#[test]
fn upload_drops_what_a_line_has_no_room_for() {
    let mut up = Upload::new();
    let mut long = vec![b'x'; 40];
    long.push(b'\n');
    assert!(up.receive(&long).0.ops.is_empty());
    assert_eq!(up.len, 0);
    assert!(!up.receive(&[b'y'; 40]).1);
    assert_eq!(up.len, 32);
}

#[test]
fn read_modify_write_clears_and_sets() {
    assert_eq!(modified(0xFFFF_FFFF, 0xF0, 0x10), 0xFFFF_FF1F);
    assert_eq!(modified(0, 0, 0x8000), 0x8000);
    assert!(Op::WaitSet { addr: 0, mask: 2 }.satisfied(3));
    assert!(!Op::WaitSet { addr: 0, mask: 2 }.satisfied(1));
    assert!(Op::WaitClear { addr: 0, mask: 2 }.satisfied(1));
    assert!(!Op::WaitClear { addr: 0, mask: 2 }.satisfied(2));
    assert!(Op::WaitEq { addr: 0, mask: 0xC, val: 8 }.satisfied(0x1B));
    assert!(!Op::WaitEq { addr: 0, mask: 0xC, val: 8 }.satisfied(0xC));
    assert!(Op::Poll { addr: 0, mask: 2, tries: 1 }.satisfied(2));
    assert!(Op::Reset.satisfied(0));
}

#[test]
fn protect_programs_the_option_bytes() {
    let (p, next) = run_fresh("protect");
    assert_eq!(next, Next::Done);
    assert_eq!(
        p.ops[..7],
        [
            Op::Write { addr: 0x4002_3C08, val: 0x0819_2A3B },
            Op::Write { addr: 0x4002_3C08, val: 0x4C5D_6E7F },
            Op::WaitClear { addr: 0x4002_3C0C, mask: 1 << 16 },
            Op::Modify { addr: 0x4002_3C14, clear: 0xF_0000, set: 0 },
            Op::Modify { addr: 0x4002_3C14, clear: 0, set: 2 },
            Op::WaitClear { addr: 0x4002_3C0C, mask: 1 << 16 },
            Op::Modify { addr: 0x4002_3C14, clear: 0, set: 1 },
        ]
    );
    assert_eq!(text(&p), "Sectors 0-3 write-protected\r\n");
    let (p, _) = run_fresh("unprotect");
    assert_eq!(p.ops[3], Op::Modify { addr: 0x4002_3C14, clear: 0, set: 0xF_0000 });
    assert_eq!(text(&p), "Sectors 0-3 writable\r\n");
    assert!(is_protected(0x0FF0_AAED));
    assert!(!is_protected(0x0FF1_AAED));
}

#[test]
fn pause_and_resume_freeze_the_motors() {
    let (p, next) = run_fresh("pause");
    assert_eq!(next, Next::Done);
    assert_eq!(text(&p), "Motors frozen\r\n");
    assert_eq!(p.ops[0], Op::Modify { addr: 0x4001_0018, clear: 0x7070, set: 0x4040 });
    assert_eq!(p.ops[5], Op::Modify { addr: 0x4000_041C, clear: 0x7070, set: 0x4040 });
    let (p, _) = run_fresh("resume");
    assert_eq!(text(&p), "Motors running\r\n");
    assert_eq!(p.ops[2], Op::Modify { addr: 0x4000_0818, clear: 0x7070, set: 0x6060 });
    assert!(is_frozen(0x4848));
    assert!(!is_frozen(0x6868));
    assert_eq!(toggle_freeze(0x6868), motor_freeze());
    assert_eq!(toggle_freeze(0x4848), motor_unfreeze());
}
