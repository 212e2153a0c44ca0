use spike_hub::button::{systick_handler, Tick};
use spike_hub::command::{Handlers, Next};
use spike_hub::console::{
    banner, dbg_print_regs, dbg_set_reg, debug_acknowledge, debug_entry, debug_report, Console,
    Mode, Tables,
};
use spike_hub::freeze::motor_freeze;
use spike_hub::motor::motor_coast_all;
use spike_hub::plan::{Form, Op, Plan};
use spike_hub::serial::{Attempt, Onward, Sender};
use spike_hub::shell::ShellState;

const FRAME: u32 = 0x2000_1000;

fn text(p: &Plan) -> String {
    let mut out = Vec::new();
    for op in &p.ops {
        if let Op::Send(t) = op {
            out.extend_from_slice(t);
        }
    }
    String::from_utf8(out).unwrap()
}

fn type_in(c: &mut Console, t: &mut Tables, keys: &str) -> (Vec<Op>, Next) {
    let mut ops = Vec::new();
    let mut next = Next::Done;
    for b in keys.bytes() {
        let s = c.on_byte(b, t);
        ops.extend(s.plan.ops);
        next = s.next;
    }
    (ops, next)
}

fn enter(mode: Mode, line: &str) -> (String, Vec<Op>, Next, Tables) {
    let mut c = Console::new(mode);
    let mut t = Tables::new();
    t.tick.debounce = 7;
    let (echo, _) = type_in(&mut c, &mut t, line);
    assert_eq!(text(&Plan { ops: echo }), line);
    let s = c.on_byte(b'\r', &mut t);
    let out = text(&s.plan);
    (out, s.plan.ops, s.next, t)
}

#[test]
fn keys_are_echoed_and_gathered() {
    let mut sh = ShellState::new();
    let (p, line) = sh.feed(b'h', "^C");
    assert_eq!(text(&p), "h");
    assert!(line.is_none());
    sh.feed(b'i', "^C");
    let (p, line) = sh.feed(b'\n', "^C");
    assert_eq!(text(&p), "\r\n");
    assert_eq!(line, Some(b"hi".to_vec()));
    let (_, line) = sh.feed(b'\r', "^C");
    assert_eq!(line, Some(Vec::new()));
}

#[test]
fn backspace_takes_back_a_character() {
    let mut sh = ShellState::new();
    assert!(sh.feed(0x08, "").0.ops.is_empty());
    sh.feed(b'a', "");
    sh.feed(b'b', "");
    assert_eq!(text(&sh.feed(0x7F, "").0), "\x08 \x08");
    let (_, line) = sh.feed(b'\r', "");
    assert_eq!(line, Some(b"a".to_vec()));
}

#[test]
fn control_characters_are_ignored() {
    let mut sh = ShellState::new();
    for b in [0x00u8, 0x09, 0x1B, 0x80, 0xFF] {
        assert!(sh.feed(b, "").0.ops.is_empty());
    }
    assert_eq!(sh.cmd_len, 0);
}

#[test]
fn a_line_has_at_most_127_characters() {
    let mut sh = ShellState::new();
    for _ in 0..127 {
        assert_eq!(sh.feed(b'x', "").0.ops.len(), 1);
    }
    assert!(sh.feed(b'y', "").0.ops.is_empty());
    assert_eq!(sh.cmd_len, 127);
    sh.reset();
    assert_eq!(sh.cmd_len, 0);
}

#[test]
fn cancel_drops_the_line() {
    let mut c = Console::new(Mode::Shell);
    let mut t = Tables::new();
    let (ops, _) = type_in(&mut c, &mut t, "reboot\x03\r");
    assert_eq!(text(&Plan { ops }), "reboot^C\r\n> \r\n> ");
    let mut c = Console::new(Mode::Debug { frame: FRAME });
    let (ops, _) = type_in(&mut c, &mut t, "\x03");
    assert_eq!(text(&Plan { ops }), "^C\r\ndbg> ");
}

#[test]
fn the_prompt_follows_a_command_that_is_done() {
    let (out, _, next, _) = enter(Mode::Shell, "peek");
    assert_eq!(out, "\r\nUsage: peek <hex_addr>\r\n> ");
    assert_eq!(next, Next::Done);
    let (out, _, next, _) = enter(Mode::Shell, "dbgmon");
    assert_eq!(out, "\r\n");
    assert_eq!(next, Next::DebugMonitor);
    let c = Console::new(Mode::Shell);
    let s = c.resume(Next::DebugMonitor, [0; 3], Handlers { debug: 0, tick: 0 });
    assert_eq!(text(&s.plan), "DebugMonitor enabled (priority 0xFF)\r\n> ");
    let s = c.resume(Next::Upload, [0; 3], Handlers { debug: 0, tick: 0 });
    assert_eq!(text(&s.plan), "> ");
}

#[test]
fn the_shell_keeps_breakpoints() {
    let (_, _, _, t) = enter(Mode::Shell, "bp 100");
    assert_eq!(t.bp, [Some(0x100), None, None, None, None, None]);
    let (_, _, _, t) = enter(Mode::Debug { frame: FRAME }, "watch 200");
    assert_eq!(t.watch, [Some(0x200), None, None, None]);
}

#[test]
fn the_greeting_ends_in_a_prompt() {
    let t = text(&banner());
    assert!(t.contains("║  LEGO Hub Debug Monitor v0.2    ║\r\n"));
    assert!(t.ends_with("╝\r\n> "));
}

#[test]
fn the_debugger_reports_where_and_why() {
    assert_eq!(debug_entry().ops, vec![Op::Load { addr: 0xE000_ED30 }]);
    assert_eq!(
        debug_acknowledge(FRAME, 6).ops,
        vec![Op::Write { addr: 0xE000_ED30, val: 6 }, Op::Load { addr: FRAME + 24 }]
    );
    let p = debug_report(FRAME, 6, 0x0801_0200);
    assert_eq!(
        text(&p),
        "\r\n*** BREAKPOINT ***\r\nPC=0x08010200 [BKPT] [DWTTRAP]\r\n r0=0x  r1=0x  r2=0x  r3=0x\r\nr12=0x  lr=0x  pc=0x xpsr=0x\r\ninstr=0x\r\ndbg> "
    );
    assert!(p.ops.contains(&Op::Show { addr: 0x0801_0200, form: Form::Half }));
    assert!(text(&debug_report(FRAME, 1, 0)).contains("PC=0x00000000 [HALTED]\r\n"));
    assert!(text(&debug_report(FRAME, 0, 0)).contains("PC=0x00000000\r\n"));
}

#[test]
fn registers_are_listed_in_order() {
    let p = dbg_print_regs(FRAME);
    let addrs: Vec<u32> = p
        .ops
        .iter()
        .filter_map(|o| match o {
            Op::Show { addr, form: Form::Word } => Some(*addr),
            _ => None,
        })
        .collect();
    assert_eq!(addrs, (0..8).map(|i| FRAME + 4 * i).collect::<Vec<u32>>());
}

#[test]
fn set_changes_a_register() {
    let names = ["r0", "r1", "r2", "r3", "r12", "lr", "pc", "xpsr"];
    for (i, name) in names.iter().enumerate() {
        let p = dbg_set_reg(FRAME, format!("{} cafe", name).as_bytes());
        assert_eq!(
            p.ops,
            vec![
                Op::Write { addr: FRAME + 4 * i as u32, val: 0xCAFE },
                Op::Send(b"OK\r\n".to_vec()),
            ]
        );
    }
    assert_eq!(text(&dbg_set_reg(FRAME, b"r0")), "Usage: set <reg> <hex_val>\r\n");
    assert_eq!(text(&dbg_set_reg(FRAME, b"r0 q")), "Bad value\r\n");
    assert_eq!(text(&dbg_set_reg(FRAME, b"r0  1")), "Bad value\r\n");
    assert_eq!(
        text(&dbg_set_reg(FRAME, b"r4 1")),
        "Unknown reg (r0-r3,r12,lr,pc,xpsr)\r\n"
    );
}

#[test]
fn the_debugger_goes_on() {
    for line in ["cont", "c"] {
        let (out, ops, next, t) = enter(Mode::Debug { frame: FRAME }, line);
        assert_eq!(out, "\r\nContinuing...\r\n");
        assert_eq!(ops[1], Op::Modify { addr: 0xE000_EDFC, clear: 0x6_0000, set: 0 });
        assert_eq!(next, Next::Return);
        assert_eq!(t.tick.debounce, 0);
    }
    for line in ["step", "s"] {
        let (out, ops, next, t) = enter(Mode::Debug { frame: FRAME }, line);
        assert_eq!(out, "\r\n");
        assert_eq!(ops[1], Op::Modify { addr: 0xE000_EDFC, clear: 0, set: 0x4_0000 });
        assert_eq!(next, Next::Return);
        assert_eq!(t.tick.debounce, 7);
    }
    let (out, ops, next, _) = enter(Mode::Debug { frame: FRAME }, "stop");
    assert_eq!(out, "\r\nStopping app, rebooting to monitor...\r\n");
    assert_eq!(ops.last(), Some(&Op::Reset));
    assert_eq!(next, Next::Gone);
}

#[test]
fn the_debugger_knows_the_shell_too() {
    let (out, _, next, _) = enter(Mode::Debug { frame: FRAME }, "poke 20000000 1");
    assert_eq!(out, "\r\nOK\r\ndbg> ");
    assert_eq!(next, Next::Done);
    let (out, _, _, _) = enter(Mode::Debug { frame: FRAME }, "set r1 5");
    assert_eq!(out, "\r\nOK\r\ndbg> ");
    let (out, _, _, _) = enter(Mode::Debug { frame: FRAME }, "set ");
    assert_eq!(out, "\r\nUnknown: set (type 'help')\r\ndbg> ");
    let (out, _, _, _) = enter(Mode::Shell, "cont");
    assert_eq!(out, "\r\nUnknown: cont (type 'help')\r\n> ");
    let (out, _, _, _) = enter(Mode::Debug { frame: FRAME }, "cont ");
    assert_eq!(out, "\r\nUnknown: cont (type 'help')\r\ndbg> ");
}

#[test]
fn a_held_button_stops_the_application_after_fifty_samples() {
    let pend = Op::Modify { addr: 0xE000_EDFC, clear: 0, set: 0x2_0000 };
    let mut t = Tick::new();
    for i in 1..=49u8 {
        assert!(systick_handler(&mut t, 3000, 0x6868).ops.is_empty());
        assert_eq!((t.debounce, t.hold), (i, i as u32));
    }
    let p = systick_handler(&mut t, 3000, 0x6868);
    assert_eq!(p.ops[0], pend);
    assert_eq!(p.ops[1..], motor_freeze().ops[..]);
    assert_eq!((t.debounce, t.hold), (0, 50));
    for _ in 0..49 {
        assert!(systick_handler(&mut t, 3000, 0x4848).ops.is_empty());
    }
    assert_eq!(systick_handler(&mut t, 3000, 0x4848).ops, vec![pend]);
}

#[test]
fn a_gap_starts_the_count_again() {
    let mut t = Tick::new();
    for v in [2600u32, 3400, 4095, 0] {
        t = Tick { debounce: 40, hold: 340 };
        assert!(systick_handler(&mut t, v, 0).ops.is_empty());
        assert_eq!(t, Tick::new());
    }
    systick_handler(&mut t, 0xFFFF_F000 | 2601, 0);
    assert_eq!(t, Tick { debounce: 1, hold: 1 });
    systick_handler(&mut t, 3399, 0);
    assert_eq!(t, Tick { debounce: 2, hold: 2 });
    let mut full = Tick { debounce: 255, hold: 100 };
    assert_eq!(systick_handler(&mut full, 3000, 0).ops.len(), 1);
    assert_eq!(full, Tick { debounce: 0, hold: 101 });
}

#[test]
fn sending_goes_on_where_it_stopped() {
    let mut s = Sender::new();
    assert!(s.pending(10));
    assert_eq!(s.serial_write_all(10, Attempt::Accepted(4)), Onward::Write);
    assert_eq!(s.offset, 4);
    assert_eq!(s.serial_write_all(10, Attempt::WouldBlock), Onward::PollAndWrite);
    assert_eq!(s.serial_write_all(10, Attempt::Accepted(6)), Onward::Stop);
    assert_eq!(s, Sender { offset: 10 });
    assert!(!s.pending(10));
}

#[test]
fn sending_goes_on_until_all_is_sent() {
    let mut s = Sender::new();
    for _ in 0..100_001 {
        assert_eq!(s.serial_write_all(2, Attempt::WouldBlock), Onward::PollAndWrite);
    }
    assert_eq!(s.serial_write_all(2, Attempt::Accepted(2)), Onward::Stop);
    assert_eq!(s.offset, 2);
    let mut s = Sender::new();
    assert_eq!(s.serial_write_all(2, Attempt::Failed), Onward::Stop);
    assert_eq!(s.offset, 0);
}

#[test]
fn a_running_application_can_be_stopped() {
    for line in ["stop", "kill", " stop "] {
        let (out, ops, next, _) = enter(Mode::Live, line);
        assert_eq!(out, "\r\nStopping app, rebooting to monitor...\r\n");
        assert_eq!(ops[1..5], motor_coast_all().ops[..]);
        assert_eq!(ops[5..11], motor_freeze().ops[..]);
        assert_eq!(ops.last(), Some(&Op::Reset));
        assert_eq!(next, Next::Gone);
    }
    let mut c = Console::new(Mode::Live);
    let mut t = Tables::new();
    type_in(&mut c, &mut t, "pee");
    let s = c.on_byte(0x03, &mut t);
    assert_eq!(text(&s.plan), "^C\r\nEmergency stop, rebooting to monitor...\r\n");
    assert_eq!(s.plan.ops[..4], motor_coast_all().ops[..]);
    assert_eq!(s.plan.ops.last(), Some(&Op::Reset));
    assert_eq!(s.next, Next::Gone);
}

#[test]
fn a_running_application_can_be_looked_at() {
    let (out, ops, next, _) = enter(Mode::Live, "status");
    assert_eq!(out, "\r\n");
    assert_eq!(ops[1], Op::Load { addr: 0x4001_0018 });
    assert_eq!(next, Next::Status);
    let c = Console::new(Mode::Live);
    let handlers = Handlers { debug: 1, tick: 2 };
    let s = c.resume(next, [0x6868, 0, 0], handlers);
    assert_eq!((text(&s.plan).as_str(), s.next), ("App running\r\n> ", Next::Done));
    let s = c.resume(next, [0x4848, 0, 0], handlers);
    assert_eq!(text(&s.plan), "App running, motors frozen\r\n> ");
    let (out, ops, next, _) = enter(Mode::Live, "peek 20000000");
    assert_eq!(out, "\r\n0x20000000 = 0x\r\n> ");
    assert!(ops.contains(&Op::Show { addr: 0x2000_0000, form: Form::Word }));
    assert_eq!(next, Next::Done);
    let (out, _, _, _) = enter(Mode::Live, "pause");
    assert_eq!(out, "\r\nMotors frozen\r\n> ");
    for line in ["run", "upload"] {
        let (out, _, next, _) = enter(Mode::Live, line);
        assert_eq!(out, "\r\nAn app is running (stop it first)\r\n> ");
        assert_eq!(next, Next::Done);
    }
    for mode in [Mode::Shell, Mode::Debug { frame: FRAME }] {
        let (out, _, next, _) = enter(mode, "status");
        assert!(out.starts_with("\r\nUnknown: status (type 'help')\r\n"));
        assert_eq!(next, Next::Done);
    }
    for line in ["stop", "kill"] {
        let (out, _, next, _) = enter(Mode::Shell, line);
        assert_eq!(out, format!("\r\nUnknown: {line} (type 'help')\r\n> "));
        assert_eq!(next, Next::Done);
    }
}
