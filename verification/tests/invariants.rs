use spike_hub::bare::{bare_round, bare_start};
use spike_hub::boot::{monitor_step, MonitorSetup, MonitorStage};
use spike_hub::button::{systick_handler, tick_sample, Tick, BTN_CENTER, BTN_LEFT, BTN_RIGHT};
use spike_hub::clock::arm_systick;
use spike_hub::command::{dispatch_command, resume, Handlers, Next};
use spike_hub::console::{banner, dbg_print_regs, dbg_set_reg};
use spike_hub::hub::{hub_init, motor_demo, shutdown, Hub};
use spike_hub::ledtest::{led_start, LedTest};
use spike_hub::matrix::Matrix;
use spike_hub::motor::{motor_set, Motor};
use spike_hub::motortest::{motor_test_start, MotorTest};
use spike_hub::plan::{modified, show, Op, Plan};
use spike_hub::power::{enter_system_dfu, jump_to_app, pre_init};
use spike_hub::rng::Rng;
use spike_hub::upload::{cmd_upload, Upload};
use std::collections::HashMap;

const FRAME: u32 = 0x2000_1000;

/// The hub's registers and memory, a word at a time.
struct Bus {
    words: HashMap<u32, u32>,
}

impl Bus {
    fn new() -> Bus {
        Bus { words: HashMap::new() }
    }

    fn get(&self, addr: u32) -> u32 {
        *self.words.get(&addr).unwrap_or(&0)
    }

    /// Performs a plan and returns what it sends.
    fn perform(&mut self, p: &Plan) -> String {
        let mut out = Vec::new();
        for op in &p.ops {
            match op {
                Op::Write { addr, val } => self.put(*addr, *val),
                Op::Modify { addr, clear, set } => {
                    self.put(*addr, modified(self.get(*addr), *clear, *set));
                }
                Op::Send(t) => out.extend_from_slice(t),
                Op::Show { addr, form } => {
                    let word = self.get(*addr & !3);
                    out.extend_from_slice(&show(*form, word >> (8 * (*addr & 3))));
                }
                _ => {}
            }
        }
        String::from_utf8(out).unwrap()
    }

    fn put(&mut self, addr: u32, val: u32) {
        if (0x4002_0000..0x4002_2000).contains(&addr) && addr & 0x3FF == 0x18 {
            let odr = (self.get(addr - 4) & !(val >> 16)) | (val & 0xFFFF);
            self.words.insert(addr - 4, odr);
        } else {
            self.words.insert(addr, val);
        }
    }

    /// PA13 is an output and high.
    fn power_held(&self) -> bool {
        (self.get(0x4002_0000) >> 26) & 3 == 1 && (self.get(0x4002_0014) >> 13) & 1 == 1
    }

    /// Mode and level of the two pins of motor A.
    fn bridge_a(&self) -> [(u32, u32); 2] {
        [9, 11].map(|pin| {
            ((self.get(0x4002_1000) >> (2 * pin)) & 3, (self.get(0x4002_1014) >> pin) & 1)
        })
    }

    fn bridge_b(&self) -> [(u32, u32); 2] {
        [13, 14].map(|pin| {
            ((self.get(0x4002_1000) >> (2 * pin)) & 3, (self.get(0x4002_1014) >> pin) & 1)
        })
    }
}

const HANDLERS: Handlers = Handlers { debug: 0x0800_8101, tick: 0x0800_8201 };

fn setup(protect: bool) -> MonitorSetup {
    MonitorSetup { protect, handlers: HANDLERS }
}

fn powered() -> Bus {
    let mut bus = Bus::new();
    bus.words.insert(0x4002_0000, 0xA800_0000);
    bus.perform(&pre_init());
    assert!(bus.power_held());
    bus
}

#[test]
fn the_motor_application_keeps_its_power() {
    let mut bus = powered();
    let mut m = Matrix::new();
    bus.perform(&hub_init(&mut m));
    bus.perform(&motor_demo());
    let (mut h, p) = Hub::start(m, 0);
    bus.perform(&p);
    for buttons in [0, BTN_RIGHT, 0, BTN_LEFT, BTN_LEFT | BTN_RIGHT, 0] {
        bus.perform(&h.tick(buttons).0);
        assert!(bus.power_held());
    }
    bus.perform(&shutdown());
    assert!(!bus.power_held());
}

#[test]
fn the_other_programs_keep_their_power() {
    let mut bus = powered();
    bus.perform(&bare_start(0, &mut Matrix::new()).0);
    bus.perform(&bare_round(false).0);
    assert!(bus.power_held());

    let mut bus = powered();
    bus.perform(&led_start(0));
    let mut t = LedTest::new(0, Rng { state: 1 });
    for buttons in [0, BTN_LEFT | BTN_RIGHT, 0, 0, BTN_LEFT, BTN_LEFT | BTN_RIGHT, 0] {
        bus.perform(&t.tick(buttons).0);
        assert!(bus.power_held());
    }

    let mut bus = powered();
    bus.perform(&motor_test_start(0));
    let mut t = MotorTest::new(Rng { state: 1 });
    for _ in 0..100 {
        bus.perform(&t.tick(4095).0);
        assert!(bus.power_held());
    }
    bus.perform(&t.tick(2800).0);
    assert!(bus.power_held());
    assert_eq!(bus.bridge_a(), [(1, 0), (1, 0)]);
}

#[test]
fn the_monitor_keeps_its_power() {
    let mut bus = powered();
    bus.perform(&monitor_step(MonitorStage::Press, [4095, 0xF_0000], setup(true)).0);
    bus.perform(&tick_sample(false));
    bus.perform(&cmd_upload());
    bus.perform(&Upload::new().receive(b"08010000 20008000\nend\n").0);
    let (mut bp, mut watch) = ([None; 6], [None; 4]);
    for line in [
        "help",
        "peek 20000000",
        "dump 20000000 20",
        "bp 8010000",
        "bp list",
        "bp clear",
        "watch 20000000",
        "watch clear",
        "motors",
        "nonsense",
    ] {
        bus.perform(&dispatch_command(line.as_bytes(), &mut bp, &mut watch).plan);
        assert!(bus.power_held());
    }
    bus.perform(&dispatch_command(b"off", &mut bp, &mut watch).plan);
    assert!(!bus.power_held());
}

#[test]
fn motors_follow_the_speed() {
    let mut bus = powered();
    let mut m = Matrix::new();
    bus.perform(&hub_init(&mut m));
    let (mut h, p) = Hub::start(m, 0);
    bus.perform(&p);
    assert_eq!(bus.get(0x4001_0034), 400);
    assert_eq!(bus.bridge_a(), [(2, bus.bridge_a()[0].1), (1, 1)]);
    assert_eq!(bus.bridge_b()[1], (1, 1));
    for _ in 0..4 {
        bus.perform(&h.tick(BTN_LEFT).0);
        bus.perform(&h.tick(0).0);
    }
    assert_eq!(h.speed, -400);
    assert_eq!(bus.get(0x4001_0038), 400);
    assert_eq!(bus.bridge_a()[0], (1, 1));
    assert_eq!(bus.bridge_a()[1].0, 2);
    bus.perform(&h.tick(BTN_RIGHT).0);
    bus.perform(&h.tick(0).0);
    bus.perform(&h.tick(BTN_RIGHT).0);
    assert_eq!(h.speed, 0);
    assert_eq!(bus.bridge_a(), [(1, 1), (1, 1)]);
    assert_eq!(bus.bridge_b(), [(1, 1), (1, 1)]);
    bus.perform(&h.tick(BTN_CENTER).0);
    bus.perform(&h.tick(0).0);
    assert!(h.paused);
    assert_eq!(bus.bridge_a(), [(1, 0), (1, 0)]);
    assert_eq!(bus.bridge_b(), [(1, 0), (1, 0)]);
}

#[test]
fn a_show_that_is_toggled_off_lets_the_motors_coast() {
    let mut bus = powered();
    bus.perform(&led_start(0));
    let mut t = LedTest::new(0, Rng { state: 1 });
    bus.perform(&t.tick(BTN_LEFT | BTN_RIGHT).0);
    assert_eq!(bus.bridge_a()[1].0, 2);
    bus.perform(&t.tick(0).0);
    bus.perform(&t.tick(BTN_LEFT | BTN_RIGHT).0);
    assert!(!t.show.running);
    assert_eq!(bus.bridge_a(), [(1, 0), (1, 0)]);
    assert_eq!(bus.bridge_b(), [(1, 0), (1, 0)]);
    bus.perform(&t.tick(0).0);
    assert_eq!(bus.bridge_a(), [(1, 0), (1, 0)]);
}

#[test]
fn peek_shows_what_poke_wrote() {
    let mut bus = Bus::new();
    let (mut bp, mut watch) = ([None; 6], [None; 4]);
    let s = dispatch_command(b"poke 20000010 1234abcd", &mut bp, &mut watch);
    assert_eq!(bus.perform(&s.plan), "OK\r\n");
    let s = dispatch_command(b"peek 20000010", &mut bp, &mut watch);
    assert_eq!(bus.perform(&s.plan), "0x20000010 = 0x1234abcd\r\n");
    let s = dispatch_command(b"peek16 20000012", &mut bp, &mut watch);
    assert_eq!(bus.perform(&s.plan), "0x20000012 = 0x1234\r\n");
    let s = dispatch_command(b"peek8 20000010", &mut bp, &mut watch);
    assert_eq!(bus.perform(&s.plan), "0x20000010 = 0xcd\r\n");
    let s = dispatch_command(b"dump 20000010 4", &mut bp, &mut watch);
    assert!(bus.perform(&s.plan).contains("cd ab 34 12"));
}

#[test]
fn regs_shows_what_set_wrote() {
    let mut bus = Bus::new();
    for (i, name) in ["r0", "r1", "r2", "r3", "r12", "lr", "pc", "xpsr"].iter().enumerate() {
        let line = format!("{} {:x}", name, 0xA0 + i);
        assert_eq!(bus.perform(&dbg_set_reg(FRAME, line.as_bytes())), "OK\r\n");
    }
    let out = bus.perform(&dbg_print_regs(FRAME));
    for v in ["r0=0x000000a0", "r3=0x000000a3", "r12=0x000000a4", "pc=0x000000a6"] {
        assert!(out.contains(v));
    }
    bus.perform(&dbg_set_reg(FRAME, b"r2 beef"));
    let out = bus.perform(&dbg_print_regs(FRAME));
    assert!(out.contains("r2=0x0000beef") && out.contains("r1=0x000000a1"));
}

#[test]
fn uploaded_words_are_stored() {
    let mut bus = Bus::new();
    bus.perform(&cmd_upload());
    let mut up = Upload::new();
    bus.perform(&up.receive(b"08010000 20008000\r\n08010004 08010201\r\n").0);
    assert_eq!(bus.get(0x0801_0000), 0x2000_8000);
    assert_eq!(bus.get(0x0801_0004), 0x0801_0201);
    assert_eq!(bus.perform(&up.receive(b"end\r\n").0), "OK 00000008 bytes\r\n");
    let loaded = [bus.get(0x0801_0000), bus.get(0x0801_0004), 0];
    let s = resume(Next::AppVector, loaded, HANDLERS);
    assert_eq!(s.next, Next::Arm { sp: 0x2000_8000, pc: 0x0801_0201 });
}

#[test]
fn breakpoints_and_watchpoints_are_kept_apart() {
    let mut bus = Bus::new();
    let (mut bp, mut watch) = ([None; 6], [None; 4]);
    for line in ["bp 8010000", "watch 20000000", "bp 8010006", "watch 20000004"] {
        bus.perform(&dispatch_command(line.as_bytes(), &mut bp, &mut watch).plan);
    }
    assert_eq!(bp[..3], [Some(0x0801_0000), Some(0x0801_0006), None]);
    assert_eq!(watch, [Some(0x2000_0000), Some(0x2000_0004), None, None]);
    assert_eq!(bus.get(0xE000_2008), 0x4801_0001);
    assert_eq!(bus.get(0xE000_200C), 0x8801_0005);
    assert_eq!(bus.get(0xE000_1030), 0x2000_0004);
    bus.perform(&dispatch_command(b"watch clear", &mut bp, &mut watch).plan);
    assert_eq!((bus.get(0xE000_1028), bus.get(0xE000_1038)), (0, 0));
    assert_eq!(bus.get(0xE000_2008), 0x4801_0001);
    bus.perform(&dispatch_command(b"bp clear 0", &mut bp, &mut watch).plan);
    assert_eq!(bus.get(0xE000_2008), 0);
    assert_eq!(bus.get(0xE000_200C), 0x8801_0005);
    assert_eq!(bp[..3], [None, Some(0x0801_0006), None]);
}

fn boot_monitor(magic: u32, press: u32, host: Option<u32>, vector: [u32; 2]) -> (Plan, usize) {
    let mut stage = MonitorStage::Magic;
    let mut last = Plan { ops: Vec::new() };
    let mut steps = 0;
    while stage != MonitorStage::Shell && stage != MonitorStage::Gone {
        let loaded = match stage {
            MonitorStage::Magic => [magic, 0],
            MonitorStage::Press => [press, 0],
            MonitorStage::Host { waited } => [host.map_or(0, |ms| (ms <= waited) as u32), 0],
            _ => vector,
        };
        let (p, next) = monitor_step(stage, loaded, setup(false));
        last = p;
        stage = next;
        steps += 1;
    }
    (last, steps)
}

#[test]
fn the_monitor_ends_where_it_should() {
    let vector = [0x2000_8000, 0x0801_0201];
    let (p, steps) = boot_monitor(0xDEAD_B007, 4095, Some(0), vector);
    assert_eq!((p.ops.last(), steps), (Some(&Op::LaunchTable { table: 0x1FFF_0000 }), 1));
    let (p, steps) = boot_monitor(0, 2000, Some(0), vector);
    assert_eq!((p, steps), (enter_system_dfu(), 2));
    assert_eq!(boot_monitor(0, 4095, Some(17), vector), (banner(), 20));
    assert_eq!(boot_monitor(0, 4095, Some(3000), vector), (banner(), 3003));
    let (p, steps) = boot_monitor(0, 4095, Some(3001), vector);
    assert_eq!(steps, 3004);
    assert_eq!(p.ops[0], Op::Write { addr: 0x2004_FFE0, val: 0x0800_8101 });
    assert_eq!(p.ops[1..6], arm_systick(0x0800_8201).ops[..]);
    assert_eq!(p.ops[6..], jump_to_app(vector[0], vector[1]).ops[..]);
    let (p, steps) = boot_monitor(0, 4095, None, [0, 0]);
    assert_eq!(p.ops[0], Op::Write { addr: 0xE000_ED94, val: 0 });
    assert_eq!((&p.ops[1..], steps), (&enter_system_dfu().ops[..], 3004));
}

#[test]
fn packets_may_end_anywhere() {
    let text = b"08010000 20008000\r\n08010004 08010201\nend\n";
    let mut whole = Upload::new();
    let (all, over) = whole.receive(text);
    assert!(over);
    for at in 0..text.len() {
        let mut up = Upload::new();
        let (mut p, early) = up.receive(&text[..at]);
        assert!(!early);
        let (rest, over) = up.receive(&text[at..]);
        p.ops.extend(rest.ops);
        assert!(over);
        assert_eq!(p, all);
    }
}

#[test]
fn no_motor_runs_on_when_its_move_is_over() {
    let rest = [(1, 0), (1, 0)];
    let mut bus = powered();
    bus.perform(&motor_test_start(0));
    assert_eq!((bus.bridge_a(), bus.bridge_b()), (rest, rest));
    let mut t = MotorTest::new(Rng { state: 1 });
    for _ in 0..300 {
        bus.perform(&t.tick(4095).0);
        assert_eq!(bus.bridge_a() == rest, t.a.on == 0);
        assert_eq!(bus.bridge_b() == rest, t.b.on == 0);
    }

    let mut bus = powered();
    bus.perform(&led_start(0));
    assert_eq!((bus.bridge_a(), bus.bridge_b()), (rest, rest));
    let mut t = LedTest::new(0, Rng { state: 1 });
    bus.perform(&t.tick(BTN_LEFT | BTN_RIGHT).0);
    for _ in 0..300 {
        bus.perform(&t.tick(0).0);
        assert_eq!(bus.bridge_a() == rest, t.show.on_left == 0);
        assert_eq!(bus.bridge_b() == rest, t.show.on_right == 0);
    }
}

#[test]
fn the_motor_report_changes_nothing() {
    let mut bus = powered();
    bus.perform(&motor_test_start(0));
    let before = bus.words.clone();
    let mut step = dispatch_command(b"motors", &mut [None; 6], &mut [None; 4]);
    let mut out = bus.perform(&step.plan);
    while step.next != Next::Done {
        let loaded: Vec<u32> = step
            .plan
            .ops
            .iter()
            .filter_map(|o| match o {
                Op::Load { addr } => Some(bus.get(*addr)),
                _ => None,
            })
            .collect();
        let at = |i: usize| *loaded.get(i).unwrap_or(&0);
        step = resume(step.next, [at(0), at(1), at(2)], HANDLERS);
        out.push_str(&bus.perform(&step.plan));
    }
    assert_eq!(bus.words, before);
    assert!(out.contains("  PE9 =Out\r\n") && out.contains("  ARR  =0x000003e7\r\n"));
    assert!(out.contains("\r\n  CEN=1 MOE=1 CH1=1 CH2=1 CH3=1 CH4=1\r\n"));
    assert!(out.ends_with("(Port F)\r\n\r\n  CEN=0 CH1=0 CH2=0 CH3=0 CH4=0\r\n"));
}

#[test]
fn the_monitor_protects_itself() {
    let ops = monitor_step(MonitorStage::Press, [4095, 0x000F_0000], setup(false)).0.ops;
    let mpu: Vec<(u32, u32)> = ops
        .iter()
        .filter_map(|o| match o {
            Op::Write { addr, val } if (0xE000_ED90..0xE000_EDB0).contains(addr) => {
                Some((*addr & 0xFF, *val))
            }
            _ => None,
        })
        .collect();
    assert_eq!(
        mpu,
        vec![
            (0x94, 0),
            (0x98, 0),
            (0x9C, 0x0800_8000),
            (0xA0, 0x0602_001D),
            (0x98, 1),
            (0x9C, 0x2004_E000),
            (0xA0, 0x1106_0019),
            (0x94, 5),
        ]
    );
    let keys = |protect, optcr| {
        let p = monitor_step(MonitorStage::Press, [4095, optcr], setup(protect)).0;
        p.ops.iter().filter(|o| matches!(o, Op::Write { addr: 0x4002_3C08, .. })).count()
    };
    assert_eq!(keys(false, 0x000F_0000), 0);
    assert_eq!(keys(true, 0x000F_0000), 2);
    assert_eq!(keys(true, 0), 0);
}

#[test]
fn protection_can_be_taken_back() {
    let mut bus = Bus::new();
    bus.words.insert(0x4002_3C14, 0x0FFF_AAED);
    let (mut bp, mut watch) = ([None; 6], [None; 4]);
    bus.perform(&dispatch_command(b"protect", &mut bp, &mut watch).plan);
    assert_eq!(bus.get(0x4002_3C14), 0x0FF0_AAEF);
    bus.perform(&dispatch_command(b"unprotect", &mut bp, &mut watch).plan);
    assert_eq!(bus.get(0x4002_3C14), 0x0FFF_AAEF);
}

#[test]
fn a_press_freezes_and_a_second_one_goes_on() {
    let mut bus = powered();
    bus.perform(&motor_test_start(0));
    let before = bus.words.clone();
    let mut t = Tick::new();
    for i in 0..100 {
        bus.perform(&systick_handler(&mut t, 3000, bus.get(0x4001_0018)));
        assert_eq!(bus.get(0x4001_0018), if i < 49 { 0x6868 } else { 0x4848 });
    }
    bus.perform(&motor_set(Motor::A, 700));
    assert_eq!(bus.get(0x4001_0018), 0x4848);
    bus.perform(&systick_handler(&mut t, 4000, bus.get(0x4001_0018)));
    for _ in 0..50 {
        bus.perform(&systick_handler(&mut t, 3000, bus.get(0x4001_0018)));
    }
    assert_eq!(bus.get(0x4001_0018), 0x6868);
    assert_eq!(bus.get(0x4001_001C), before[&0x4001_001C]);
}

#[test]
fn three_seconds_of_the_button_switch_the_hub_off() {
    let mut bus = powered();
    bus.perform(&motor_test_start(0));
    bus.perform(&motor_set(Motor::A, 700));
    let mut t = Tick::new();
    for _ in 0..2999 {
        bus.perform(&systick_handler(&mut t, 3000, bus.get(0x4001_0018)));
        assert!(bus.power_held());
    }
    let p = systick_handler(&mut t, 3000, bus.get(0x4001_0018));
    assert_eq!(p.ops[0], PEND);
    assert_eq!(p.ops[1..], shutdown().ops[..]);
    bus.perform(&p);
    assert!(!bus.power_held());
    assert_eq!(bus.bridge_a(), [(1, 0), (1, 0)]);
    assert_eq!(systick_handler(&mut t, 3000, 0), shutdown());
    assert!(systick_handler(&mut t, 4000, 0).ops.is_empty());
}

const PEND: Op = Op::Modify { addr: 0xE000_EDFC, clear: 0, set: 0x2_0000 };

#[test]
fn every_fiftieth_sample_of_a_press_stops_the_application() {
    let mut t = Tick::new();
    let mut run = 0;
    let mut stops = 0;
    for i in 0..8000 {
        let down = i % 3300 != 120 && i % 3300 != 165;
        run = if down { run + 1 } else { 0 };
        let p = systick_handler(&mut t, if down { 3000 } else { 4000 }, 0);
        assert_eq!(p.ops.contains(&PEND), run > 0 && run % 50 == 0);
        stops += usize::from(p.ops.contains(&PEND));
    }
    assert_eq!(stops, 2 + 65 + 65 + 24);
}

#[test]
fn words_after_the_fourth_do_not_matter() {
    let mut tables = Vec::new();
    for line in ["bp 8010100 x y", "  bp 8010100 x y and more", "bp\t8010100 x  y bp clear"] {
        let (mut bp, mut watch) = ([None; 6], [None; 4]);
        let s = dispatch_command(line.as_bytes(), &mut bp, &mut watch);
        tables.push((s.plan, s.next, bp, watch));
    }
    assert_eq!(tables[0].2[0], Some(0x0801_0100));
    assert_eq!(tables[0], tables[1]);
    assert_eq!(tables[0], tables[2]);
}
