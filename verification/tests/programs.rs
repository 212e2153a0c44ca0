use spike_hub::bare::{bare_round, bare_start};
use spike_hub::boot::{boot_step, load_magic, monitor_step, BootStage, MonitorSetup, MonitorStage};
use spike_hub::button::{BTN_CENTER, BTN_LEFT, BTN_RIGHT};
use spike_hub::command::Handlers;
use spike_hub::hub::{
    after_kick, dev_demo, hub_init, motor_demo, sample_buttons, shutdown, Hub, HubMode,
};
use spike_hub::ledtest::{
    led_start, show_idle_frame, show_resident_frame, Combo, LedTest, Show,
};
use spike_hub::matrix::Matrix;
use spike_hub::motor::{motor_coast_all, motor_set_all, set_motor_a, set_motor_b};
use spike_hub::motortest::{motor_test_start, MotorTest, Mover};
use spike_hub::plan::{Op, Plan};
use spike_hub::power::{boot_app, enter_system_dfu, jump_to_app};
use spike_hub::rng::Rng;
use spike_hub::sim::{
    spike_rt_user_program, PbdrvCounterDev, PbdrvMotorDriverDev, Reply, Request, Stage,
};

const MAGIC: u32 = 0xDEAD_B007;
const SP: u32 = 0x2000_8000;
const PC: u32 = 0x0801_0201;

const SETUP: MonitorSetup =
    MonitorSetup { protect: false, handlers: Handlers { debug: 0x0800_8101, tick: 0x0800_8201 } };

fn boot(magic: u32, first: u32, second: u32, sp: u32, pc: u32) -> (Plan, usize) {
    let mut stage = BootStage::Magic;
    let mut last = load_magic();
    let mut steps = 0;
    while stage != BootStage::Gone {
        let loaded = match stage {
            BootStage::Magic => [magic, 0],
            BootStage::FirstPress => [first, 0],
            BootStage::SecondPress => [second, 0],
            _ => [sp, pc],
        };
        let (p, next) = boot_step(stage, loaded);
        last = p;
        stage = next;
        steps += 1;
    }
    (last, steps)
}

#[test]
fn the_bootloader_ends_where_it_should() {
    assert_eq!(boot(0, 4095, 4095, SP, PC), (boot_app(SP, PC), 3));
    assert_eq!(boot(0, 2000, 4095, SP, PC), (boot_app(SP, PC), 4));
    assert_eq!(boot(0, 2000, 2000, SP, PC), (enter_system_dfu(), 3));
    assert_eq!(boot(0, 4095, 0, 0, 0), (enter_system_dfu(), 3));
    let (p, steps) = boot(MAGIC, 4095, 4095, SP, PC);
    assert_eq!(steps, 1);
    assert_eq!(p.ops[0], Op::Write { addr: 0x2004_FFF0, val: 0 });
    assert_eq!(p.ops.last(), Some(&Op::LaunchTable { table: 0x1FFF_0000 }));
    let (p, _) = boot_step(BootStage::FirstPress, [0, 0]);
    assert_eq!(p.ops[0], Op::Nops { count: 800_000 });
}

#[test]
fn the_monitor_boots_into_dfu_on_request() {
    let (p, next) = monitor_step(MonitorStage::Magic, [MAGIC, 0], SETUP);
    assert_eq!(next, MonitorStage::Gone);
    assert_eq!(p.ops.last(), Some(&Op::LaunchTable { table: 0x1FFF_0000 }));
    let (p, next) = monitor_step(MonitorStage::Magic, [0, 0], SETUP);
    assert_eq!(next, MonitorStage::Press);
    assert!(p.ops.contains(&Op::Load { addr: 0x4001_204C }));
    assert_eq!(p.ops.last(), Some(&Op::Load { addr: 0x4002_3C14 }));
    let (p, next) = monitor_step(next, [2879, 0], SETUP);
    assert_eq!((p, next), (enter_system_dfu(), MonitorStage::Gone));
    let (_, next) = monitor_step(MonitorStage::Press, [2880, 0], SETUP);
    assert_eq!(next, MonitorStage::Host { waited: 0 });
}

#[test]
fn the_monitor_waits_three_seconds_for_a_host() {
    let mut stage = MonitorStage::Host { waited: 0 };
    for _ in 0..3000 {
        let (p, next) = monitor_step(stage, [0, 0], SETUP);
        assert_eq!(p.ops, vec![Op::DelayMs { ms: 1 }]);
        stage = next;
    }
    let (p, next) = monitor_step(stage, [0, 0], SETUP);
    assert_eq!(p.ops, vec![Op::Load { addr: 0x0801_0000 }, Op::Load { addr: 0x0801_0004 }]);
    assert_eq!(next, MonitorStage::Vector);
    let (p, gone) = monitor_step(next, [SP, PC], SETUP);
    assert_eq!(gone, MonitorStage::Gone);
    assert!(p.ops.ends_with(&jump_to_app(SP, PC).ops));
    let (p, gone) = monitor_step(next, [0, PC], SETUP);
    assert_eq!(gone, MonitorStage::Gone);
    assert_eq!(p.ops[0], Op::Write { addr: 0xE000_ED94, val: 0 });
    assert_eq!(p.ops[1..], enter_system_dfu().ops[..]);
    let (p, next) = monitor_step(MonitorStage::Host { waited: 2999 }, [1, 0], SETUP);
    assert_eq!(next, MonitorStage::Shell);
    assert_eq!(p.ops.last(), Some(&Op::Send(b"> ".to_vec())));
}

#[test]
fn the_motor_application_starts_with_a_kick() {
    let mut m = Matrix::new();
    let p = hub_init(&mut m);
    assert_eq!(p.ops[3], Op::Write { addr: 0x4002_0018, val: 1 << 13 });
    let p = motor_demo();
    let delays: Vec<u32> = p
        .ops
        .iter()
        .filter_map(|o| match o {
            Op::DelayMs { ms } => Some(*ms),
            _ => None,
        })
        .collect();
    assert_eq!(delays, vec![500, 150, 500, 150, 1000]);
    assert_eq!(p.ops.last(), Some(&Op::Load { addr: 0x4002_0010 }));
    assert_eq!(sample_buttons().ops.len(), 8);
}

#[test]
fn a_usb_cable_decides_what_comes_after_the_kick() {
    assert_eq!(after_kick(1 << 9), HubMode::Dev);
    assert_eq!(after_kick(!(1 << 9)), HubMode::Interactive);
}

#[test]
fn a_development_cycle_ends_in_dfu() {
    let mut m = Matrix::new();
    let p = dev_demo(&mut m);
    let n = p.ops.len();
    assert_eq!(
        p.ops[n - 3..],
        [
            Op::DelayMs { ms: 300 },
            Op::Write { addr: 0x2004_FFF0, val: MAGIC },
            Op::Reset,
        ]
    );
    assert_eq!(p.ops[..6], motor_set_all(500).ops[..]);
    // lower left corner off, the check mark's foot lit at 80
    assert_eq!(m.frame[2 * 40 + 1], 0xA3);
    assert_eq!(m.frame[2 * 25 + 1], 0);
}

fn new_hub() -> Hub {
    let (h, p) = Hub::start(Matrix::new(), 0);
    let n = p.ops.len();
    assert_eq!(p.ops[n - 6..], motor_set_all(400).ops[..]);
    h
}

#[test]
fn side_buttons_change_the_speed() {
    let mut h = new_hub();
    let (p, off) = h.tick(BTN_RIGHT);
    assert!(!off);
    assert_eq!(h.speed, 600);
    assert_eq!(p.ops[..6], motor_set_all(600).ops[..]);
    assert_eq!(h.tick(BTN_RIGHT).0.ops, vec![Op::DelayMs { ms: 50 }]);
    assert_eq!(h.speed, 600);
    h.tick(0);
    for _ in 0..5 {
        h.tick(BTN_RIGHT);
        h.tick(0);
    }
    assert_eq!(h.speed, 1000);
    for _ in 0..12 {
        h.tick(BTN_LEFT);
        h.tick(0);
    }
    assert_eq!(h.speed, -1000);
    h.tick(BTN_LEFT | BTN_RIGHT);
    assert_eq!(h.speed, -800);
}

#[test]
fn a_short_press_pauses() {
    let mut h = new_hub();
    h.tick(BTN_CENTER);
    assert!(!h.paused);
    let (p, _) = h.tick(0);
    assert!(h.paused);
    assert_eq!(p.ops[..4], motor_coast_all().ops[..]);
    let (p, _) = h.tick(BTN_LEFT);
    assert_eq!(p.ops, vec![Op::DelayMs { ms: 50 }]);
    assert_eq!(h.speed, 400);
    h.tick(BTN_CENTER);
    let (p, _) = h.tick(0);
    assert!(!h.paused);
    assert_eq!(p.ops[..6], motor_set_all(400).ops[..]);
}

#[test]
fn a_long_press_switches_off() {
    let mut h = new_hub();
    for _ in 0..39 {
        assert!(!h.tick(BTN_CENTER).1);
    }
    let (p, off) = h.tick(BTN_CENTER);
    assert!(off);
    assert_eq!(p, shutdown());
    assert_eq!(
        p.ops[4..],
        [Op::Write { addr: 0x4002_0018, val: 1 << 29 }, Op::Sleep]
    );
}

#[test]
fn a_button_held_at_the_start_does_not_pause() {
    let (mut h, _) = Hub::start(Matrix::new(), BTN_CENTER);
    h.tick(0);
    assert!(!h.paused);
}

#[test]
fn the_bare_demo_ramps() {
    let mut m = Matrix::new();
    let (p, gone) = bare_start(MAGIC, &mut m);
    assert!(gone);
    assert_eq!(p.ops.last(), Some(&Op::LaunchTable { table: 0x1FFF_0000 }));
    let (p, gone) = bare_start(0, &mut m);
    assert!(!gone);
    assert_eq!(p.ops.last(), Some(&Op::Load { addr: 0x4002_0010 }));
    let (p, gone) = bare_round(false);
    assert!(!gone);
    let duties: Vec<u32> = p
        .ops
        .iter()
        .filter_map(|o| match o {
            Op::Write { addr: 0x4001_0034, val } => Some(*val),
            _ => None,
        })
        .collect();
    assert_eq!(duties.len(), 120);
    assert_eq!(duties[..2], [10, 20]);
    assert_eq!(duties[59..62], [600, 600, 590]);
    assert_eq!(duties[119], 10);
    let steps = p.ops.iter().filter(|o| **o == Op::DelayMs { ms: 5 }).count();
    assert_eq!(steps, 244);
    assert_eq!(p.ops.last(), Some(&Op::DelayMs { ms: 2000 }));
    let (p, gone) = bare_round(true);
    assert!(gone);
    assert_eq!(p.ops.last(), Some(&Op::Reset));
}

fn frame_levels(p: &Plan) -> Vec<u16> {
    let bytes: Vec<u8> = p
        .ops
        .iter()
        .filter_map(|o| match o {
            Op::Write { addr: 0x4001_300C, val } => Some(*val as u8),
            _ => None,
        })
        .collect();
    assert_eq!(bytes.len(), 97);
    (0..48).map(|c| bytes[2 * c + 1] as u16 * 256 + bytes[2 * c + 2] as u16).collect()
}

#[test]
fn the_show_runs_over_the_matrix() {
    let idle = frame_levels(&show_idle_frame());
    assert_eq!(idle[31], 0x1000);
    assert_eq!(idle[3], 0x0800);
    assert_eq!(idle.iter().filter(|v| **v != 0).count(), 2);
    let first = frame_levels(&show_resident_frame(0));
    assert_eq!(first[38], 0x3000);
    assert_eq!(first[9], 0x1000);
    assert_eq!(first[4], 0x0800);
    assert_eq!((first[18], first[19]), (0x0800, 0x0800));
    let later = frame_levels(&show_resident_frame(36));
    assert_eq!(later[29], 0x3000);
    assert_eq!(later[24], 0x1000);
    assert_eq!(later[4], 0x0800 + 3 * 0x0200);
}

#[test]
fn the_show_repeats_with_five_lights() {
    for frame in 0..100 {
        let levels = frame_levels(&show_resident_frame(frame));
        assert_eq!(levels.iter().filter(|v| **v != 0).count(), 5);
        assert_eq!(show_resident_frame(frame + 100), show_resident_frame(frame));
    }
}

#[test]
fn both_side_buttons_toggle_once() {
    let mut c = Combo::new();
    assert!(c.step(BTN_LEFT | BTN_RIGHT, BTN_LEFT | BTN_RIGHT));
    assert!(c.latch);
    assert!(!c.step(BTN_LEFT | BTN_RIGHT, 0));
    assert!(!c.step(BTN_LEFT, 0));
    assert!(!c.latch);
    assert!(c.step(BTN_LEFT | BTN_RIGHT, BTN_RIGHT));
}

#[test]
fn one_side_button_waits_for_the_other() {
    let mut c = Combo::new();
    assert!(!c.step(BTN_LEFT, BTN_LEFT));
    assert_eq!(c, Combo { latch: false, pending_side: BTN_LEFT, pending_ticks: 7 });
    for _ in 0..6 {
        assert!(!c.step(BTN_LEFT, 0));
    }
    assert_eq!(c.pending_side, BTN_LEFT);
    assert!(!c.step(BTN_LEFT, 0));
    assert_eq!(c.pending_side, 0);
    let mut c = Combo::new();
    c.step(BTN_RIGHT, BTN_RIGHT);
    assert!(!c.step(0, 0));
    assert_eq!(c.pending_side, 0);
}

#[test]
fn the_show_moves_the_motors() {
    let mut s = Show::new(Rng { state: 1 });
    assert!(s.step().ops.is_empty());
    s.toggle_resident_program();
    assert!(s.running);
    let p = s.step();
    // 270369 = 3 + 6 * 45061, bit 8 clear; 67634689 = 1 mod 6, bit 8 clear
    let n = p.ops.len();
    assert_eq!(p.ops[n - 6..n - 3], set_motor_a(-500).ops[..]);
    assert_eq!(p.ops[n - 3..], set_motor_b(-500).ops[..]);
    assert_eq!((s.on_left, s.on_right), (5, 3));
    assert_eq!(s.frame, 1);
    assert!(s.countdown >= 40 && s.countdown <= 100);
    for _ in 0..2 {
        s.step();
    }
    let p = s.step();
    let n = p.ops.len();
    assert_eq!((s.on_left, s.on_right), (2, 0));
    assert_eq!(p.ops[n - 2..], set_motor_b(0).ops[..]);
    let p = s.toggle_resident_program();
    assert!(!s.running);
    assert_eq!(p.ops[..4], motor_coast_all().ops[..]);
}

#[test]
fn the_led_application_clicks_and_switches_off() {
    assert!(led_start(0x8).ops.len() < led_start(0).ops.len());
    let mut t = LedTest::new(0, Rng::new());
    let (p, off) = t.tick(BTN_CENTER);
    assert!(!off);
    let clicks = p.ops.iter().filter(|o| **o == Op::Delay { cycles: 12_000 }).count();
    assert_eq!(clicks, 80);
    for _ in 0..98 {
        let (p, off) = t.tick(BTN_CENTER);
        assert!(!off);
        assert_eq!(p.ops, vec![Op::DelayMs { ms: 20 }]);
    }
    let (p, off) = t.tick(BTN_CENTER);
    assert!(off);
    assert_eq!(p, shutdown());
    let mut t = LedTest::new(0, Rng::new());
    t.tick(BTN_LEFT | BTN_RIGHT);
    assert!(t.show.running);
    t.tick(0);
    t.tick(BTN_LEFT);
    t.tick(BTN_LEFT | BTN_RIGHT);
    assert!(!t.show.running);
}

#[test]
fn the_motor_test_moves_and_stops() {
    assert!(motor_test_start(0x8).ops.len() < motor_test_start(0).ops.len());
    let mut t = MotorTest::new(Rng { state: 1 });
    assert_eq!((t.a.countdown, t.b.countdown), (5, 8));
    for _ in 0..5 {
        let (p, over) = t.tick(4095);
        assert!(!over);
        assert_eq!(p.ops, vec![Op::DelayMs { ms: 20 }]);
    }
    let (p, _) = t.tick(4095);
    // 270369 = 1 mod 8, bit 7 clear; 67634689 = 26 mod 41
    assert_eq!(p.ops[..3], set_motor_a(-500).ops[..]);
    assert_eq!(t.a, Mover { countdown: 20 + 67_634_689 % 41, on: 4 });
    for _ in 0..3 {
        t.tick(4095);
    }
    let (p, _) = t.tick(4095);
    assert_eq!(p.ops[..2], set_motor_a(0).ops[..]);
    let (p, over) = t.tick(2879);
    assert!(over);
    assert_eq!(p.ops[..4], motor_coast_all().ops[..]);
    assert_eq!(p.ops.last(), Some(&Op::Sleep));
}

const NOTHING: Reply = Reply {
    value: 0,
    err_a: 0,
    err_b: 0,
    has_a: false,
    has_b: false,
    rot_a: 0,
    mdeg_a: 0,
    rot_b: 0,
    mdeg_b: 0,
};

fn simulate(drivers: bool, counters: (bool, bool)) -> (String, Vec<Request>) {
    let mut stage = Stage::Begin;
    let mut reply = NOTHING;
    let mut out = Vec::new();
    let mut requests = Vec::new();
    while stage != Stage::End {
        let s = spike_rt_user_program(stage, reply);
        out.extend_from_slice(&s.text);
        requests.push(s.request);
        stage = s.stage;
        reply = match s.request {
            Request::Clock => Reply { value: 42, ..NOTHING },
            Request::Buttons => Reply { value: 0x20, ..NOTHING },
            Request::Drivers { .. } => {
                Reply { err_b: -3, has_a: true, has_b: drivers, ..NOTHING }
            }
            Request::Counters { .. } => {
                Reply { err_b: 5, has_a: counters.0, has_b: counters.1, ..NOTHING }
            }
            Request::Angles { .. } => Reply {
                value: 7,
                err_a: 0,
                err_b: 9,
                rot_a: 1,
                mdeg_a: 250,
                rot_b: -2,
                mdeg_b: 359_000,
                ..NOTHING
            },
            _ => NOTHING,
        };
    }
    (String::from_utf8(out).unwrap(), requests)
}

#[test]
fn the_simulated_program_drives_both_motors() {
    let (out, requests) = simulate(true, (true, false));
    let lines: Vec<&str> = out.lines().collect();
    assert_eq!(
        lines[..6],
        [
            "[Rust] spike_rt_user_program() starting!",
            "[Rust] Clock: 42ms since boot",
            "[Rust] Buttons: 0x20",
            "[Rust] Motor driver A: err=0, B: err=-3",
            "[Rust] Motor A: duty=+7000, Motor B: duty=-5000",
            "[Rust] Counter A: err=0, ptr_null=false | B: err=5, ptr_null=true",
        ]
    );
    assert_eq!(
        lines[7],
        "[Rust] Tick 100 | clock: 7ms | A: 1rot+250mdeg (e0) | B: 0rot+0mdeg (e-99)"
    );
    assert_eq!(lines.len(), 13);
    assert_eq!(lines[11], "[Rust] Motors coasted, simulation done.");
    assert_eq!(lines[12], "[Rust] spike_rt_user_program() done!");
    assert_eq!(requests.iter().filter(|r| **r == Request::Advance).count(), 500);
    let a = PbdrvMotorDriverDev { id: 0 };
    let b = PbdrvMotorDriverDev { id: 1 };
    assert!(requests.contains(&Request::Duty { a, duty_a: 7000, b, duty_b: -5000 }));
    assert!(requests.contains(&Request::Coast { a, b }));
    assert!(requests.contains(&Request::Angles {
        counter_a: Some(PbdrvCounterDev { id: 0 }),
        counter_b: None,
    }));
}

#[test]
fn the_simulated_program_runs_without_motors() {
    let (out, requests) = simulate(false, (false, false));
    assert!(out.contains("[Rust] Could not get motor drivers, skipping motor test.\n[Rust] Tick 0 — clock: 42ms\n[Rust] Tick 25 — clock: 42ms\n"));
    assert!(out.ends_with("[Rust] Tick 75 — clock: 42ms\n[Rust] spike_rt_user_program() done!\n"));
    assert_eq!(requests.iter().filter(|r| **r == Request::RunOnce).count(), 100);
    assert!(!requests.iter().any(|r| matches!(r, Request::Duty { .. } | Request::Coast { .. })));
}
