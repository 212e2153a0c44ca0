use spike_hub::button::{
    adc_value, boot_read_center_button, center_pressed, finish_adc, init_button_adc,
    init_center_adc, read_adc, read_buttons, read_center_button, start_adc, tick_sample, BTN_CENTER,
    BTN_LEFT, BTN_RIGHT,
};
use spike_hub::clock::{
    arm_systick, beep, init_clocks, init_clocks_unless_running, load_clock_config, PLL_CONFIG,
};
use spike_hub::matrix::{Matrix, HEART, LED_CHANNELS, PAUSE};
use spike_hub::motor::{
    init_motor_hw, init_power_and_gpio, init_timer, load_vbus, motor_coast, motor_coast_all,
    motor_set, motor_set_both, set_motor_a, set_motor_b, usb_vbus_detected, Motor,
};
use spike_hub::plan::{modified, Op, Plan};
use spike_hub::power::{
    boot_app, check_and_enter_dfu, enter_system_dfu, is_app_valid, jump_to_app, power_off,
    pre_init, request_dfu,
};
use spike_hub::rng::Rng;
use spike_hub::tlc5955::{
    control_frame, grey_frame, init_led_matrix, init_status_led, tlc5955_init_hw,
    tlc5955_send_control, tlc5955_send_gs,
};
use spike_hub::usb::{init_usb_pins, UsbFs};
use std::collections::HashMap;

const GPIOA_MODER: u32 = 0x4002_0000;
const GPIOA_ODR: u32 = 0x4002_0014;
const GPIOE_MODER: u32 = 0x4002_1000;
const GPIOE_ODR: u32 = 0x4002_1014;
const TIM1: u32 = 0x4001_0000;

/// Registers that behave as the hub's do.
fn perform(p: &Plan, regs: &mut HashMap<u32, u32>) {
    for op in &p.ops {
        let (addr, val) = match op {
            Op::Write { addr, val } => (*addr, *val),
            Op::Modify { addr, clear, set } => {
                (*addr, modified(*regs.get(addr).unwrap_or(&0), *clear, *set))
            }
            _ => continue,
        };
        if [0x4002_0018, 0x4002_0418, 0x4002_0818, 0x4002_1018].contains(&addr) {
            let odr = *regs.get(&(addr - 4)).unwrap_or(&0);
            regs.insert(addr - 4, (odr & !(val >> 16)) | (val & 0xFFFF));
        } else {
            regs.insert(addr, val);
        }
    }
}

/// Frames that the LED driver takes.
fn frames(p: &Plan) -> Vec<Vec<u8>> {
    let mut shift = Vec::new();
    let mut out = Vec::new();
    for op in &p.ops {
        match op {
            Op::Write { addr: 0x4001_300C, val } => shift.push(*val as u8),
            Op::Write { addr: 0x4002_0018, val } if val & 0x8000 != 0 => {
                out.push(std::mem::take(&mut shift));
            }
            _ => {}
        }
    }
    out
}

#[test]
fn clocks_come_from_the_crystal() {
    assert_eq!(PLL_CONFIG, 0x0440_3010);
    let p = init_clocks();
    assert_eq!(p.ops[0], Op::Modify { addr: 0x4002_3C00, clear: 0xF, set: 3 });
    assert_eq!(p.ops[2], Op::WaitSet { addr: 0x4002_3800, mask: 1 << 17 });
    assert_eq!(p.ops[3], Op::Write { addr: 0x4002_3804, val: PLL_CONFIG });
    assert_eq!(p.ops[6], Op::Modify { addr: 0x4002_3808, clear: 0xFCF0, set: 0x1000 });
    assert_eq!(p.ops[8], Op::WaitEq { addr: 0x4002_3808, mask: 0xC, val: 8 });
    assert_eq!(p.ops.len(), 9);
}

#[test]
fn clocks_are_left_alone_when_they_run() {
    assert_eq!(load_clock_config().ops, vec![Op::Load { addr: 0x4002_3808 }]);
    assert!(init_clocks_unless_running(0x100A).ops.is_empty());
    assert_eq!(init_clocks_unless_running(0), init_clocks());
    assert_eq!(init_clocks_unless_running(0xC), init_clocks());
}

#[test]
fn the_tick_runs_at_1_khz() {
    assert_eq!(
        arm_systick(0x0800_9001).ops,
        vec![
            Op::Write { addr: 0xE000_E010, val: 0 },
            Op::Write { addr: 0xE000_E014, val: 95_999 },
            Op::Write { addr: 0xE000_E018, val: 0 },
            Op::Write { addr: 0xE000_E010, val: 7 },
            Op::Write { addr: 0x2004_FFE4, val: 0x0800_9001 },
        ]
    );
}

#[test]
fn a_beep_is_a_square_wave() {
    let p = beep(150, 1000);
    let high = Op::Write { addr: 0x4002_0018, val: 1 << 4 };
    let highs = p.ops.iter().filter(|o| **o == high).count();
    let halves = p.ops.iter().filter(|o| **o == Op::Delay { cycles: 48_000 }).count();
    assert_eq!(highs, 150);
    assert_eq!(halves, 300);
    let mut regs = HashMap::new();
    perform(&p, &mut regs);
    assert_eq!(regs[&0x4002_0814] & (1 << 10), 0);
    assert_eq!((regs[&GPIOA_MODER] >> 8) & 3, 3);
    assert_eq!(beep(0, 1000).ops.len(), 7);
}

#[test]
fn power_is_held_and_let_go() {
    let mut regs = HashMap::new();
    regs.insert(GPIOA_MODER, 0xA800_0000);
    perform(&pre_init(), &mut regs);
    assert_eq!(regs[&GPIOA_MODER], 0xA400_0000);
    assert_eq!(regs[&GPIOA_ODR], 1 << 13);
    let p = power_off();
    perform(&p, &mut regs);
    assert_eq!(regs[&GPIOA_ODR], 0);
    assert_eq!(p.ops.last(), Some(&Op::Sleep));
}

#[test]
fn a_request_for_dfu_is_answered_once() {
    assert_eq!(
        request_dfu().ops,
        vec![Op::Write { addr: 0x2004_FFF0, val: 0xDEAD_B007 }, Op::Reset]
    );
    assert!(check_and_enter_dfu(0).ops.is_empty());
    assert!(check_and_enter_dfu(0xDEAD_B008).ops.is_empty());
    let p = check_and_enter_dfu(0xDEAD_B007);
    assert_eq!(p.ops[0], Op::Write { addr: 0x2004_FFF0, val: 0 });
    assert_eq!(p.ops[1..], enter_system_dfu().ops[..]);
}

#[test]
fn dfu_masks_every_interrupt() {
    let p = enter_system_dfu();
    assert_eq!(p.ops[0], Op::Irq { on: false });
    assert_eq!(p.ops[1], Op::Write { addr: 0xE000_E010, val: 0 });
    for i in 0..8u32 {
        assert!(p.ops.contains(&Op::Write { addr: 0xE000_E180 + 4 * i, val: 0xFFFF_FFFF }));
        assert!(p.ops.contains(&Op::Write { addr: 0xE000_E280 + 4 * i, val: 0xFFFF_FFFF }));
    }
    assert_eq!(p.ops[20], Op::Write { addr: 0x4001_3800, val: 1 });
    assert_eq!(p.ops.last(), Some(&Op::LaunchTable { table: 0x1FFF_0000 }));
}

#[test]
fn applications_need_a_sound_vector() {
    assert!(is_app_valid(0x2000_0000, 0x0801_0000));
    assert!(is_app_valid(0x2005_0000, 0x0810_0000));
    assert!(!is_app_valid(0x1FFF_FFFF, 0x0801_0001));
    assert!(!is_app_valid(0x2005_0001, 0x0801_0001));
    assert!(!is_app_valid(0x2000_0000, 0x0800_FFFF));
    assert!(!is_app_valid(0x2000_0000, 0x0810_0001));
}

#[test]
fn jumps_differ_in_the_tick() {
    assert_eq!(
        jump_to_app(1, 2).ops,
        vec![
            Op::Irq { on: false },
            Op::Write { addr: 0xE000_ED04, val: 1 << 25 },
            Op::Write { addr: 0xE000_ED08, val: 0x0801_0000 },
            Op::Launch { sp: 1, pc: 2, irqs: true },
        ]
    );
    assert_eq!(
        boot_app(1, 2).ops,
        vec![
            Op::Irq { on: false },
            Op::Write { addr: 0xE000_E010, val: 0 },
            Op::Write { addr: 0xE000_ED04, val: 1 << 25 },
            Op::Write { addr: 0xE000_ED08, val: 0x0801_0000 },
            Op::Launch { sp: 1, pc: 2, irqs: false },
        ]
    );
}

#[test]
fn ladder_values_tell_buttons() {
    assert_eq!(read_buttons(4095, 4095), 0);
    assert_eq!(read_buttons(2879, 4095), BTN_CENTER);
    assert_eq!(read_buttons(2880, 4095), 0);
    for (v, flags) in [
        (3873, 0),
        (3872, 0),
        (3395, 0),
        (3394, BTN_RIGHT),
        (3010, BTN_RIGHT),
        (3009, BTN_RIGHT),
        (2756, BTN_RIGHT),
        (2755, BTN_LEFT),
        (2539, BTN_LEFT),
        (2538, BTN_LEFT),
        (2328, BTN_LEFT),
        (2327, BTN_LEFT | BTN_RIGHT),
        (2142, BTN_LEFT | BTN_RIGHT),
        (2141, BTN_LEFT | BTN_RIGHT),
        (1970, BTN_LEFT | BTN_RIGHT),
        (1969, 0),
        (0, 0),
    ] {
        assert_eq!(read_buttons(4095, v), flags);
    }
    assert_eq!(read_buttons(0, 2000), 7);
    assert!(center_pressed(2879));
    assert!(!center_pressed(2880));
}

#[test]
fn conversions_are_started_and_ended() {
    assert_eq!(
        read_adc(14).ops,
        vec![
            Op::Write { addr: 0x4001_2034, val: 14 },
            Op::Modify { addr: 0x4001_2008, clear: 0, set: 1 << 30 },
            Op::WaitSet { addr: 0x4001_2000, mask: 2 },
            Op::Load { addr: 0x4001_204C },
        ]
    );
    let p = start_adc(1);
    assert_eq!(p.ops[0], Op::Irq { on: false });
    assert_eq!(p.ops[5], Op::Poll { addr: 0x4001_2000, mask: 2, tries: 100_000 });
    assert_eq!(
        finish_adc(true).ops,
        vec![Op::Load { addr: 0x4001_204C }, Op::Irq { on: true }]
    );
    assert_eq!(
        finish_adc(false).ops,
        vec![
            Op::Modify { addr: 0x4001_2008, clear: 1, set: 0 },
            Op::Delay { cycles: 100 },
            Op::Modify { addr: 0x4001_2008, clear: 0, set: 1 },
            Op::Irq { on: true },
        ]
    );
    assert_eq!(adc_value(true, 1234), 1234);
    assert_eq!(adc_value(false, 1234), 4095);
}

#[test]
fn ladders_are_analog() {
    let mut regs = HashMap::new();
    perform(&init_button_adc(), &mut regs);
    assert_eq!((regs[&0x4002_0800] >> 8) & 3, 3);
    assert_eq!((regs[&GPIOA_MODER] >> 2) & 3, 3);
    assert_eq!(regs[&0x4001_200C], 7 << 12);
    assert_eq!(regs[&0x4001_2010], 7 << 3);
    let mut regs = HashMap::new();
    perform(&init_center_adc(), &mut regs);
    assert_eq!((regs[&0x4002_0800] >> 8) & 3, 3);
    assert!(!regs.contains_key(&GPIOA_MODER));
}

#[test]
fn the_center_button_is_sampled_at_boot() {
    let p = read_center_button();
    assert_eq!(p.ops[7], Op::Delay { cycles: 160_000 });
    assert_eq!(p.ops.last(), Some(&Op::Write { addr: 0x4001_2008, val: 0 }));
    let q = boot_read_center_button();
    assert_eq!(q.ops[7], Op::Nops { count: 160_000 });
    assert_eq!(p.ops[..7], q.ops[..7]);
    assert_eq!(p.ops[8..], q.ops[8..]);
    let t = tick_sample(true);
    assert_eq!(t.ops[10], Op::Nops { count: 300 });
    assert_eq!(t.ops[13], Op::Poll { addr: 0x4001_2000, mask: 2, tries: 1000 });
    assert_eq!(t.ops[14], Op::Load { addr: 0x4001_204C });
    assert_eq!(t.ops[15..], [
        Op::Write { addr: 0x4001_2008, val: 0 },
        Op::Load { addr: 0x4001_0018 },
    ]);
    let served = tick_sample(false);
    assert_eq!(served.ops[0], Op::Flush { polls: 1 });
    assert_eq!(served.ops[1..], t.ops[..]);
}

fn bridge(regs: &HashMap<u32, u32>, sh: u32, pin: u32) -> (u32, u32) {
    ((regs[&GPIOE_MODER] >> sh) & 3, (regs[&GPIOE_ODR] >> pin) & 1)
}

#[test]
fn forward_is_pwm_on_the_first_pin() {
    let mut regs = HashMap::new();
    perform(&motor_set(Motor::A, 400), &mut regs);
    assert_eq!(bridge(&regs, 18, 9).0, 2);
    assert_eq!(bridge(&regs, 22, 11), (1, 1));
    assert_eq!(regs[&(TIM1 + 0x34)], 400);
    perform(&motor_set(Motor::B, -2000), &mut regs);
    assert_eq!(bridge(&regs, 26, 13), (1, 1));
    assert_eq!(bridge(&regs, 28, 14).0, 2);
    assert_eq!(regs[&(TIM1 + 0x40)], 1000);
    assert_eq!(bridge(&regs, 18, 9).0, 2);
    assert_eq!(bridge(&regs, 22, 11), (1, 1));
}

#[test]
fn zero_brakes_or_coasts() {
    let mut regs = HashMap::new();
    perform(&motor_set(Motor::A, 0), &mut regs);
    assert_eq!(bridge(&regs, 18, 9), (1, 1));
    assert_eq!(bridge(&regs, 22, 11), (1, 1));
    perform(&set_motor_a(0), &mut regs);
    assert_eq!(bridge(&regs, 18, 9), (1, 0));
    assert_eq!(bridge(&regs, 22, 11), (1, 0));
    assert_eq!(set_motor_b(0), motor_coast(Motor::B));
    assert_eq!(set_motor_b(700), motor_set(Motor::B, 700));
    assert_eq!(motor_set_both(0), motor_coast_all());
    assert_eq!(motor_set(Motor::A, 1001), motor_set(Motor::A, 1000));
    assert_eq!(motor_set(Motor::A, -1001), motor_set(Motor::A, -1000));
}

#[test]
fn motors_start_coasting() {
    let mut regs = HashMap::new();
    regs.insert(GPIOE_ODR, 0xFFFF);
    perform(&init_motor_hw(), &mut regs);
    for (sh, pin) in [(18, 9), (22, 11), (26, 13), (28, 14)] {
        assert_eq!(bridge(&regs, sh, pin), (1, 0));
    }
    assert_eq!(regs[&(TIM1 + 0x28)], 7);
    assert_eq!(regs[&(TIM1 + 0x2C)], 999);
    assert_eq!(regs[&(TIM1 + 0x20)], 0x3333);
    assert_eq!(regs[&(TIM1 + 0x44)], 1 << 15);
    assert_eq!(regs[&GPIOA_ODR], 1 << 14);
    let mut regs = HashMap::new();
    perform(&init_power_and_gpio(), &mut regs);
    perform(&init_timer(), &mut regs);
    assert_eq!(regs[&GPIOA_ODR], (1 << 13) | (1 << 14));
    assert_eq!(regs[&TIM1], 0x81);
}

#[test]
fn the_usb_supply_is_sensed() {
    assert_eq!(load_vbus().ops[1], Op::Load { addr: 0x4002_0010 });
    assert!(usb_vbus_detected(1 << 9));
    assert!(!usb_vbus_detected(!(1 << 9)));
    let mut regs = HashMap::new();
    perform(&init_usb_pins(), &mut regs);
    assert_eq!((regs[&GPIOA_MODER] >> 22) & 0xF, 0xA);
    assert_eq!((regs[&0x4002_0024] >> 12) & 0xFF, 0xAA);
    perform(&UsbFs::enable(), &mut regs);
    assert_eq!(regs[&0x4002_3834], 0x80);
    assert_eq!(regs[&0x4002_3814], 0);
    let u = UsbFs::new();
    assert_eq!(u.ahb_frequency_hz(), 96_000_000);
    assert_eq!((u.registers, u.fifo_words, u.endpoints), (0x5000_0000, 320, 6));
}

#[test]
fn the_control_frame_is_fixed() {
    let f = control_frame();
    assert_eq!(f[..3], [1, 0x96, 0]);
    assert_eq!(f[49..56], [0, 0x06, 0x7F, 0xFF, 0xFE, 0x00, 0xFF]);
    assert_eq!(f[96], 0xFF);
    assert_eq!(frames(&tlc5955_send_control()), vec![f.to_vec()]);
}

#[test]
fn levels_go_out_high_byte_first() {
    let mut ch = [0u16; 48];
    ch[0] = 0x1234;
    ch[47] = 0xABCD;
    let f = grey_frame(&ch);
    assert_eq!(f[..4], [0, 0x12, 0x34, 0]);
    assert_eq!(f[95..], [0xAB, 0xCD]);
    assert_eq!(frames(&tlc5955_send_gs(&ch)), vec![f.to_vec()]);
}

#[test]
fn the_driver_is_controlled_twice() {
    let control = control_frame().to_vec();
    let mut green = [0u16; 48];
    green[4] = 0x2000;
    assert_eq!(
        frames(&init_status_led()),
        vec![control.clone(), control.clone(), grey_frame(&green).to_vec()]
    );
    assert_eq!(frames(&init_led_matrix()), vec![control.clone(), control]);
    assert!(frames(&tlc5955_init_hw()).is_empty());
}

#[test]
fn lights_have_their_own_channels() {
    let mut seen = LED_CHANNELS.to_vec();
    seen.sort();
    seen.dedup();
    assert_eq!(seen.len(), 25);
    let mut m = Matrix::new();
    m.led_set_pixel(0, 100);
    assert_eq!(m.frame[77..79], [0xFF, 0xFF]);
    m.led_set_pixel(24, 50);
    assert_eq!(m.frame[19..21], [0x3F, 0xFF]);
    assert_eq!(m.frame.iter().filter(|b| **b != 0).count(), 4);
    m.led_set_pixel(25, 60_000);
    m.led_set_pixel(0, 256);
    assert_eq!(m.frame[77..79], [0xFF, 0xFF]);
    m.led_set_pixel(0, 0);
    assert_eq!(m.frame[77..79], [0, 0]);
}

fn levels(m: &Matrix) -> Vec<u32> {
    LED_CHANNELS
        .iter()
        .map(|c| {
            let c = *c as usize;
            m.frame[2 * c + 1] as u32 * 256 + m.frame[2 * c + 2] as u32
        })
        .collect()
}

#[test]
fn pictures_are_shown() {
    let mut m = Matrix::new();
    let p = m.show_pattern(&HEART, 50);
    assert_eq!(frames(&p), vec![m.frame.to_vec()]);
    assert_eq!(levels(&m), HEART.iter().map(|b| *b as u32 * 16383).collect::<Vec<u32>>());
    m.show_paused_led();
    assert_eq!(levels(&m), PAUSE.iter().map(|b| *b as u32 * 16383).collect::<Vec<u32>>());
}

#[test]
fn the_bar_shows_the_speed() {
    let lit = |speed: i16| -> Vec<usize> {
        let mut m = Matrix::new();
        m.show_paused_led();
        m.show_speed_led(speed);
        levels(&m).iter().enumerate().filter(|(_, v)| **v != 0).map(|(i, _)| i).collect()
    };
    assert_eq!(lit(400), vec![17, 22]);
    assert_eq!(lit(1000), vec![2, 7, 12, 17, 22]);
    assert_eq!(lit(-600), vec![2, 7, 12]);
    assert_eq!(lit(0), vec![12]);
    assert_eq!(lit(99), Vec::<usize>::new());
    assert_eq!(lit(i16::MIN), vec![2, 7, 12, 17, 22]);
    let mut m = Matrix::new();
    m.show_speed_led(0);
    assert_eq!(levels(&m)[12], 2621);
    m.show_speed_led(200);
    assert_eq!(levels(&m)[22], 23592);
}

#[test]
fn random_numbers_follow_xorshift() {
    let mut r = Rng { state: 1 };
    assert_eq!(r.rng_next(), 270_369);
    assert_eq!(r.rng_next(), 67_634_689);
    assert_eq!(Rng::new().state, 0xDEAD_BEEF);
    let mut a = Rng::new();
    a.rng_seed(0x1234, 0x0F, 0xF0);
    let mut b = Rng { state: 0x1234 ^ 0xFF ^ 0xCAFE_BABE };
    for _ in 0..8 {
        b.rng_next();
    }
    assert_eq!(a, b);
    let mut zero = Rng { state: 0 };
    assert_eq!(zero.rng_next(), 0);
}
