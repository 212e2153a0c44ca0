//! The power hold: no program lets go of PA13 unless it means to.
//!
//! `pre_init` makes the hub hold its power; what follows shows that everything
//! else leaves it held, up to the plans that switch the hub off.
use crate::bare::{
    bare_init_acts, bare_round_acts, ramp_acts, ramp_duty, round_acts, swing_acts, RAMP_STEPS,
};
use crate::boot::{boot_protect_acts, monitor_init_acts};
use crate::button;
use crate::breakpoint::{bp_writes_breakpoint_unit_only, watch_writes_comparators_only};
use crate::button::{
    button_adc_acts, center_adc_acts, finish_adc_acts, holds_long, pend_acts, start_adc_acts,
    tick_convert_acts, tick_sample_acts, tick_serve_acts, tick_setup_acts, Tick,
};
use crate::clock::{
    beep_acts, beep_period_acts, beep_start_acts, beep_stop_acts, beep_wave_acts, init_clocks_acts,
    HCLK_HZ,
};
use crate::command::{command_acts, command_named, farewell_acts, short_commands_look, Command};
use crate::freeze::{freeze_acts, unfreeze_acts};
use crate::hub::{
    burst_acts, frame_after_left, frame_after_press, go_acts, halt_acts, hub_init_acts, kick_acts,
    left_acts, pause_frame, press_acts, right_acts, speed_after, speed_after_left, speed_frame,
    switches_off, tick_acts, Drive,
};
use crate::ledtest::{
    click_acts, clocks_acts, draw1, draw2, idle_levels, led_start_acts, led_switches_off,
    led_tick_acts, move_acts, move_duty, moved, resident_levels, rest_acts, show_acts,
    show_after_sides, sides_acts, toggle_acts, Combo, Show,
};
use crate::matrix::{painted, pattern_brightness, HEART, PIXELS};
use crate::memory::inspection_looks;
use crate::motor::{
    coast_acts, coast_all_acts, hub_power_acts, init_timer_acts, load_vbus_acts, motor_drive_acts,
    motor_hw_acts, motor_pins_acts, motor_set_acts, port_power_acts, power_and_gpio_acts,
    set_all_acts, timer_setup_acts, Motor,
};
use crate::motortest::{
    motor_test_acts, motor_test_start_acts, mover_acts, pulse_duty, state_after, MotorTest,
};
use crate::plan::{looks, only_talks, run, within, writes_within, Act, Regs};
use crate::power::{
    all_keep_power, keeps_power, kept_power_is_held, power_held, pre_init_acts, request_dfu_acts,
};
use crate::protect::{mpu_acts, option_acts};
use crate::regs::{DWT_COMP_BASE, DWT_END, FPB_CTRL, FPB_END};
use crate::rng::xorshift;
use crate::tlc5955::{
    control_bytes, frame_acts, grey_bytes, grey_clock_acts, latch_and_clock_pins_acts,
    led_app_pins_acts, led_latch_acts, led_matrix_acts, led_matrix_setup_acts, matrix_clocks_acts,
    matrix_frame_acts, matrix_pins_acts, spi_bytes_acts, spi_exchange_acts, spi_on_acts,
    spi_send_acts, status_led_acts, status_levels, status_pins_acts, status_setup_acts,
    tlc5955_init_hw_acts, tlc5955_latch_acts,
};
use crate::upload::{upload_begin_acts, upload_upto, Session};
use crate::usb::usb_pins_acts;
use vstd::prelude::*;

verus! {

/// The pins that programs change on port A, held against those of PA13.
proof fn pin_bits()
    ensures
        (3u32 << 26) & 0x0C00_0000 == 0x0C00_0000,
        (1u32 << 26) & 0x0C00_0000 == 0x0400_0000,
        (3u32 << 2) & 0x0C00_0000 == 0,
        (3u32 << 8) & 0x0C00_0000 == 0,
        (1u32 << 8) & 0x0C00_0000 == 0,
        (3u32 << 10) & 0x0C00_0000 == 0,
        (2u32 << 10) & 0x0C00_0000 == 0,
        (3u32 << 14) & 0x0C00_0000 == 0,
        (2u32 << 14) & 0x0C00_0000 == 0,
        ((3u32 << 10) | (3u32 << 14)) & 0x0C00_0000 == 0,
        ((2u32 << 10) | (2u32 << 14)) & 0x0C00_0000 == 0,
        ((3u32 << 10) | (3u32 << 12) | (3u32 << 14)) & 0x0C00_0000 == 0,
        ((2u32 << 10) | (2u32 << 12) | (2u32 << 14)) & 0x0C00_0000 == 0,
        (3u32 << 18) & 0x0C00_0000 == 0,
        0u32 & 0x0C00_0000 == 0,
        ((3u32 << 22) | (3u32 << 24)) & 0x0C00_0000 == 0,
        ((2u32 << 22) | (2u32 << 24)) & 0x0C00_0000 == 0,
        (3u32 << 28) & 0x0C00_0000 == 0,
        (1u32 << 28) & 0x0C00_0000 == 0,
        (3u32 << 30) & 0x0C00_0000 == 0,
        (1u32 << 30) & 0x0C00_0000 == 0,
        (1u32 << 4) & 0x2000_0000 == 0,
        (1u32 << 13) & 0x2000_0000 == 0,
        (1u32 << 14) & 0x2000_0000 == 0,
        (1u32 << 15) & 0x2000_0000 == 0,
        (1u32 << 20) & 0x2000_0000 == 0,
        (1u32 << 31) & 0x2000_0000 == 0,
{
    assert((3u32 << 26) & 0x0C00_0000 == 0x0C00_0000 && (1u32 << 26) & 0x0C00_0000 == 0x0400_0000
        && (3u32 << 2) & 0x0C00_0000 == 0 && (3u32 << 8) & 0x0C00_0000 == 0 && (1u32 << 8)
        & 0x0C00_0000 == 0 && (3u32 << 10) & 0x0C00_0000 == 0 && (2u32 << 10) & 0x0C00_0000 == 0
        && (3u32 << 14) & 0x0C00_0000 == 0 && (2u32 << 14) & 0x0C00_0000 == 0 && ((3u32 << 10) | (
    3u32 << 14)) & 0x0C00_0000 == 0 && ((2u32 << 10) | (2u32 << 14)) & 0x0C00_0000 == 0 && ((3u32
        << 10) | (3u32 << 12) | (3u32 << 14)) & 0x0C00_0000 == 0 && ((2u32 << 10) | (2u32 << 12) | (
    2u32 << 14)) & 0x0C00_0000 == 0 && (3u32 << 18) & 0x0C00_0000 == 0 && 0u32 & 0x0C00_0000 == 0
        && ((3u32 << 22) | (3u32 << 24)) & 0x0C00_0000 == 0 && ((2u32 << 22) | (2u32 << 24))
        & 0x0C00_0000 == 0 && (3u32 << 28) & 0x0C00_0000 == 0 && (1u32 << 28) & 0x0C00_0000 == 0
        && (3u32 << 30) & 0x0C00_0000 == 0 && (1u32 << 30) & 0x0C00_0000 == 0) by (bit_vector);
    assert((1u32 << 4) & 0x2000_0000 == 0 && (1u32 << 13) & 0x2000_0000 == 0 && (1u32 << 14)
        & 0x2000_0000 == 0 && (1u32 << 15) & 0x2000_0000 == 0 && (1u32 << 20) & 0x2000_0000 == 0
        && (1u32 << 31) & 0x2000_0000 == 0) by (bit_vector);
}

// ---------------------------------------------------------------------------
// The parts that programs are made of
// ---------------------------------------------------------------------------

proof fn wave_keeps(half: u32, n: nat)
    ensures
        all_keep_power(beep_wave_acts(half, n)),
    decreases n,
{
    if n > 0 {
        wave_keeps(half, (n - 1) as nat);
        pin_bits();
        assert(all_keep_power(beep_period_acts(half)));
    }
}

proof fn beep_keeps(duration_ms: u32, freq_hz: u32)
    ensures
        all_keep_power(beep_acts(duration_ms, freq_hz)),
{
    pin_bits();
    wave_keeps(
        (HCLK_HZ as int / (freq_hz * 2)) as u32,
        (duration_ms * freq_hz / 1000) as nat,
    );
    assert(all_keep_power(beep_start_acts()));
    assert(all_keep_power(beep_stop_acts()));
}

proof fn spi_bytes_keep(data: Seq<u8>, n: nat)
    ensures
        all_keep_power(spi_bytes_acts(data, n)),
    decreases n,
{
    if n > 0 {
        spi_bytes_keep(data, (n - 1) as nat);
    }
}

proof fn frames_keep(data: Seq<u8>)
    ensures
        all_keep_power(frame_acts(data)),
        all_keep_power(matrix_frame_acts(data)),
{
    pin_bits();
    spi_bytes_keep(data, data.len());
    assert(all_keep_power(tlc5955_latch_acts()));
    assert(all_keep_power(led_latch_acts()));
    assert(all_keep_power(spi_send_acts(data)));
    assert(all_keep_power(spi_exchange_acts(data)));
}

proof fn led_setups_keep()
    ensures
        all_keep_power(status_setup_acts()),
        all_keep_power(tlc5955_init_hw_acts()),
        all_keep_power(led_matrix_setup_acts()),
{
    pin_bits();
    assert(all_keep_power(status_pins_acts()));
    assert(all_keep_power(latch_and_clock_pins_acts()));
    assert(all_keep_power(grey_clock_acts()));
    assert(all_keep_power(spi_on_acts()));
    assert(all_keep_power(led_app_pins_acts()));
    assert(all_keep_power(matrix_pins_acts()));
    assert(all_keep_power(matrix_clocks_acts()));
}

proof fn motors_keep(motor: Motor, duty: i16)
    ensures
        all_keep_power(motor_set_acts(motor, duty)),
        all_keep_power(motor_drive_acts(motor, duty)),
        all_keep_power(coast_acts(motor)),
{
}

proof fn both_motors_keep(duty: i16)
    ensures
        all_keep_power(set_all_acts(duty)),
        all_keep_power(coast_all_acts()),
{
    motors_keep(Motor::A, duty);
    motors_keep(Motor::B, duty);
}

proof fn motor_setups_keep()
    ensures
        all_keep_power(motor_hw_acts()),
        all_keep_power(power_and_gpio_acts()),
        all_keep_power(init_timer_acts()),
        all_keep_power(load_vbus_acts()),
{
    pin_bits();
    assert(all_keep_power(port_power_acts()));
    assert(all_keep_power(hub_power_acts()));
    assert(all_keep_power(motor_pins_acts()));
    assert(all_keep_power(timer_setup_acts()));
}

proof fn buttons_keep(channel: u32, ended: bool)
    ensures
        all_keep_power(button_adc_acts()),
        all_keep_power(center_adc_acts()),
        all_keep_power(start_adc_acts(channel)),
        all_keep_power(finish_adc_acts(ended)),
{
    pin_bits();
}

proof fn freezing_keeps()
    ensures
        all_keep_power(freeze_acts()),
        all_keep_power(unfreeze_acts()),
{
}

// ---------------------------------------------------------------------------
// The programs
// ---------------------------------------------------------------------------

/// The monitor's start leaves the power held.
pub proof fn monitor_keeps_power(protect: bool, regs: Regs)
    requires
        power_held(regs),
    ensures
        power_held(run(monitor_init_acts(protect), regs)),
{
    pin_bits();
    assert(all_keep_power(init_clocks_acts()));
    assert(all_keep_power(mpu_acts()));
    assert(all_keep_power(boot_protect_acts(protect)));
    beep_keeps(150, 1000);
    led_setups_keep();
    frames_keep(control_bytes());
    frames_keep(grey_bytes(status_levels()));
    assert(all_keep_power(status_led_acts()));
    assert(all_keep_power(usb_pins_acts()));
    kept_power_is_held(monitor_init_acts(protect), regs);
}

/// The monitor's tick, which samples the center button under an application,
/// leaves the power held.
pub proof fn button_tick_keeps_power(open: bool, regs: Regs)
    requires
        power_held(regs),
    ensures
        power_held(run(tick_sample_acts(open), regs)),
{
    assert(all_keep_power(tick_serve_acts(open)));
    assert(all_keep_power(tick_setup_acts()));
    assert(all_keep_power(tick_convert_acts()));
    kept_power_is_held(tick_sample_acts(open), regs);
}

/// What the monitor's tick makes of a sample leaves the power held, short of a long
/// press.
pub proof fn button_press_keeps_power(t: Tick, sample: u32, ccmr: u32, regs: Regs)
    requires
        !holds_long(t, sample),
        power_held(regs),
    ensures
        power_held(run(button::tick_acts(t, sample, ccmr), regs)),
{
    freezing_keeps();
    assert(all_keep_power(pend_acts(t.debounce, sample)));
    assert(all_keep_power(button::press_acts(t, sample, ccmr)));
    kept_power_is_held(button::tick_acts(t, sample, ccmr), regs);
}

/// An upload leaves the power held, whatever is sent.
pub proof fn upload_keeps_power(s: Session, packet: Seq<u8>, n: nat)
    requires
        n <= packet.len(),
        all_keep_power(s.acts),
    ensures
        all_keep_power(upload_upto(s, packet, n).acts),
    decreases n,
{
    if n > 0 {
        upload_keeps_power(s, packet, (n - 1) as nat);
        let before = upload_upto(s, packet, (n - 1) as nat);
        let after = upload_upto(s, packet, n);
        assert forall|i: int| 0 <= i < after.acts.len() implies keeps_power(
            #[trigger] after.acts[i],
        ) by {
            if i < before.acts.len() {
                assert(keeps_power(before.acts[i]));
            }
        }
    }
}

/// The motor application's start leaves the power held.
pub proof fn hub_start_keeps_power(frame: Seq<u8>)
    ensures
        all_keep_power(hub_init_acts(frame)),
        all_keep_power(kick_acts()),
{
    pin_bits();
    assert(all_keep_power(pre_init_acts()));
    assert(all_keep_power(init_clocks_acts()));
    motor_setups_keep();
    led_setups_keep();
    frames_keep(control_bytes());
    assert(all_keep_power(led_matrix_acts()));
    buttons_keep(0, true);
    frames_keep(
        painted(
            frame,
            pattern_brightness(HEART@, 50),
            PIXELS as int,
        ),
    );
    both_motors_keep(400);
    both_motors_keep((-400) as i16);
    assert(all_keep_power(burst_acts(400, 150)));
    assert(all_keep_power(burst_acts((-400) as i16, 150)));
}

/// Interactive mode leaves the power held until a long press lets go of it.
pub proof fn hub_keeps_power(d: Drive, btns: u8, frame: Seq<u8>, regs: Regs)
    requires
        power_held(regs),
        !switches_off(d, btns),
    ensures
        power_held(run(tick_acts(d, btns, frame), regs)),
{
    let f1 = frame_after_press(d, btns, frame);
    let f2 = frame_after_left(d, btns, frame);
    let s1 = speed_after_left(d, btns);
    let s2 = speed_after(d, btns);
    both_motors_keep(d.speed);
    both_motors_keep(s1);
    both_motors_keep(s2);
    frames_keep(speed_frame(frame, d.speed));
    frames_keep(pause_frame(frame));
    frames_keep(speed_frame(f1, s1));
    frames_keep(speed_frame(f2, s2));
    assert(all_keep_power(go_acts(frame, d.speed)));
    assert(all_keep_power(halt_acts(frame)));
    assert(all_keep_power(go_acts(f1, s1)));
    assert(all_keep_power(go_acts(f2, s2)));
    assert(all_keep_power(press_acts(d, btns, frame)));
    assert(all_keep_power(left_acts(d, btns, frame)));
    assert(all_keep_power(right_acts(d, btns, frame)));
    kept_power_is_held(tick_acts(d, btns, frame), regs);
}

proof fn ramp_keeps(reverse: bool, down: bool, n: nat)
    ensures
        all_keep_power(ramp_acts(reverse, down, n)),
    decreases n,
{
    if n > 0 {
        ramp_keeps(reverse, down, (n - 1) as nat);
        both_motors_keep(ramp_duty(reverse, down, n - 1));
    }
}

/// The demo without buttons never lets go of the power.
pub proof fn bare_keeps_power(frame: Seq<u8>, dev_mode: bool)
    ensures
        all_keep_power(bare_init_acts(frame)),
        all_keep_power(bare_round_acts(dev_mode)),
{
    pin_bits();
    hub_start_keeps_power(frame);
    assert(all_keep_power(pre_init_acts()));
    assert(all_keep_power(init_clocks_acts()));
    motor_setups_keep();
    led_setups_keep();
    frames_keep(control_bytes());
    assert(all_keep_power(led_matrix_acts()));
    frames_keep(
        painted(
            frame,
            pattern_brightness(HEART@, 50),
            PIXELS as int,
        ),
    );
    ramp_keeps(false, false, RAMP_STEPS as nat);
    ramp_keeps(false, true, RAMP_STEPS as nat);
    ramp_keeps(true, false, RAMP_STEPS as nat);
    ramp_keeps(true, true, RAMP_STEPS as nat);
    both_motors_keep(0);
    assert(all_keep_power(swing_acts(false)));
    assert(all_keep_power(swing_acts(true)));
    assert(all_keep_power(round_acts()));
    assert(all_keep_power(request_dfu_acts()));
}

/// The LED application's start leaves the power held.
pub proof fn led_start_keeps_power(cfgr: u32)
    ensures
        all_keep_power(led_start_acts(cfgr)),
{
    pin_bits();
    assert(all_keep_power(clocks_acts(cfgr)));
    beep_keeps(80, 1500);
    beep_keeps(80, 2000);
    led_setups_keep();
    frames_keep(control_bytes());
    frames_keep(grey_bytes(idle_levels()));
    buttons_keep(0, true);
    motor_setups_keep();
}

/// The LED application leaves the power held until a long press lets go of it.
pub proof fn led_keeps_power(prev: u8, hold: u32, c: Combo, s: Show, btns: u8, regs: Regs)
    requires
        power_held(regs),
        !led_switches_off(hold, btns),
    ensures
        power_held(run(led_tick_acts(prev, hold, c, s, btns), regs)),
{
    let rising = btns & !prev;
    let t = show_after_sides(c, s, btns, rising);
    beep_keeps(10, 4000);
    assert(all_keep_power(click_acts(rising)));
    both_motors_keep(0);
    frames_keep(grey_bytes(idle_levels()));
    frames_keep(grey_bytes(resident_levels(0)));
    frames_keep(grey_bytes(resident_levels(t.frame)));
    assert(all_keep_power(toggle_acts(!s.running)));
    assert(all_keep_power(sides_acts(c, s, btns, rising)));
    motors_keep(Motor::A, move_duty(draw1(t)));
    motors_keep(Motor::B, move_duty(draw2(t)));
    motors_keep(Motor::A, 0);
    motors_keep(Motor::B, 0);
    assert(all_keep_power(move_acts(t)));
    assert(all_keep_power(rest_acts(Motor::A, moved(t).on_left)));
    assert(all_keep_power(rest_acts(Motor::B, moved(t).on_right)));
    assert(all_keep_power(show_acts(t)));
    kept_power_is_held(led_tick_acts(prev, hold, c, s, btns), regs);
}

/// The motor test never lets go of the power.
pub proof fn motor_test_keeps_power(cfgr: u32, t: MotorTest, center: u32)
    ensures
        all_keep_power(motor_test_start_acts(cfgr)),
        all_keep_power(motor_test_acts(t, center)),
{
    pin_bits();
    assert(all_keep_power(clocks_acts(cfgr)));
    beep_keeps(100, 1200);
    beep_keeps(60, 800);
    buttons_keep(0, true);
    motor_setups_keep();
    both_motors_keep(0);
    let r = xorshift(t.rng.state);
    let mid = state_after(t.a, t.rng.state);
    let r2 = xorshift(mid);
    motors_keep(Motor::A, 0);
    motors_keep(Motor::B, 0);
    motors_keep(Motor::A, pulse_duty(r));
    motors_keep(Motor::B, pulse_duty(r2));
    assert(all_keep_power(mover_acts(Motor::A, t.a, t.rng.state)));
    assert(all_keep_power(mover_acts(Motor::B, t.b, mid)));
}

proof fn looking_keeps(acts: Seq<Act>)
    requires
        looks(acts),
    ensures
        all_keep_power(acts),
{
    assert forall|i: int| 0 <= i < acts.len() implies keeps_power(#[trigger] acts[i]) by {
        assert(only_talks(acts[i]));
    }
}

proof fn debugging_keeps(acts: Seq<Act>, lo: u32, hi: u32)
    requires
        within(acts, lo, hi),
        lo > 0xE000_0000,
    ensures
        all_keep_power(acts),
{
    assert forall|i: int| 0 <= i < acts.len() implies keeps_power(#[trigger] acts[i]) by {
        assert(writes_within(acts[i], lo, hi));
    }
}

proof fn upload_start_keeps()
    ensures
        all_keep_power(upload_begin_acts()),
{
}

proof fn farewells_keep(s: &str)
    ensures
        all_keep_power(farewell_acts(s) + request_dfu_acts()),
        all_keep_power(farewell_acts(s) + seq![Act::Reset]),
{
}

proof fn protection_keeps()
    ensures
        all_keep_power(option_acts(true)),
        all_keep_power(option_acts(false)),
{
}

/// Every command of the shell leaves the power held, but for `off`, which lets go
/// of it, and `poke`, which can write anything.
pub proof fn commands_keep_power(
    word: Seq<u8>,
    args: Seq<Seq<u8>>,
    bp: Seq<Option<u32>>,
    watch: Seq<Option<u32>>,
    regs: Regs,
)
    requires
        power_held(regs),
        command_named(word) != Command::Off,
        command_named(word) != Command::Poke,
    ensures
        power_held(run(command_acts(word, args, bp, watch), regs)),
{
    let acts = command_acts(word, args, bp, watch);
    match command_named(word) {
        Command::Peek { width } => {
            inspection_looks(args, width);
            looking_keeps(acts);
        },
        Command::Dump => {
            inspection_looks(args, 1);
            looking_keeps(acts);
        },
        Command::Pause | Command::Resume => {
            freezing_keeps();
        },
        Command::Protect | Command::Unprotect => {
            protection_keeps();
        },
        Command::Bp => {
            bp_writes_breakpoint_unit_only(args, bp);
            debugging_keeps(acts, FPB_CTRL, FPB_END);
        },
        Command::Watch => {
            watch_writes_comparators_only(args, watch);
            debugging_keeps(acts, DWT_COMP_BASE, DWT_END);
        },
        Command::Upload => {
            upload_start_keeps();
        },
        Command::Dfu => {
            farewells_keep("Entering DFU...\r\n");
        },
        Command::Reboot => {
            farewells_keep("Rebooting...\r\n");
        },
        _ => {
            short_commands_look(word);
            looking_keeps(acts);
        },
    }
    kept_power_is_held(acts, regs);
}

} // verus!
