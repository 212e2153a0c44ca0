//! What the bus sees of the plans whose accesses are fixed: every one of them by its
//! address and its value, and how the longer plans are made of the shorter ones.
use crate::bare::{bare_init_acts, bare_round_acts, ramp_acts, ramp_duty, round_acts, swing_acts};
use crate::boot::{
    boot_acts, boot_next, boot_outcome, load_vector_acts, monitor_acts, monitor_init_acts,
    monitor_next, monitor_outcome, monitor_sample_acts, BootStage, Found, MonitorFound,
    MonitorSetup, MonitorStage, Outcome,
};
use crate::button::{
    button_adc_acts, center_adc_acts, center_sample_acts, center_sample_end_acts,
    center_sample_start_acts, finish_adc_acts, read_adc_acts, start_adc_acts, tick_convert_acts,
    tick_sample_acts, tick_setup_acts, ADC_SETTLE,
};
use crate::clock::{
    arm_systick_acts, beep_acts, beep_period_acts, beep_start_acts, beep_stop_acts, beep_wave_acts,
    init_clocks_acts, load_clock_config_acts, PLL_CONFIG,
};
use crate::console::banner_acts;
use crate::freeze::{
    channels_acts, freeze_acts, go_on_acts, pause_acts, toggle_freeze_acts, unfreeze_acts,
};
use crate::hub::{
    burst_acts, dev_demo_acts, hub_init_acts, kick_acts, motor_demo_acts, sample_buttons_acts,
    shutdown_acts,
};
use crate::ledtest::{clocks_acts, idle_levels, led_start_acts};
use crate::matrix::{painted, pattern_brightness, CHECK, HEART};
use crate::motor::{
    coast_acts, coast_all_acts, hub_power_acts, init_timer_acts, load_vbus_acts, motor_hw_acts,
    motor_pins_acts, motor_set_acts, port_power_acts, power_and_gpio_acts, set_all_acts,
    timer_setup_acts, Motor,
};
use crate::motortest::{motor_test_start_acts, stop_acts};
use crate::plan::{output, say, Act, Form};
use crate::power::{
    boot_app_acts, check_dfu_acts, enter_system_dfu_acts, jump_to_app_acts, mask_interrupts_acts,
    power_off_acts, pre_init_acts, request_dfu_acts,
};
use crate::protect::{mpu_acts, option_acts, protect_acts, unprotect_acts};
use crate::report::{duty_acts, motors_heading_acts};
use crate::tlc5955::{
    control_bytes, frame_acts, grey_bytes, grey_clock_acts, latch_and_clock_pins_acts,
    led_app_pins_acts, led_latch_acts, led_matrix_acts, matrix_clocks_acts, matrix_frame_acts,
    matrix_pins_acts, spi_bytes_acts, spi_on_acts, status_led_acts, status_levels,
    status_pins_acts, tlc5955_init_hw_acts, tlc5955_latch_acts,
};
use crate::usb::{usb_enable_acts, usb_pins_acts};
use vstd::prelude::*;

verus! {

/// Bits and fields of a register by division: what masks and shifts pick out of it.
pub proof fn fields_by_division(r: u32)
    ensures
        r & 0x1 != 0 <==> r / 0x1 % 2 == 1,
        r & 0x10 != 0 <==> r / 0x10 % 2 == 1,
        r & 0x80 != 0 <==> r / 0x80 % 2 == 1,
        r & 0x100 != 0 <==> r / 0x100 % 2 == 1,
        r & 0x200 != 0 <==> r / 0x200 % 2 == 1,
        r & 0x1000 != 0 <==> r / 0x1000 % 2 == 1,
        r & 0x8000 != 0 <==> r / 0x8000 % 2 == 1,
        (r >> 2u32) & 3 == r / 0x4 % 4,
        (r >> 12u32) & 3 == r / 0x1000 % 4,
        (r >> 14u32) & 3 == r / 0x4000 % 4,
        (r >> 16u32) & 3 == r / 0x0001_0000 % 4,
        (r >> 18u32) & 3 == r / 0x0004_0000 % 4,
        (r >> 22u32) & 3 == r / 0x0040_0000 % 4,
        (r >> 26u32) & 3 == r / 0x0400_0000 % 4,
        (r >> 28u32) & 3 == r / 0x1000_0000 % 4,
        (r >> 0u32) & 0xF == r / 0x1 % 16,
        (r >> 4u32) & 0xF == r / 0x10 % 16,
        (r >> 12u32) & 0xF == r / 0x1000 % 16,
        (r >> 20u32) & 0xF == r / 0x0010_0000 % 16,
        (r >> 24u32) & 0xF == r / 0x0100_0000 % 16,
        (r >> 28u32) & 0xF == r / 0x1000_0000 % 16,
        r & 0xFFF == r % 4096,
{
    assert((r & 0x1 != 0 <==> r / 0x1 % 2 == 1)
        && (r & 0x10 != 0 <==> r / 0x10 % 2 == 1)
        && (r & 0x80 != 0 <==> r / 0x80 % 2 == 1)
        && (r & 0x100 != 0 <==> r / 0x100 % 2 == 1)
        && (r & 0x200 != 0 <==> r / 0x200 % 2 == 1)
        && (r & 0x1000 != 0 <==> r / 0x1000 % 2 == 1)
        && (r & 0x8000 != 0 <==> r / 0x8000 % 2 == 1)
        && ((r >> 2u32) & 3 == r / 0x4 % 4)
        && ((r >> 12u32) & 3 == r / 0x1000 % 4)
        && ((r >> 14u32) & 3 == r / 0x4000 % 4)
        && ((r >> 16u32) & 3 == r / 0x0001_0000 % 4)
        && ((r >> 18u32) & 3 == r / 0x0004_0000 % 4)
        && ((r >> 22u32) & 3 == r / 0x0040_0000 % 4)
        && ((r >> 26u32) & 3 == r / 0x0400_0000 % 4)
        && ((r >> 28u32) & 3 == r / 0x1000_0000 % 4)
        && ((r >> 0u32) & 0xF == r / 0x1 % 16)
        && ((r >> 4u32) & 0xF == r / 0x10 % 16)
        && ((r >> 12u32) & 0xF == r / 0x1000 % 16)
        && ((r >> 20u32) & 0xF == r / 0x0010_0000 % 16)
        && ((r >> 24u32) & 0xF == r / 0x0100_0000 % 16)
        && ((r >> 28u32) & 0xF == r / 0x1000_0000 % 16)
        && (r & 0xFFF == r % 4096)) by (bit_vector);
}

/// The values of the bits that registers are set up with.
pub proof fn bit_values()
    ensures
        (1u32 << 16) == 0x0001_0000,
        (1u32 << 17) == 0x0002_0000,
        (1u32 << 24) == 0x0100_0000,
        (1u32 << 25) == 0x0200_0000,
        ((1u32 << 0) | (1u32 << 2)) == 5,
        (3u32 << 20) == 0x0030_0000,
        (1u32 << 20) == 0x0010_0000,
        (1u32 << 9) == 0x0000_0200,
        (1u32 << 10) == 0x0000_0400,
        (3u32 << 8) == 0x0000_0300,
        (1u32 << 8) == 0x0000_0100,
        (1u32 << 4) == 0x10,
        (1u32 << 26) == 0x0400_0000,
        (1u32 << 0) == 1,
        (3u32 << 26) == 0x0C00_0000,
        (1u32 << 13) == 0x0000_2000,
        (1u32 << 29) == 0x2000_0000,
        (3u32 << 2) == 0xC,
        (7u32 << 12) == 0x0000_7000,
        (7u32 << 3) == 0x38,
        (1u32 << 30) == 0x4000_0000,
        (1u32 << 1) == 2,
        (1u32 << 2) == 4,
        (3u32 << 16) == 0x0003_0000,
        (3u32 << 12) == 0x0000_3000,
        (1 | (1u32 << 30)) == 0x4000_0001,
        ((0xFu32 << 4) | (0xFu32 << 12) | (0xFu32 << 20) | (0xFu32 << 24)) == 0x0FF0_F0F0,
        ((1u32 << 4) | (1u32 << 12) | (1u32 << 20) | (1u32 << 24)) == 0x0110_1010,
        ((3u32 << 18) | (3u32 << 22) | (3u32 << 26) | (3u32 << 28)) == 0x3CCC_0000,
        ((1u32 << 18) | (1u32 << 22) | (1u32 << 26) | (1u32 << 28)) == 0x1444_0000,
        ((1u32 << 25) | (1u32 << 27) | (1u32 << 29) | (1u32 << 30)) == 0x6A00_0000,
        (1u32 << 15) == 0x0000_8000,
        ((1u32 << 7) | (1u32 << 0)) == 0x81,
        ((1u32 << 0) | (1u32 << 4)) == 0x11,
        (3u32 << 28) == 0x3000_0000,
        (1u32 << 28) == 0x1000_0000,
        (1u32 << 14) == 0x0000_4000,
        (3u32 << 18) == 0x000C_0000,
        ((0xFu32 << 12) | (0xFu32 << 16)) == 0x000F_F000,
        ((10u32 << 12) | (10u32 << 16)) == 0x000A_A000,
        ((3u32 << 22) | (3u32 << 24)) == 0x03C0_0000,
        ((2u32 << 22) | (2u32 << 24)) == 0x0280_0000,
        (1u32 << 7) == 0x80,
        (1u32 << 31) == 0x8000_0000,
        (0xFu32 << 28) == 0xF000_0000,
        (3u32 << 30) == 0xC000_0000,
        (9u32 << 28) == 0x9000_0000,
        (2u32 << 30) == 0x8000_0000,
        ((6u32 << 12) | (1u32 << 11)) == 0x0000_6800,
        ((1u32 << 2) | (3u32 << 3) | (1u32 << 9) | (1u32 << 8)) == 0x0000_031C,
        (1u32 << 6) == 0x40,
        ((1u32 << 0) | (1u32 << 1)) == 3,
        (1u32 << 12) == 0x0000_1000,
        (0xFu32 << 20) == 0x00F0_0000,
        (5u32 << 20) == 0x0050_0000,
        (3u32 << 10) == 0x0000_0C00,
        (2u32 << 10) == 0x0000_0800,
        (5u32 << 28) == 0x5000_0000,
        (3u32 << 14) == 0x0000_C000,
        (2u32 << 14) == 0x0000_8000,
        ((0xFu32 << 20) | (0xFu32 << 28)) == 0xF0F0_0000,
        ((5u32 << 20) | (5u32 << 28)) == 0x5050_0000,
        ((3u32 << 10) | (3u32 << 14)) == 0x0000_CC00,
        ((2u32 << 10) | (2u32 << 14)) == 0x0000_8800,
        ((3u32 << 10) | (3u32 << 12) | (3u32 << 14)) == 0x0000_FC00,
        ((2u32 << 10) | (2u32 << 12) | (2u32 << 14)) == 0x0000_A800,
        ((0xFu32 << 20) | (0xFu32 << 24) | (0xFu32 << 28)) == 0xFFF0_0000,
        ((5u32 << 20) | (5u32 << 24) | (5u32 << 28)) == 0x5550_0000,
        ((1u32 << 2) | (1u32 << 3) | (1u32 << 6) | (1u32 << 8) | (1u32 << 9)) == 0x0000_034C,
        ((1u32 << 1) | (4u32 << 3) | (2u32 << 8) | (1u32 << 16)) == 0x0001_0222,
        ((1u32 << 0) | (2u32 << 8)) == 0x0000_0201,
        ((0u32 & !0u32) | (1u32 << 31)) == 0x8000_0000,
        PLL_CONFIG == 0x0440_3010,
{
    assert((1u32 << 16) == 0x0001_0000 && (1u32 << 17) == 0x0002_0000
        && (1u32 << 24) == 0x0100_0000 && (1u32 << 25) == 0x0200_0000
        && ((1u32 << 0) | (1u32 << 2)) == 5 && (3u32 << 20) == 0x0030_0000
        && (1u32 << 20) == 0x0010_0000 && (1u32 << 10) == 0x0000_0400
        && (1u32 << 9) == 0x0000_0200
        && (3u32 << 8) == 0x0000_0300 && (1u32 << 8) == 0x0000_0100 && (1u32 << 4) == 0x10
        && (1u32 << 26) == 0x0400_0000 && (1u32 << 0) == 1 && (3u32 << 26) == 0x0C00_0000
        && (1u32 << 13) == 0x0000_2000 && (1u32 << 29) == 0x2000_0000 && (3u32 << 2) == 0xC
        && (7u32 << 12) == 0x0000_7000 && (7u32 << 3) == 0x38 && (1u32 << 30) == 0x4000_0000
        && (1u32 << 1) == 2 && (1u32 << 2) == 4 && (3u32 << 16) == 0x0003_0000
        && (3u32 << 12) == 0x0000_3000 && (1 | (1u32 << 30)) == 0x4000_0001
        && ((0xFu32 << 4) | (0xFu32 << 12) | (0xFu32 << 20) | (0xFu32 << 24)) == 0x0FF0_F0F0
        && ((1u32 << 4) | (1u32 << 12) | (1u32 << 20) | (1u32 << 24)) == 0x0110_1010
        && ((3u32 << 18) | (3u32 << 22) | (3u32 << 26) | (3u32 << 28)) == 0x3CCC_0000
        && ((1u32 << 18) | (1u32 << 22) | (1u32 << 26) | (1u32 << 28)) == 0x1444_0000
        && ((1u32 << 25) | (1u32 << 27) | (1u32 << 29) | (1u32 << 30)) == 0x6A00_0000
        && (1u32 << 15) == 0x0000_8000 && ((1u32 << 7) | (1u32 << 0)) == 0x81
        && ((1u32 << 0) | (1u32 << 4)) == 0x11 && (3u32 << 28) == 0x3000_0000
        && (1u32 << 28) == 0x1000_0000 && (1u32 << 14) == 0x0000_4000
        && (3u32 << 18) == 0x000C_0000 && ((0xFu32 << 12) | (0xFu32 << 16)) == 0x000F_F000
        && ((10u32 << 12) | (10u32 << 16)) == 0x000A_A000
        && ((3u32 << 22) | (3u32 << 24)) == 0x03C0_0000
        && ((2u32 << 22) | (2u32 << 24)) == 0x0280_0000 && (1u32 << 7) == 0x80
        && (1u32 << 31) == 0x8000_0000 && (0xFu32 << 28) == 0xF000_0000
        && (3u32 << 30) == 0xC000_0000 && (9u32 << 28) == 0x9000_0000
        && (2u32 << 30) == 0x8000_0000 && ((6u32 << 12) | (1u32 << 11)) == 0x0000_6800
        && ((1u32 << 2) | (3u32 << 3) | (1u32 << 9) | (1u32 << 8)) == 0x0000_031C
        && (1u32 << 6) == 0x40 && ((1u32 << 0) | (1u32 << 1)) == 3 && (1u32 << 12) == 0x0000_1000
        && (0xFu32 << 20) == 0x00F0_0000 && (5u32 << 20) == 0x0050_0000
        && (3u32 << 10) == 0x0000_0C00 && (2u32 << 10) == 0x0000_0800
        && (5u32 << 28) == 0x5000_0000 && (3u32 << 14) == 0x0000_C000
        && (2u32 << 14) == 0x0000_8000 && ((0xFu32 << 20) | (0xFu32 << 28)) == 0xF0F0_0000
        && ((5u32 << 20) | (5u32 << 28)) == 0x5050_0000
        && ((3u32 << 10) | (3u32 << 14)) == 0x0000_CC00
        && ((2u32 << 10) | (2u32 << 14)) == 0x0000_8800
        && ((3u32 << 10) | (3u32 << 12) | (3u32 << 14)) == 0x0000_FC00
        && ((2u32 << 10) | (2u32 << 12) | (2u32 << 14)) == 0x0000_A800
        && ((0xFu32 << 20) | (0xFu32 << 24) | (0xFu32 << 28)) == 0xFFF0_0000
        && ((5u32 << 20) | (5u32 << 24) | (5u32 << 28)) == 0x5550_0000
        && ((1u32 << 2) | (1u32 << 3) | (1u32 << 6) | (1u32 << 8) | (1u32 << 9)) == 0x0000_034C
        && ((1u32 << 1) | (4u32 << 3) | (2u32 << 8) | (1u32 << 16)) == 0x0001_0222
        && ((1u32 << 0) | (2u32 << 8)) == 0x0000_0201
        && ((0u32 & !0u32) | (1u32 << 31)) == 0x8000_0000
        && PLL_CONFIG == 0x0440_3010) by (bit_vector);
}

/// The clocks: wait states, the crystal, the PLL, prescalers, and the switch to the PLL, each
/// waited for.
pub proof fn clocks_by_register()
    ensures
        init_clocks_acts() == seq![
            Act::Modify { addr: 0x4002_3C00, clear: 0xF, set: 3 },
            Act::Modify { addr: 0x4002_3800, clear: 0, set: 0x0001_0000 },
            Act::WaitSet { addr: 0x4002_3800, mask: 0x0002_0000 },
            Act::Write { addr: 0x4002_3804, val: 0x0440_3010 },
            Act::Modify { addr: 0x4002_3800, clear: 0, set: 0x0100_0000 },
            Act::WaitSet { addr: 0x4002_3800, mask: 0x0200_0000 },
            Act::Modify { addr: 0x4002_3808, clear: 0x0000_FCF0, set: 0x0000_1000 },
            Act::Modify { addr: 0x4002_3808, clear: 3, set: 2 },
            Act::WaitEq { addr: 0x4002_3808, mask: 0xC, val: 8 },
        ],
{
    bit_values();
}

/// The look at which clock drives the core.
pub proof fn clock_look_by_register()
    ensures
        load_clock_config_acts() == seq![
            Act::Load { addr: 0x4002_3808 },
        ],
{
    bit_values();
}

/// The tick: stopped, reloaded every 96000 cycles, started with its interrupt, and its handler
/// put where applications look for it.
pub proof fn tick_by_register(handler: u32)
    ensures
        arm_systick_acts(handler) == seq![
            Act::Write { addr: 0xE000_E010, val: 0 },
            Act::Write { addr: 0xE000_E014, val: 0x0001_76FF },
            Act::Write { addr: 0xE000_E018, val: 0 },
            Act::Write { addr: 0xE000_E010, val: 7 },
            Act::Write { addr: 0x2004_FFE4, val: handler },
        ],
{
    bit_values();
}

/// The speaker on: its amplifier at PC10 and its pin PA4.
pub proof fn speaker_on_by_register()
    ensures
        beep_start_acts() == seq![
            Act::Modify { addr: 0x4002_3830, clear: 0, set: 5 },
            Act::Read { addr: 0x4002_3830 },
            Act::Modify { addr: 0x4002_0800, clear: 0x0030_0000, set: 0x0010_0000 },
            Act::Write { addr: 0x4002_0818, val: 0x0000_0400 },
            Act::Modify { addr: 0x4002_0000, clear: 0x0000_0300, set: 0x0000_0100 },
        ],
{
    bit_values();
}

/// One period on the speaker: PA4 high for half of it, and low for the other half.
pub proof fn speaker_period_by_register(half: u32)
    ensures
        beep_period_acts(half) == seq![
            Act::Write { addr: 0x4002_0018, val: 0x10 },
            Act::Delay { cycles: half },
            Act::Write { addr: 0x4002_0018, val: 0x0010_0000 },
            Act::Delay { cycles: half },
        ],
{
    bit_values();
}

/// The speaker off again.
pub proof fn speaker_off_by_register()
    ensures
        beep_stop_acts() == seq![
            Act::Write { addr: 0x4002_0818, val: 0x0400_0000 },
            Act::Modify { addr: 0x4002_0000, clear: 0x0000_0300, set: 0x0000_0300 },
        ],
{
    bit_values();
}

/// The power held: PA13 an output, and high.
pub proof fn power_hold_by_register()
    ensures
        pre_init_acts() == seq![
            Act::Modify { addr: 0x4002_3830, clear: 0, set: 1 },
            Act::Read { addr: 0x4002_3830 },
            Act::Modify { addr: 0x4002_0000, clear: 0x0C00_0000, set: 0x0400_0000 },
            Act::Write { addr: 0x4002_0018, val: 0x0000_2000 },
        ],
{
    bit_values();
}

/// The power released: PA13 low.
pub proof fn power_off_by_register()
    ensures
        power_off_acts() == seq![
            Act::Write { addr: 0x4002_0018, val: 0x2000_0000 },
            Act::Sleep,
        ],
{
    bit_values();
}

/// A request for the ROM bootloader: its word in RAM, and a reset.
pub proof fn dfu_request_by_register()
    ensures
        request_dfu_acts() == seq![
            Act::Write { addr: 0x2004_FFF0, val: 0xDEAD_B007 },
            Act::Reset,
        ],
{
    bit_values();
}

/// The monitor's jump: no tick pending, the application's vector table, and the start with
/// interrupts on.
pub proof fn jump_by_register(sp: u32, pc: u32)
    ensures
        jump_to_app_acts(sp, pc) == seq![
            Act::Irq { on: false },
            Act::Write { addr: 0xE000_ED04, val: 0x0200_0000 },
            Act::Write { addr: 0xE000_ED08, val: 0x0801_0000 },
            Act::Launch { sp, pc, irqs: true },
        ],
{
    bit_values();
}

/// The bootloader's jump: the tick stopped, no tick pending, the application's vector table,
/// and the start with interrupts off.
pub proof fn boot_jump_by_register(sp: u32, pc: u32)
    ensures
        boot_app_acts(sp, pc) == seq![
            Act::Irq { on: false },
            Act::Write { addr: 0xE000_E010, val: 0 },
            Act::Write { addr: 0xE000_ED04, val: 0x0200_0000 },
            Act::Write { addr: 0xE000_ED08, val: 0x0801_0000 },
            Act::Launch { sp, pc, irqs: false },
        ],
{
    bit_values();
}

/// The look at the application's first two words.
pub proof fn vector_by_address()
    ensures
        load_vector_acts() == seq![
            Act::Load { addr: 0x0801_0000 },
            Act::Load { addr: 0x0801_0004 },
        ],
{
    bit_values();
}

/// The converter for all buttons: PC4 and PA1 analog, long samples of channels 14 and 1.
pub proof fn button_converter_by_register()
    ensures
        button_adc_acts() == seq![
            Act::Modify { addr: 0x4002_3830, clear: 0, set: 5 },
            Act::Modify { addr: 0x4002_3844, clear: 0, set: 0x0000_0100 },
            Act::Read { addr: 0x4002_3844 },
            Act::Modify { addr: 0x4002_0800, clear: 0x0000_0300, set: 0x0000_0300 },
            Act::Modify { addr: 0x4002_0000, clear: 0xC, set: 0xC },
            Act::Write { addr: 0x4001_202C, val: 0 },
            Act::Modify { addr: 0x4001_200C, clear: 0x0000_7000, set: 0x0000_7000 },
            Act::Modify { addr: 0x4001_2010, clear: 0x38, set: 0x38 },
            Act::Modify { addr: 0x4001_2008, clear: 0, set: 1 },
        ],
{
    bit_values();
}

/// The converter for the center button alone.
pub proof fn center_converter_by_register()
    ensures
        center_adc_acts() == seq![
            Act::Modify { addr: 0x4002_3830, clear: 0, set: 5 },
            Act::Modify { addr: 0x4002_3844, clear: 0, set: 0x0000_0100 },
            Act::Read { addr: 0x4002_3844 },
            Act::Modify { addr: 0x4002_0800, clear: 0x0000_0300, set: 0x0000_0300 },
            Act::Write { addr: 0x4001_202C, val: 0 },
            Act::Modify { addr: 0x4001_200C, clear: 0x0000_7000, set: 0x0000_7000 },
            Act::Modify { addr: 0x4001_2008, clear: 0, set: 1 },
        ],
{
    bit_values();
}

/// A conversion: the channel, the start, the wait for its end, and the value.
pub proof fn conversion_by_register(channel: u32)
    ensures
        read_adc_acts(channel) == seq![
            Act::Write { addr: 0x4001_2034, val: channel },
            Act::Modify { addr: 0x4001_2008, clear: 0, set: 0x4000_0000 },
            Act::WaitSet { addr: 0x4001_2000, mask: 2 },
            Act::Load { addr: 0x4001_204C },
        ],
{
    bit_values();
}

/// A conversion started with interrupts off, and looked at a bounded number of times.
pub proof fn guarded_conversion_by_register(channel: u32)
    ensures
        start_adc_acts(channel) == seq![
            Act::Irq { on: false },
            Act::Write { addr: 0x4001_2034, val: channel },
            Act::Modify { addr: 0x4001_2008, clear: 0, set: 1 },
            Act::Write { addr: 0x4001_2000, val: 0 },
            Act::Modify { addr: 0x4001_2008, clear: 0, set: 0x4000_0000 },
            Act::Poll { addr: 0x4001_2000, mask: 2, tries: 0x0001_86A0 },
        ],
{
    bit_values();
}

/// The converter switched on at boot for channel 14.
pub proof fn boot_sample_by_register()
    ensures
        center_sample_start_acts() == seq![
            Act::Modify { addr: 0x4002_3830, clear: 0, set: 4 },
            Act::Modify { addr: 0x4002_3844, clear: 0, set: 0x0000_0100 },
            Act::Read { addr: 0x4002_3844 },
            Act::Write { addr: 0x4001_202C, val: 0 },
            Act::Write { addr: 0x4001_2034, val: 0xE },
            Act::Write { addr: 0x4001_200C, val: 0x0000_7000 },
            Act::Write { addr: 0x4001_2008, val: 1 },
        ],
{
    bit_values();
}

/// The conversion at boot, and the converter off again.
pub proof fn boot_value_by_register()
    ensures
        center_sample_end_acts() == seq![
            Act::Modify { addr: 0x4001_2008, clear: 0, set: 0x4000_0000 },
            Act::WaitSet { addr: 0x4001_2000, mask: 2 },
            Act::Load { addr: 0x4001_204C },
            Act::Write { addr: 0x4001_2008, val: 0 },
        ],
{
    bit_values();
}

/// The tick's sample, up to the start of its conversion.
pub proof fn tick_sample_by_register()
    ensures
        tick_setup_acts() == seq![
            Act::Modify { addr: 0x4002_3830, clear: 0, set: 4 },
            Act::Modify { addr: 0x4002_3844, clear: 0, set: 0x0000_0100 },
            Act::Modify { addr: 0x4002_0800, clear: 0x0000_0300, set: 0x0000_0300 },
            Act::Modify { addr: 0x4001_2304, clear: 0x0003_0000, set: 0x0001_0000 },
            Act::Write { addr: 0x4001_2008, val: 0 },
            Act::Write { addr: 0x4001_2004, val: 0 },
            Act::Modify { addr: 0x4001_200C, clear: 0x0000_7000, set: 0x0000_3000 },
            Act::Write { addr: 0x4001_202C, val: 0 },
            Act::Write { addr: 0x4001_2034, val: 0xE },
            Act::Write { addr: 0x4001_2008, val: 1 },
            Act::Nops { count: 0x0000_012C },
        ],
{
    bit_values();
}

/// The tick's conversion, its value, and the converter off again.
pub proof fn tick_value_by_register()
    ensures
        tick_convert_acts() == seq![
            Act::Write { addr: 0x4001_2000, val: 0 },
            Act::Write { addr: 0x4001_2008, val: 0x4000_0001 },
            Act::Poll { addr: 0x4001_2000, mask: 2, tries: 0x0000_03E8 },
            Act::Load { addr: 0x4001_204C },
            Act::Write { addr: 0x4001_2008, val: 0 },
        ],
{
    bit_values();
}

/// The motor pins PE9, PE11, PE13 and PE14: timer function, fast, outputs, low.
pub proof fn motor_pins_by_register()
    ensures
        motor_pins_acts() == seq![
            Act::Modify { addr: 0x4002_1024, clear: 0x0FF0_F0F0, set: 0x0110_1010 },
            Act::Modify { addr: 0x4002_1008, clear: 0x3CCC_0000, set: 0x3CCC_0000 },
            Act::Modify { addr: 0x4002_1000, clear: 0x3CCC_0000, set: 0x1444_0000 },
            Act::Write { addr: 0x4002_1018, val: 0x6A00_0000 },
        ],
{
    bit_values();
}

/// Timer 1: a period of 1000 counts of 8 cycles, four inverted PWM channels at zero, running.
pub proof fn motor_timer_by_register()
    ensures
        timer_setup_acts() == seq![
            Act::Write { addr: 0x4001_0028, val: 7 },
            Act::Write { addr: 0x4001_002C, val: 0x0000_03E7 },
            Act::Write { addr: 0x4001_0018, val: 0x0000_6868 },
            Act::Write { addr: 0x4001_001C, val: 0x0000_6868 },
            Act::Write { addr: 0x4001_0020, val: 0x0000_3333 },
            Act::Write { addr: 0x4001_0034, val: 0 },
            Act::Write { addr: 0x4001_0038, val: 0 },
            Act::Write { addr: 0x4001_003C, val: 0 },
            Act::Write { addr: 0x4001_0040, val: 0 },
            Act::Write { addr: 0x4001_0044, val: 0x0000_8000 },
            Act::Write { addr: 0x4001_0000, val: 0x81 },
            Act::Write { addr: 0x4001_0014, val: 1 },
        ],
{
    bit_values();
}

/// Port power: PA14 an output, and high.
pub proof fn port_power_by_register()
    ensures
        port_power_acts() == seq![
            Act::Modify { addr: 0x4002_3830, clear: 0, set: 0x11 },
            Act::Modify { addr: 0x4002_3844, clear: 0, set: 1 },
            Act::Read { addr: 0x4002_3844 },
            Act::Modify { addr: 0x4002_0000, clear: 0x3000_0000, set: 0x1000_0000 },
            Act::Write { addr: 0x4002_0018, val: 0x0000_4000 },
        ],
{
    bit_values();
}

/// The power held at PA13, and port power at PA14.
pub proof fn hub_power_by_register()
    ensures
        hub_power_acts() == seq![
            Act::Modify { addr: 0x4002_3830, clear: 0, set: 0x11 },
            Act::Read { addr: 0x4002_3830 },
            Act::Read { addr: 0x4002_3830 },
            Act::Modify { addr: 0x4002_0000, clear: 0x0C00_0000, set: 0x0400_0000 },
            Act::Write { addr: 0x4002_0018, val: 0x0000_2000 },
            Act::Modify { addr: 0x4002_0000, clear: 0x3000_0000, set: 0x1000_0000 },
            Act::Write { addr: 0x4002_0018, val: 0x0000_4000 },
        ],
{
    bit_values();
}

/// The look at the USB supply: PA9 an input.
pub proof fn supply_look_by_register()
    ensures
        load_vbus_acts() == seq![
            Act::Modify { addr: 0x4002_0000, clear: 0x000C_0000, set: 0 },
            Act::Load { addr: 0x4002_0010 },
        ],
{
    bit_values();
}

/// The USB pins: PA11 and PA12 for the controller, PA9 an input.
pub proof fn usb_pins_by_register()
    ensures
        usb_pins_acts() == seq![
            Act::Modify { addr: 0x4002_3830, clear: 0, set: 1 },
            Act::Read { addr: 0x4002_3830 },
            Act::Modify { addr: 0x4002_0024, clear: 0x000F_F000, set: 0x000A_A000 },
            Act::Modify { addr: 0x4002_0000, clear: 0x03C0_0000, set: 0x0280_0000 },
            Act::Modify { addr: 0x4002_0008, clear: 0x03C0_0000, set: 0x03C0_0000 },
            Act::Modify { addr: 0x4002_0000, clear: 0x000C_0000, set: 0 },
        ],
{
    bit_values();
}

/// The USB controller: clocked, and reset.
pub proof fn usb_reset_by_register()
    ensures
        usb_enable_acts() == seq![
            Act::Modify { addr: 0x4002_3834, clear: 0, set: 0x80 },
            Act::Modify { addr: 0x4002_3814, clear: 0, set: 0x80 },
            Act::Modify { addr: 0x4002_3814, clear: 0x80, set: 0 },
        ],
{
    bit_values();
}

/// The protection unit: off, the monitor's flash and RAM as regions 0 and 1, and on.
pub proof fn protection_unit_by_register()
    ensures
        mpu_acts() == seq![
            Act::Write { addr: 0xE000_ED94, val: 0 },
            Act::Write { addr: 0xE000_ED98, val: 0 },
            Act::Write { addr: 0xE000_ED9C, val: 0x0800_8000 },
            Act::Write { addr: 0xE000_EDA0, val: 0x0602_001D },
            Act::Write { addr: 0xE000_ED98, val: 1 },
            Act::Write { addr: 0xE000_ED9C, val: 0x2004_E000 },
            Act::Write { addr: 0xE000_EDA0, val: 0x1106_0019 },
            Act::Write { addr: 0xE000_ED94, val: 5 },
        ],
{
    bit_values();
}

/// The latch PA15: high for 100 cycles, and low.
pub proof fn slow_latch_by_register()
    ensures
        tlc5955_latch_acts() == seq![
            Act::Write { addr: 0x4002_0018, val: 0x0000_8000 },
            Act::Delay { cycles: 0x64 },
            Act::Write { addr: 0x4002_0018, val: 0x8000_0000 },
        ],
{
    bit_values();
}

/// The latch PA15: high, and low.
pub proof fn latch_by_register()
    ensures
        led_latch_acts() == seq![
            Act::Write { addr: 0x4002_0018, val: 0x0000_8000 },
            Act::Write { addr: 0x4002_0018, val: 0x8000_0000 },
        ],
{
    bit_values();
}

/// The latch PA15 an output, and PB15 the greyscale clock.
pub proof fn light_pins_by_register()
    ensures
        latch_and_clock_pins_acts() == seq![
            Act::Modify { addr: 0x4002_0024, clear: 0xF000_0000, set: 0 },
            Act::Modify { addr: 0x4002_0000, clear: 0xC000_0000, set: 0x4000_0000 },
            Act::Write { addr: 0x4002_0018, val: 0x8000_0000 },
            Act::Modify { addr: 0x4002_0424, clear: 0xF000_0000, set: 0x9000_0000 },
            Act::Modify { addr: 0x4002_0400, clear: 0xC000_0000, set: 0x8000_0000 },
            Act::Modify { addr: 0x4002_0408, clear: 0xC000_0000, set: 0xC000_0000 },
        ],
{
    bit_values();
}

/// Timer 12: a period of five counts, and its second channel on.
pub proof fn grey_clock_by_register()
    ensures
        grey_clock_acts() == seq![
            Act::Write { addr: 0x4000_1828, val: 0 },
            Act::Write { addr: 0x4000_182C, val: 4 },
            Act::Write { addr: 0x4000_1818, val: 0x0000_6800 },
            Act::Write { addr: 0x4000_1838, val: 2 },
            Act::Write { addr: 0x4000_1820, val: 0x10 },
            Act::Write { addr: 0x4000_1800, val: 1 },
        ],
{
    bit_values();
}

/// The SPI line: a master, then enabled.
pub proof fn light_line_by_register()
    ensures
        spi_on_acts() == seq![
            Act::Write { addr: 0x4001_3000, val: 0x0000_031C },
            Act::Modify { addr: 0x4001_3000, clear: 0, set: 0x40 },
        ],
{
    bit_values();
}

/// The LED application's clocks and data pins PA5 and PA7.
pub proof fn light_application_by_register()
    ensures
        led_app_pins_acts() == seq![
            Act::Modify { addr: 0x4002_3830, clear: 0, set: 3 },
            Act::Modify { addr: 0x4002_3844, clear: 0, set: 0x0000_1000 },
            Act::Modify { addr: 0x4002_3840, clear: 0, set: 0x40 },
            Act::Read { addr: 0x4002_3830 },
            Act::Write { addr: 0x4001_3000, val: 0 },
            Act::Modify { addr: 0x4002_0020, clear: 0x00F0_0000, set: 0x0050_0000 },
            Act::Modify { addr: 0x4002_0000, clear: 0x0000_0C00, set: 0x0000_0800 },
            Act::Modify { addr: 0x4002_0008, clear: 0x0000_0C00, set: 0x0000_0C00 },
            Act::Modify { addr: 0x4002_0020, clear: 0xF000_0000, set: 0x5000_0000 },
            Act::Modify { addr: 0x4002_0000, clear: 0x0000_C000, set: 0x0000_8000 },
            Act::Modify { addr: 0x4002_0008, clear: 0x0000_C000, set: 0x0000_C000 },
        ],
{
    bit_values();
}

/// The monitor's clocks and data pins PA5 and PA7.
pub proof fn status_light_by_register()
    ensures
        status_pins_acts() == seq![
            Act::Modify { addr: 0x4002_3830, clear: 0, set: 3 },
            Act::Modify { addr: 0x4002_3844, clear: 0, set: 0x0000_1000 },
            Act::Modify { addr: 0x4002_3840, clear: 0, set: 0x40 },
            Act::Read { addr: 0x4002_3830 },
            Act::Modify { addr: 0x4002_0020, clear: 0xF0F0_0000, set: 0x5050_0000 },
            Act::Modify { addr: 0x4002_0000, clear: 0x0000_CC00, set: 0x0000_8800 },
            Act::Modify { addr: 0x4002_0008, clear: 0x0000_CC00, set: 0x0000_CC00 },
        ],
{
    bit_values();
}

/// The motor application's clocks and light pins.
pub proof fn matrix_pins_by_register()
    ensures
        matrix_pins_acts() == seq![
            Act::Modify { addr: 0x4002_3830, clear: 0, set: 2 },
            Act::Modify { addr: 0x4002_3844, clear: 0, set: 0x0000_1000 },
            Act::Modify { addr: 0x4002_3840, clear: 0, set: 0x40 },
            Act::Read { addr: 0x4002_3840 },
            Act::Modify { addr: 0x4002_0000, clear: 0x0000_FC00, set: 0x0000_A800 },
            Act::Modify { addr: 0x4002_0008, clear: 0x0000_FC00, set: 0x0000_FC00 },
            Act::Modify { addr: 0x4002_0020, clear: 0xFFF0_0000, set: 0x5550_0000 },
            Act::Modify { addr: 0x4002_0000, clear: 0xC000_0000, set: 0x4000_0000 },
            Act::Write { addr: 0x4002_0018, val: 0x8000_0000 },
            Act::Modify { addr: 0x4002_0400, clear: 0xC000_0000, set: 0x8000_0000 },
            Act::Modify { addr: 0x4002_0424, clear: 0xF000_0000, set: 0x9000_0000 },
        ],
{
    bit_values();
}

/// The motor application's SPI line and greyscale clock.
pub proof fn matrix_clocks_by_register()
    ensures
        matrix_clocks_acts() == seq![
            Act::Write { addr: 0x4001_3000, val: 0x0000_034C },
            Act::Write { addr: 0x4000_1828, val: 0 },
            Act::Write { addr: 0x4000_182C, val: 9 },
            Act::Write { addr: 0x4000_1838, val: 4 },
            Act::Write { addr: 0x4000_1818, val: 0x0000_6800 },
            Act::Write { addr: 0x4000_1820, val: 0x10 },
            Act::Write { addr: 0x4000_1814, val: 1 },
            Act::Write { addr: 0x4000_1800, val: 1 },
        ],
{
    bit_values();
}

/// The channels of the motor timers put in a mode: timers 1, 4 and 3, both registers of each.
pub proof fn channels_by_register(mode: u32)
    ensures
        channels_acts(mode) == seq![
            Act::Modify { addr: 0x4001_0018, clear: 0x7070, set: mode },
            Act::Modify { addr: 0x4001_001C, clear: 0x7070, set: mode },
            Act::Modify { addr: 0x4000_0818, clear: 0x7070, set: mode },
            Act::Modify { addr: 0x4000_081C, clear: 0x7070, set: mode },
            Act::Modify { addr: 0x4000_0418, clear: 0x7070, set: mode },
            Act::Modify { addr: 0x4000_041C, clear: 0x7070, set: mode },
        ],
{
    bit_values();
}

/// The heading of the report on the motors names pins and channels of all six ports.
pub proof fn report_names_pins()
    ensures
        motors_heading_acts() == seq![
            say("=== Motor Diagnostics ===\r\n"),
            say("A: PE9/PE11 (TIM1 CH1/CH2)\r\n"),
            say("B: PE13/PE14 (TIM1 CH3/CH4)\r\n"),
            say("C: PB6/PB7 (TIM4 CH1/CH2)\r\n"),
            say("D: PB8/PB9 (TIM4 CH3/CH4)\r\n"),
            say("E: PC6/PC7 (TIM3 CH1/CH2)\r\n"),
            say("F: PC8/PB1 (TIM3 CH3/CH4)\r\n\r\n"),
            Act::Load { addr: 0x4002_1000 },
        ],
{
    bit_values();
}

/// The report shows the four compare registers of timer 1, and looks at its control registers.
pub proof fn report_shows_duties()
    ensures
        duty_acts() == seq![
            say("  CCR1="),
            Act::Show { addr: 0x4001_0034, form: Form::Word },
            say(" CCR2="),
            Act::Show { addr: 0x4001_0038, form: Form::Word },
            say("  (Port A)\r\n"),
            say("  CCR3="),
            Act::Show { addr: 0x4001_003C, form: Form::Word },
            say(" CCR4="),
            Act::Show { addr: 0x4001_0040, form: Form::Word },
            say("  (Port B)\r\n"),
            Act::Load { addr: 0x4001_0000 },
            Act::Load { addr: 0x4001_0044 },
            Act::Load { addr: 0x4001_0020 },
        ],
{
    bit_values();
}

// ---------------------------------------------------------------------------
// Plans made of plans
// ---------------------------------------------------------------------------

/// A guarded conversion ends with its value, or with the converter switched off and on
/// again; either way interrupts are on.
pub proof fn guarded_end_by_register(ended: bool)
    ensures
        finish_adc_acts(ended) == if ended {
            seq![Act::Load { addr: 0x4001_204C }, Act::Irq { on: true }]
        } else {
            seq![
                Act::Modify { addr: 0x4001_2008, clear: 1, set: 0 },
                Act::Delay { cycles: 100 },
                Act::Modify { addr: 0x4001_2008, clear: 0, set: 1 },
                Act::Irq { on: true },
            ]
        },
{
    bit_values();
}

/// The option bytes: unlocked by their two keys, the bits of sectors 0 to 3 cleared to protect
/// them and set to free them, programmed, and locked.
pub proof fn option_bytes_by_register(protect: bool)
    ensures
        option_acts(protect) == seq![
            Act::Write { addr: 0x4002_3C08, val: 0x0819_2A3B },
            Act::Write { addr: 0x4002_3C08, val: 0x4C5D_6E7F },
            Act::WaitClear { addr: 0x4002_3C0C, mask: 0x0001_0000 },
            if protect {
                Act::Modify { addr: 0x4002_3C14, clear: 0x000F_0000, set: 0 }
            } else {
                Act::Modify { addr: 0x4002_3C14, clear: 0, set: 0x000F_0000 }
            },
            Act::Modify { addr: 0x4002_3C14, clear: 0, set: 2 },
            Act::WaitClear { addr: 0x4002_3C0C, mask: 0x0001_0000 },
            Act::Modify { addr: 0x4002_3C14, clear: 0, set: 1 },
        ],
        protect_acts() == option_acts(true).push(say("Sectors 0-3 write-protected\r\n")),
        unprotect_acts() == option_acts(false).push(say("Sectors 0-3 writable\r\n")),
{
    bit_values();
}

/// The motors frozen: all channels forced inactive. Let go: all in PWM mode. A press freezes
/// motors that are not frozen, which the mode register of timer 1 tells.
pub proof fn freezing_by_mode(ccmr: u32)
    ensures
        freeze_acts() == channels_acts(0x4040),
        unfreeze_acts() == channels_acts(0x6060),
        toggle_freeze_acts(ccmr) == channels_acts(
            if ccmr & 0x7070 == 0x4040 {
                0x6060
            } else {
                0x4040
            },
        ),
        pause_acts() == channels_acts(0x4040).push(say("Motors frozen\r\n")),
        go_on_acts() == channels_acts(0x6060).push(say("Motors running\r\n")),
{
}

/// The way into the ROM bootloader: interrupts off, the tick stopped, all eight banks of
/// interrupts disabled and none pending, system memory mapped at zero, and the jump through
/// its table.
pub proof fn rom_bootloader_by_register(i: int)
    requires
        0 <= i < 8,
    ensures
        ({
            let acts = enter_system_dfu_acts();
            &&& acts.len() == 22
            &&& acts[0] == (Act::Irq { on: false })
            &&& acts[1] == (Act::Write { addr: 0xE000_E010, val: 0 })
            &&& acts[2 + 2 * i] == (Act::Write {
                addr: (0xE000_E180 + 4 * i) as u32,
                val: 0xFFFF_FFFF,
            })
            &&& acts[3 + 2 * i] == (Act::Write {
                addr: (0xE000_E280 + 4 * i) as u32,
                val: 0xFFFF_FFFF,
            })
            &&& acts[18] == (Act::Modify { addr: 0x4002_3844, clear: 0, set: 0x0000_4000 })
            &&& acts[19] == (Act::Read { addr: 0x4002_3844 })
            &&& acts[20] == (Act::Write { addr: 0x4001_3800, val: 1 })
            &&& acts[21] == (Act::LaunchTable { table: 0x1FFF_0000 })
        }),
{
    bit_values();
    reveal_with_fuel(mask_interrupts_acts, 9);
    assert(mask_interrupts_acts(8).len() == 16);
}

/// A boot answers the word 0xDEADB007 in RAM at 0x2004FFF0: it clears it and enters the ROM
/// bootloader. Any other word is left alone.
pub proof fn magic_word_by_address(magic: u32)
    ensures
        magic == 0xDEAD_B007 ==> check_dfu_acts(magic) == seq![
            Act::Write { addr: 0x2004_FFF0, val: 0 },
        ] + enter_system_dfu_acts(),
        magic != 0xDEAD_B007 ==> check_dfu_acts(magic).len() == 0,
{
}

/// A sample at boot: the converter on, a while to settle, and the conversion.
pub proof fn boot_sample_settles(settle: Act)
    ensures
        center_sample_acts(settle) == center_sample_start_acts() + seq![settle]
            + center_sample_end_acts(),
        ADC_SETTLE == 160_000,
        monitor_sample_acts() == center_sample_acts(Act::Delay { cycles: 160_000 }) + seq![
            Act::Load { addr: 0x4002_3C14 },
        ],
{
    assert(center_sample_acts(settle) =~= center_sample_start_acts() + seq![settle]
        + center_sample_end_acts());
    assert(monitor_sample_acts() =~= center_sample_acts(Act::Delay { cycles: 160_000 }) + seq![
        Act::Load { addr: 0x4002_3C14 },
    ]);
}

/// A tick serves the serial line once unless a console does, samples the button, and looks at
/// the mode of timer 1.
pub proof fn tick_sample_in_order(open: bool)
    ensures
        tick_sample_acts(open) == (if open {
            Seq::empty()
        } else {
            seq![Act::Flush { polls: 1 }]
        }) + tick_setup_acts() + tick_convert_acts() + seq![Act::Load { addr: 0x4001_0018 }],
{
}

/// The stages of the bootloader: the magic word first, then the button, twice with a pause of
/// 800000 no-operations where the first look told of a press, then the application.
pub proof fn bootloader_in_order(loaded: Seq<u32>)
    requires
        loaded.len() == 2,
    ensures
        ({
            let sample = center_sample_acts(Act::Nops { count: 160_000 });
            let down = loaded[0] <= 2879;
            let valid = 0x2000_0000 <= loaded[0] && loaded[0] <= 0x2005_0000 && 0x0801_0000
                <= loaded[1] && loaded[1] <= 0x0810_0000;
            &&& loaded[0] == 0xDEAD_B007 ==> boot_acts(BootStage::Magic, loaded) == check_dfu_acts(
                0xDEAD_B007,
            ) && boot_next(BootStage::Magic, loaded) == BootStage::Gone
            &&& loaded[0] != 0xDEAD_B007 ==> boot_acts(BootStage::Magic, loaded) == sample
                && boot_next(BootStage::Magic, loaded) == BootStage::FirstPress
            &&& down ==> boot_acts(BootStage::FirstPress, loaded) == seq![
                Act::Nops { count: 800_000 },
            ] + sample && boot_next(BootStage::FirstPress, loaded) == BootStage::SecondPress
            &&& !down ==> boot_acts(BootStage::FirstPress, loaded) == load_vector_acts()
                && boot_next(BootStage::FirstPress, loaded) == BootStage::Vector
            &&& down ==> boot_acts(BootStage::SecondPress, loaded) == enter_system_dfu_acts()
                && boot_next(BootStage::SecondPress, loaded) == BootStage::Gone
            &&& !down ==> boot_acts(BootStage::SecondPress, loaded) == load_vector_acts()
                && boot_next(BootStage::SecondPress, loaded) == BootStage::Vector
            &&& boot_acts(BootStage::Vector, loaded) == if valid {
                boot_app_acts(loaded[0], loaded[1])
            } else {
                enter_system_dfu_acts()
            }
            &&& boot_next(BootStage::Vector, loaded) == BootStage::Gone
        }),
{
}

/// The stages of the monitor: the magic word, the button and the option bytes, the setup, up to
/// 3000 looks for a host a millisecond apart, and then the shell or the application.
pub proof fn monitor_in_order(loaded: Seq<u32>, waited: u32, setup: MonitorSetup)
    requires
        loaded.len() == 2,
    ensures
        ({
            let down = loaded[0] <= 2879;
            let open = loaded[1] & 0x000F_0000 != 0;
            let valid = 0x2000_0000 <= loaded[0] && loaded[0] <= 0x2005_0000 && 0x0801_0000
                <= loaded[1] && loaded[1] <= 0x0810_0000;
            let host = MonitorStage::Host { waited };
            &&& loaded[0] == 0xDEAD_B007 ==> monitor_acts(MonitorStage::Magic, loaded, setup)
                == check_dfu_acts(0xDEAD_B007) && monitor_next(MonitorStage::Magic, loaded)
                == MonitorStage::Gone
            &&& loaded[0] != 0xDEAD_B007 ==> monitor_acts(MonitorStage::Magic, loaded, setup)
                == monitor_sample_acts() && monitor_next(MonitorStage::Magic, loaded)
                == MonitorStage::Press
            &&& down ==> monitor_acts(MonitorStage::Press, loaded, setup)
                == enter_system_dfu_acts() && monitor_next(MonitorStage::Press, loaded)
                == MonitorStage::Gone
            &&& !down ==> monitor_acts(MonitorStage::Press, loaded, setup) == monitor_init_acts(
                setup.protect && open,
            ) && monitor_next(MonitorStage::Press, loaded) == (MonitorStage::Host { waited: 0 })
            &&& loaded[0] != 0 ==> monitor_acts(host, loaded, setup) == banner_acts()
                && monitor_next(host, loaded) == MonitorStage::Shell
            &&& loaded[0] == 0 && waited < 3000 ==> monitor_acts(host, loaded, setup) == seq![
                Act::DelayMs { ms: 1 },
            ] && monitor_next(host, loaded) == (MonitorStage::Host { waited: (waited + 1) as u32 })
            &&& loaded[0] == 0 && waited >= 3000 ==> monitor_acts(host, loaded, setup)
                == load_vector_acts() && monitor_next(host, loaded) == MonitorStage::Vector
            &&& monitor_acts(MonitorStage::Vector, loaded, setup) == if valid {
                seq![Act::Write { addr: 0x2004_FFE0, val: setup.handlers.debug }]
                    + arm_systick_acts(setup.handlers.tick) + jump_to_app_acts(
                    loaded[0],
                    loaded[1],
                )
            } else {
                seq![Act::Write { addr: 0xE000_ED94, val: 0 }] + enter_system_dfu_acts()
            }
            &&& monitor_next(MonitorStage::Vector, loaded) == MonitorStage::Gone
        }),
{
}

/// Where a boot ends, by what it finds.
pub proof fn boots_end_by_what_they_find(f: Found, m: MonitorFound)
    ensures
        boot_outcome(f) == if f.magic != 0xDEAD_B007 && (f.first > 2879 || f.second > 2879)
            && 0x2000_0000 <= f.sp && f.sp <= 0x2005_0000 && 0x0801_0000 <= f.pc && f.pc
            <= 0x0810_0000 {
            Outcome::App { sp: f.sp, pc: f.pc }
        } else {
            Outcome::Dfu
        },
        monitor_outcome(m) == if m.magic == 0xDEAD_B007 || m.press <= 2879 {
            Outcome::Dfu
        } else if m.host is Some && m.host->0 <= 3000 {
            Outcome::Shell
        } else if 0x2000_0000 <= m.sp && m.sp <= 0x2005_0000 && 0x0801_0000 <= m.pc && m.pc
            <= 0x0810_0000 {
            Outcome::App { sp: m.sp, pc: m.pc }
        } else {
            Outcome::Dfu
        },
{
}

/// What the programs set up, in this order.
pub proof fn programs_start_in_order(protect: bool, frame: Seq<u8>, cfgr: u32)
    ensures
        monitor_init_acts(protect) == init_clocks_acts() + mpu_acts() + (if protect {
            option_acts(true)
        } else {
            Seq::empty()
        }) + beep_acts(150, 1000) + status_led_acts() + usb_pins_acts(),
        motor_hw_acts() == port_power_acts() + motor_pins_acts() + timer_setup_acts(),
        power_and_gpio_acts() == hub_power_acts() + motor_pins_acts(),
        init_timer_acts() == seq![
            Act::Modify { addr: 0x4002_3844, clear: 0, set: 1 },
            Act::Read { addr: 0x4002_3844 },
        ] + timer_setup_acts(),
        hub_init_acts(frame) == pre_init_acts() + init_clocks_acts() + power_and_gpio_acts()
            + init_timer_acts() + led_matrix_acts() + button_adc_acts() + matrix_frame_acts(
            painted(frame, pattern_brightness(HEART@, 50), 25),
        ),
        bare_init_acts(frame) == pre_init_acts() + init_clocks_acts() + power_and_gpio_acts()
            + init_timer_acts() + led_matrix_acts() + matrix_frame_acts(
            painted(frame, pattern_brightness(HEART@, 50), 25),
        ) + kick_acts() + load_vbus_acts(),
        led_start_acts(cfgr) == clocks_acts(cfgr) + beep_acts(80, 1500).push(
            Act::DelayMs { ms: 80 },
        ) + beep_acts(80, 2000) + tlc5955_init_hw_acts() + frame_acts(control_bytes())
            + frame_acts(control_bytes()) + button_adc_acts() + motor_hw_acts() + frame_acts(
            grey_bytes(idle_levels()),
        ),
        motor_test_start_acts(cfgr) == clocks_acts(cfgr) + beep_acts(100, 1200)
            + center_adc_acts() + motor_hw_acts(),
        clocks_acts(cfgr) == if cfgr & 0xC == 0x8 {
            Seq::empty()
        } else {
            init_clocks_acts()
        },
{
    bit_values();
}

/// The lights are set up by their pins, their clock and their line.
pub proof fn lights_start_in_order()
    ensures
        tlc5955_init_hw_acts() == led_app_pins_acts() + latch_and_clock_pins_acts() + seq![
            Act::Write { addr: 0x4000_1800, val: 0 },
        ] + grey_clock_acts() + spi_on_acts(),
        status_led_acts() == status_pins_acts() + latch_and_clock_pins_acts() + grey_clock_acts()
            + spi_on_acts() + frame_acts(control_bytes()) + frame_acts(control_bytes())
            + frame_acts(grey_bytes(status_levels())),
        led_matrix_acts() == matrix_pins_acts() + matrix_clocks_acts() + matrix_frame_acts(
            control_bytes(),
        ) + matrix_frame_acts(control_bytes()),
{
}

/// Every byte of a frame is written to the SPI line once it has room, and the latch comes when
/// the line is not busy any more.
pub proof fn frames_by_register(data: Seq<u8>, i: int)
    requires
        0 <= i < data.len(),
    ensures
        ({
            let n = data.len();
            let a = frame_acts(data);
            let b = matrix_frame_acts(data);
            let room = Act::WaitSet { addr: 0x4001_3008, mask: 2 };
            let idle = Act::WaitClear { addr: 0x4001_3008, mask: 0x80 };
            &&& a[2 * i] == room && a[2 * i + 1] == (Act::Write {
                addr: 0x4001_300C,
                val: data[i] as u32,
            })
            &&& b[2 * i] == room && b[2 * i + 1] == a[2 * i + 1]
            &&& a == a.take(2 * n as int) + seq![idle] + tlc5955_latch_acts()
            &&& b == b.take(2 * n as int) + seq![
                room,
                idle,
                Act::Read { addr: 0x4001_300C },
                Act::Read { addr: 0x4001_3008 },
            ] + led_latch_acts()
        }),
{
    bit_values();
    let n = data.len();
    bytes_in_place(data, n, i);
    let s = spi_bytes_acts(data, n);
    assert(frame_acts(data).take(2 * n as int) =~= s);
    assert(matrix_frame_acts(data).take(2 * n as int) =~= s);
    assert(frame_acts(data)[2 * i] == s[2 * i] && frame_acts(data)[2 * i + 1] == s[2 * i + 1]);
    assert(matrix_frame_acts(data)[2 * i] == s[2 * i] && matrix_frame_acts(data)[2 * i + 1] == s[2
        * i + 1]);
}

proof fn bytes_in_place(data: Seq<u8>, n: nat, i: int)
    requires
        n <= data.len(),
    ensures
        spi_bytes_acts(data, n).len() == 2 * n,
        0 <= i < n ==> spi_bytes_acts(data, n)[2 * i] == (Act::WaitSet {
            addr: 0x4001_3008,
            mask: 2,
        }),
        0 <= i < n ==> spi_bytes_acts(data, n)[2 * i + 1] == (Act::Write {
            addr: 0x4001_300C,
            val: data[i] as u32,
        }),
    decreases n,
{
    bit_values();
    if n > 0 {
        bytes_in_place(data, (n - 1) as nat, i);
    }
}

/// A tone: the speaker on, as many periods as its time holds, and off. Each half of a period
/// takes the core's 96 million cycles a second over twice the tone.
#[verifier::rlimit(50)]
pub proof fn tones_by_register(duration_ms: u32, freq_hz: u32, i: int)
    requires
        freq_hz > 0,
        0 <= i < duration_ms * freq_hz / 1000,
    ensures
        ({
            let acts = beep_acts(duration_ms, freq_hz);
            let n = duration_ms * freq_hz / 1000;
            let half = (96_000_000int / (2 * freq_hz)) as u32;
            &&& acts.len() == 5 + 4 * n + 2
            &&& acts.take(5) == beep_start_acts()
            &&& acts.skip(5 + 4 * n) == beep_stop_acts()
            &&& acts.subrange(5 + 4 * i, 9 + 4 * i) == beep_period_acts(half)
        }),
{
    let n = (duration_ms * freq_hz / 1000) as nat;
    let half = (96_000_000int / (freq_hz * 2)) as u32;
    assert(freq_hz * 2 == 2 * freq_hz);
    tone_in_place(half, n, i);
}

proof fn tone_in_place(half: u32, n: nat, i: int)
    requires
        0 <= i < n,
    ensures
        ({
            let acts = beep_start_acts() + beep_wave_acts(half, n) + beep_stop_acts();
            &&& acts.len() == 5 + 4 * n + 2
            &&& acts.take(5) == beep_start_acts()
            &&& acts.skip(5 + 4 * n as int) == beep_stop_acts()
            &&& acts.subrange(5 + 4 * i, 9 + 4 * i) == beep_period_acts(half)
        }),
{
    let wave = beep_wave_acts(half, n);
    let acts = beep_start_acts() + wave + beep_stop_acts();
    wave_in_place(half, n, i);
    assert(acts.take(5) =~= beep_start_acts());
    assert(acts.skip(5 + 4 * n as int) =~= beep_stop_acts());
    assert(acts.subrange(5 + 4 * i, 9 + 4 * i) =~= wave.subrange(4 * i, 4 * i + 4));
}

proof fn wave_in_place(half: u32, n: nat, i: int)
    ensures
        beep_wave_acts(half, n).len() == 4 * n,
        0 <= i < n ==> beep_wave_acts(half, n).subrange(4 * i, 4 * i + 4) == beep_period_acts(half),
    decreases n,
{
    if n > 0 {
        let before = beep_wave_acts(half, (n - 1) as nat);
        wave_in_place(half, (n - 1) as nat, i);
        let all = beep_wave_acts(half, n);
        if i < n - 1 && i >= 0 {
            assert(all.subrange(4 * i, 4 * i + 4) =~= before.subrange(4 * i, 4 * i + 4));
        } else if i == n - 1 {
            assert(all.subrange(4 * i, 4 * i + 4) =~= beep_period_acts(half));
        }
    }
}

/// What the motor programs do with both motors, in this order.
pub proof fn demos_in_order(duty: i16, ms: u32, frame: Seq<u8>, dev: bool)
    ensures
        set_all_acts(duty) == motor_set_acts(Motor::A, duty) + motor_set_acts(Motor::B, duty),
        coast_all_acts() == coast_acts(Motor::A) + coast_acts(Motor::B),
        burst_acts(duty, ms) == set_all_acts(duty) + seq![Act::DelayMs { ms }] + coast_all_acts(),
        kick_acts() == coast_all_acts() + seq![Act::DelayMs { ms: 500 }] + burst_acts(400, 150)
            + seq![Act::DelayMs { ms: 500 }] + burst_acts((-400) as i16, 150) + seq![
            Act::DelayMs { ms: 1000 },
        ],
        motor_demo_acts() == kick_acts() + load_vbus_acts(),
        dev_demo_acts(frame) == burst_acts(500, 400) + seq![Act::DelayMs { ms: 300 }] + burst_acts(
            (-500) as i16,
            400,
        ) + matrix_frame_acts(painted(frame, pattern_brightness(CHECK@, 80), 25)) + seq![
            Act::DelayMs { ms: 300 },
        ] + request_dfu_acts(),
        shutdown_acts() == coast_all_acts() + power_off_acts(),
        sample_buttons_acts() == read_adc_acts(14) + read_adc_acts(1),
        stop_acts() == coast_all_acts() + beep_acts(60, 800) + seq![Act::Sleep],
{
    assert(burst_acts(duty, ms) =~= set_all_acts(duty) + seq![Act::DelayMs { ms }]
        + coast_all_acts());
    assert(kick_acts() =~= coast_all_acts() + seq![Act::DelayMs { ms: 500 }] + burst_acts(400, 150)
        + seq![Act::DelayMs { ms: 500 }] + burst_acts((-400) as i16, 150) + seq![
        Act::DelayMs { ms: 1000 },
    ]);
    assert(dev_demo_acts(frame) =~= burst_acts(500, 400) + seq![Act::DelayMs { ms: 300 }]
        + burst_acts((-500) as i16, 400) + matrix_frame_acts(
        painted(frame, pattern_brightness(CHECK@, 80), 25),
    ) + seq![Act::DelayMs { ms: 300 }] + request_dfu_acts());
    assert(stop_acts() =~= coast_all_acts() + beep_acts(60, 800) + seq![Act::Sleep]);
}

/// A ramp has 61 steps of 5 ms, ten of a thousand apart: up from standstill to 600, or down
/// from there, forward or in reverse. A round swings forward, brakes, swings back and coasts.
pub proof fn ramps_in_order(reverse: bool, down: bool, n: nat, dev: bool)
    requires
        0 < n <= 61,
    ensures
        ({
            let size = if down {
                600 - 10 * (n - 1)
            } else {
                10 * (n - 1)
            };
            let duty = (if reverse {
                -size
            } else {
                size
            }) as i16;
            ramp_acts(reverse, down, n) == ramp_acts(reverse, down, (n - 1) as nat) + set_all_acts(
                duty,
            ) + seq![Act::DelayMs { ms: 5 }]
        }),
        swing_acts(reverse) == ramp_acts(reverse, false, 61) + seq![Act::DelayMs { ms: 2000 }]
            + ramp_acts(reverse, true, 61),
        round_acts() == swing_acts(false) + set_all_acts(0) + seq![Act::DelayMs { ms: 500 }]
            + swing_acts(true) + coast_all_acts() + seq![Act::DelayMs { ms: 2000 }],
        bare_round_acts(false) == round_acts(),
        bare_round_acts(true) == round_acts() + coast_all_acts() + request_dfu_acts(),
        ramp_acts(reverse, down, 0).len() == 0,
{
    let duty = ramp_duty(reverse, down, n - 1);
    assert(ramp_acts(reverse, down, n) =~= ramp_acts(reverse, down, (n - 1) as nat) + set_all_acts(
        duty,
    ) + seq![Act::DelayMs { ms: 5 }]);
    assert(swing_acts(reverse) =~= ramp_acts(reverse, false, 61) + seq![Act::DelayMs { ms: 2000 }]
        + ramp_acts(reverse, true, 61));
    assert(round_acts() =~= swing_acts(false) + set_all_acts(0) + seq![Act::DelayMs { ms: 500 }]
        + swing_acts(true) + coast_all_acts() + seq![Act::DelayMs { ms: 2000 }]);
}

} // verus!
