//! The LED driver: a TLC5955 with 48 channels, fed over SPI and latched by PA15.
//!
//! A frame has 97 bytes. The first one tells a control frame from a greyscale
//! frame; a greyscale frame goes on with two bytes a channel.
use crate::motor::all_spare_bridges;
use crate::plan::{
    at, md, rd, reg_modify, reg_read, reg_until_clear, reg_until_set, reg_write, until_clear,
    until_set, wr, Act, Op, Plan,
};
use crate::regs::{
    GPIOA, GPIOB, GPIO_AFRH, GPIO_AFRL, GPIO_BSRR, GPIO_MODER, GPIO_OSPEEDR, RCC, RCC_AHB1ENR,
    RCC_APB1ENR, RCC_APB2ENR, SPI1, SPI_CR1, SPI_DR, SPI_SR, TIM12, TIM_ARR, TIM_CCER, TIM_CCMR1,
    TIM_CCR2, TIM_CR1, TIM_EGR, TIM_PSC,
};
use vstd::prelude::*;

verus! {

/// Bytes of a frame.
pub const FRAME: usize = 97;

/// Channels of the driver.
pub const CHANNELS: usize = 48;

// ---------------------------------------------------------------------------
// Frames
// ---------------------------------------------------------------------------

/// The control frame: full dot correction, 3.2 mA, full brightness, repeat and
/// spread-spectrum PWM on.
pub open spec fn control_byte(i: int) -> u8 {
    if i == 0 {
        0x01
    } else if i == 1 {
        0x96
    } else if i < 50 {
        0x00
    } else if i == 50 {
        0x06
    } else if i == 51 {
        0x7F
    } else if i == 52 {
        0xFF
    } else if i == 53 {
        0xFE
    } else if i == 54 {
        0x00
    } else {
        0xFF
    }
}

pub open spec fn control_bytes() -> Seq<u8> {
    Seq::new(FRAME as nat, |i: int| control_byte(i))
}

/// The control frame.
pub fn control_frame() -> (f: [u8; FRAME])
    ensures
        f@ == control_bytes(),
{
    let mut d: [u8; FRAME] = [0xFF; FRAME];
    d[0] = 0x01;
    d[1] = 0x96;
    let mut i: usize = 2;
    while i < 50
        invariant
            2 <= i <= 50,
            d@.len() == FRAME,
            forall|k: int| 0 <= k < i ==> d@[k] == control_byte(k),
            forall|k: int| i <= k < FRAME ==> d@[k] == 0xFF,
        decreases 50 - i,
    {
        d[i] = 0x00;
        i = i + 1;
    }
    d[50] = 0x06;
    d[51] = 0x7F;
    d[52] = 0xFF;
    d[53] = 0xFE;
    d[54] = 0x00;
    assert(d@ =~= control_bytes());
    d
}

/// A byte of the greyscale frame for these channels, high byte first.
pub open spec fn grey_byte(channels: Seq<u16>, i: int) -> u8 {
    if i == 0 {
        0
    } else if i % 2 == 1 {
        (channels[(i - 1) / 2] / 256) as u8
    } else {
        (channels[(i - 2) / 2] % 256) as u8
    }
}

pub open spec fn grey_bytes(channels: Seq<u16>) -> Seq<u8> {
    Seq::new(FRAME as nat, |i: int| grey_byte(channels, i))
}

/// The greyscale frame for these channels.
pub fn grey_frame(channels: &[u16; CHANNELS]) -> (f: [u8; FRAME])
    ensures
        f@ == grey_bytes(channels@),
{
    let mut f: [u8; FRAME] = [0; FRAME];
    let mut ch: usize = 0;
    while ch < CHANNELS
        invariant
            ch <= CHANNELS,
            f@.len() == FRAME,
            forall|k: int| 0 <= k < 2 * ch + 1 ==> f@[k] == grey_byte(channels@, k),
        decreases CHANNELS - ch,
    {
        f[ch * 2 + 1] = (channels[ch] / 256) as u8;
        f[ch * 2 + 2] = (channels[ch] % 256) as u8;
        ch = ch + 1;
    }
    assert(f@ =~= grey_bytes(channels@));
    f
}

/// The level that a greyscale frame gives a channel.
pub open spec fn frame_level(frame: Seq<u8>, ch: int) -> int {
    256 * frame[2 * ch + 1] + frame[2 * ch + 2]
}

/// A greyscale frame gives every channel its own level.
pub proof fn grey_frame_carries_levels(channels: Seq<u16>, ch: int)
    requires
        channels.len() == CHANNELS,
        0 <= ch < CHANNELS,
    ensures
        frame_level(grey_bytes(channels), ch) == channels[ch],
        grey_bytes(channels)[0] == 0,
{
}

// ---------------------------------------------------------------------------
// Sending
// ---------------------------------------------------------------------------

/// The first `n` bytes, each sent once the transmit register is empty.
pub open spec fn spi_bytes_acts(data: Seq<u8>, n: nat) -> Seq<Act>
    decreases n,
{
    if n == 0 {
        Seq::empty()
    } else {
        spi_bytes_acts(data, (n - 1) as nat) + seq![
            until_set(SPI1, SPI_SR, 1u32 << 1),
            wr(SPI1, SPI_DR, data[n - 1] as u32),
        ]
    }
}

fn spi_bytes(data: &[u8]) -> (p: Plan)
    ensures
        p@ == spi_bytes_acts(data@, data@.len()),
{
    let mut p: Plan = Plan::new();
    let mut i: usize = 0;
    while i < data.len()
        invariant
            i <= data@.len(),
            p@ == spi_bytes_acts(data@, i as nat),
        decreases data@.len() - i,
    {
        let ghost before = p@;
        reg_until_set(&mut p, SPI1, SPI_SR, 1u32 << 1);
        reg_write(&mut p, SPI1, SPI_DR, data[i] as u32);
        assert(p@ =~= spi_bytes_acts(data@, (i + 1) as nat));
        i = i + 1;
    }
    p
}

/// Bytes sent, and the transfer waited for.
pub open spec fn spi_send_acts(data: Seq<u8>) -> Seq<Act> {
    spi_bytes_acts(data, data.len()) + seq![until_clear(SPI1, SPI_SR, 1u32 << 7)]
}

/// Sends bytes and waits until they are out.
pub fn spi_send(data: &[u8]) -> (p: Plan)
    ensures
        p@ == spi_send_acts(data@),
{
    let mut p: Plan = spi_bytes(data);
    reg_until_clear(&mut p, SPI1, SPI_SR, 1u32 << 7);
    assert(p@ =~= spi_send_acts(data@));
    p
}

/// Bytes sent, the transfer waited for, and what was received dropped.
pub open spec fn spi_exchange_acts(data: Seq<u8>) -> Seq<Act> {
    spi_bytes_acts(data, data.len()) + seq![
        until_set(SPI1, SPI_SR, 1u32 << 1),
        until_clear(SPI1, SPI_SR, 1u32 << 7),
        rd(SPI1, SPI_DR),
        rd(SPI1, SPI_SR),
    ]
}

/// Sends bytes, waits until they are out, and clears an overrun.
pub fn spi_exchange(data: &[u8]) -> (p: Plan)
    ensures
        p@ == spi_exchange_acts(data@),
{
    let mut p: Plan = spi_bytes(data);
    reg_until_set(&mut p, SPI1, SPI_SR, 1u32 << 1);
    reg_until_clear(&mut p, SPI1, SPI_SR, 1u32 << 7);
    reg_read(&mut p, SPI1, SPI_DR);
    reg_read(&mut p, SPI1, SPI_SR);
    assert(p@ =~= spi_exchange_acts(data@));
    p
}

/// PA15 high, a moment, PA15 low.
pub open spec fn tlc5955_latch_acts() -> Seq<Act> {
    seq![
        wr(GPIOA, GPIO_BSRR, 1u32 << 15),
        Act::Delay { cycles: 100 },
        wr(GPIOA, GPIO_BSRR, 1u32 << 31),
    ]
}

/// Pulses the latch pin, long enough for the slow clock.
pub fn tlc5955_latch() -> (p: Plan)
    ensures
        p@ == tlc5955_latch_acts(),
{
    let mut p: Plan = Plan::new();
    reg_write(&mut p, GPIOA, GPIO_BSRR, 1u32 << 15);
    p.push(Op::Delay { cycles: 100 });
    reg_write(&mut p, GPIOA, GPIO_BSRR, 1u32 << 31);
    p
}

/// PA15 high, then low.
pub open spec fn led_latch_acts() -> Seq<Act> {
    seq![
        wr(GPIOA, GPIO_BSRR, 1u32 << 15),
        wr(GPIOA, GPIO_BSRR, 1u32 << 31),
    ]
}

/// Pulses the latch pin.
pub fn led_latch() -> (p: Plan)
    ensures
        p@ == led_latch_acts(),
{
    let mut p: Plan = Plan::new();
    reg_write(&mut p, GPIOA, GPIO_BSRR, 1u32 << 15);
    reg_write(&mut p, GPIOA, GPIO_BSRR, 1u32 << 31);
    p
}

/// A frame sent and latched.
pub open spec fn frame_acts(data: Seq<u8>) -> Seq<Act> {
    spi_send_acts(data) + tlc5955_latch_acts()
}

/// Sends a frame and latches it.
pub fn send_frame(data: &[u8]) -> (p: Plan)
    ensures
        p@ == frame_acts(data@),
{
    let mut p: Plan = spi_send(data);
    p.append(tlc5955_latch());
    p
}

/// A frame sent and latched by the motor application.
pub open spec fn matrix_frame_acts(data: Seq<u8>) -> Seq<Act> {
    spi_exchange_acts(data) + led_latch_acts()
}

/// Sends a frame and latches it, for the motor application.
pub fn send_matrix_frame(data: &[u8]) -> (p: Plan)
    ensures
        p@ == matrix_frame_acts(data@),
{
    let mut p: Plan = spi_exchange(data);
    p.append(led_latch());
    p
}

/// Sends the control frame. The driver takes its current limit only from the
/// second one in a row.
pub fn tlc5955_send_control() -> (p: Plan)
    ensures
        p@ == frame_acts(control_bytes()),
{
    let ctrl: [u8; FRAME] = control_frame();
    send_frame(ctrl.as_slice())
}

/// Sends the levels of all channels.
pub fn tlc5955_send_gs(channels: &[u16; CHANNELS]) -> (p: Plan)
    ensures
        p@ == frame_acts(grey_bytes(channels@)),
{
    let frame: [u8; FRAME] = grey_frame(channels);
    send_frame(frame.as_slice())
}

// ---------------------------------------------------------------------------
// Setting up the hardware
// ---------------------------------------------------------------------------

/// PA15 the latch, low; PB15 the greyscale clock.
pub open spec fn latch_and_clock_pins_acts() -> Seq<Act> {
    seq![
        md(GPIOA, GPIO_AFRH, 0xFu32 << 28, 0),
        md(GPIOA, GPIO_MODER, 3u32 << 30, 1u32 << 30),
        wr(GPIOA, GPIO_BSRR, 1u32 << 31),
        md(GPIOB, GPIO_AFRH, 0xFu32 << 28, 9u32 << 28),
        md(GPIOB, GPIO_MODER, 3u32 << 30, 2u32 << 30),
        md(GPIOB, GPIO_OSPEEDR, 3u32 << 30, 3u32 << 30),
    ]
}

/// Sets up the latch pin and the clock pin.
fn latch_and_clock_pins() -> (p: Plan)
    ensures
        p@ == latch_and_clock_pins_acts(),
{
    let mut p: Plan = Plan::new();
    reg_modify(&mut p, GPIOA, GPIO_AFRH, 0xFu32 << 28, 0);
    reg_modify(&mut p, GPIOA, GPIO_MODER, 3u32 << 30, 1u32 << 30);
    reg_write(&mut p, GPIOA, GPIO_BSRR, 1u32 << 31);
    reg_modify(&mut p, GPIOB, GPIO_AFRH, 0xFu32 << 28, 9u32 << 28);
    reg_modify(&mut p, GPIOB, GPIO_MODER, 3u32 << 30, 2u32 << 30);
    reg_modify(&mut p, GPIOB, GPIO_OSPEEDR, 3u32 << 30, 3u32 << 30);
    p
}

/// Timer 12 at 9.6 MHz, half duty.
pub open spec fn grey_clock_acts() -> Seq<Act> {
    seq![
        wr(TIM12, TIM_PSC, 0),
        wr(TIM12, TIM_ARR, 4),
        wr(TIM12, TIM_CCMR1, (6u32 << 12) | (1u32 << 11)),
        wr(TIM12, TIM_CCR2, 2),
        wr(TIM12, TIM_CCER, 1u32 << 4),
        wr(TIM12, TIM_CR1, 1),
    ]
}

/// Starts the greyscale clock.
fn grey_clock() -> (p: Plan)
    ensures
        p@ == grey_clock_acts(),
{
    let mut p: Plan = Plan::new();
    reg_write(&mut p, TIM12, TIM_PSC, 0);
    reg_write(&mut p, TIM12, TIM_ARR, 4);
    reg_write(&mut p, TIM12, TIM_CCMR1, (6u32 << 12) | (1u32 << 11));
    reg_write(&mut p, TIM12, TIM_CCR2, 2);
    reg_write(&mut p, TIM12, TIM_CCER, 1u32 << 4);
    reg_write(&mut p, TIM12, TIM_CR1, 1);
    p
}

/// SPI a master at 6 MHz, then enabled.
pub open spec fn spi_on_acts() -> Seq<Act> {
    seq![
        wr(SPI1, SPI_CR1, (1u32 << 2) | (3u32 << 3) | (1u32 << 9) | (1u32 << 8)),
        md(SPI1, SPI_CR1, 0, 1u32 << 6),
    ]
}

/// Switches SPI on.
fn spi_on() -> (p: Plan)
    ensures
        p@ == spi_on_acts(),
{
    let mut p: Plan = Plan::new();
    reg_write(&mut p, SPI1, SPI_CR1, (1u32 << 2) | (3u32 << 3) | (1u32 << 9) | (1u32 << 8));
    reg_modify(&mut p, SPI1, SPI_CR1, 0, 1u32 << 6);
    p
}

/// Clocks on, SPI off, PA5 and PA7 for SPI.
pub open spec fn led_app_pins_acts() -> Seq<Act> {
    seq![
        md(RCC, RCC_AHB1ENR, 0, (1u32 << 0) | (1u32 << 1)),
        md(RCC, RCC_APB2ENR, 0, 1u32 << 12),
        md(RCC, RCC_APB1ENR, 0, 1u32 << 6),
        rd(RCC, RCC_AHB1ENR),
        wr(SPI1, SPI_CR1, 0),
        md(GPIOA, GPIO_AFRL, 0xFu32 << 20, 5u32 << 20),
        md(GPIOA, GPIO_MODER, 3u32 << 10, 2u32 << 10),
        md(GPIOA, GPIO_OSPEEDR, 3u32 << 10, 3u32 << 10),
        md(GPIOA, GPIO_AFRL, 0xFu32 << 28, 5u32 << 28),
        md(GPIOA, GPIO_MODER, 3u32 << 14, 2u32 << 14),
        md(GPIOA, GPIO_OSPEEDR, 3u32 << 14, 3u32 << 14),
    ]
}

/// Sets up clocks and data pins over what the monitor left.
fn led_app_pins() -> (p: Plan)
    ensures
        p@ == led_app_pins_acts(),
{
    let mut p: Plan = Plan::new();
    reg_modify(&mut p, RCC, RCC_AHB1ENR, 0, (1u32 << 0) | (1u32 << 1));
    reg_modify(&mut p, RCC, RCC_APB2ENR, 0, 1u32 << 12);
    reg_modify(&mut p, RCC, RCC_APB1ENR, 0, 1u32 << 6);
    reg_read(&mut p, RCC, RCC_AHB1ENR);
    reg_write(&mut p, SPI1, SPI_CR1, 0);
    reg_modify(&mut p, GPIOA, GPIO_AFRL, 0xFu32 << 20, 5u32 << 20);
    reg_modify(&mut p, GPIOA, GPIO_MODER, 3u32 << 10, 2u32 << 10);
    reg_modify(&mut p, GPIOA, GPIO_OSPEEDR, 3u32 << 10, 3u32 << 10);
    reg_modify(&mut p, GPIOA, GPIO_AFRL, 0xFu32 << 28, 5u32 << 28);
    reg_modify(&mut p, GPIOA, GPIO_MODER, 3u32 << 14, 2u32 << 14);
    reg_modify(&mut p, GPIOA, GPIO_OSPEEDR, 3u32 << 14, 3u32 << 14);
    p
}

pub open spec fn tlc5955_init_hw_acts() -> Seq<Act> {
    led_app_pins_acts() + latch_and_clock_pins_acts() + seq![wr(TIM12, TIM_CR1, 0)]
        + grey_clock_acts() + spi_on_acts()
}

/// Sets up pins, clock and SPI for the driver, whatever the monitor left.
pub fn tlc5955_init_hw() -> (p: Plan)
    ensures
        p@ == tlc5955_init_hw_acts(),
{
    let mut p: Plan = led_app_pins();
    p.append(latch_and_clock_pins());
    let ghost pins = p@;
    reg_write(&mut p, TIM12, TIM_CR1, 0);
    assert(p@ =~= pins + seq![wr(TIM12, TIM_CR1, 0)]);
    p.append(grey_clock());
    p.append(spi_on());
    p
}

/// Clocks on, PA5 and PA7 for SPI.
pub open spec fn status_pins_acts() -> Seq<Act> {
    seq![
        md(RCC, RCC_AHB1ENR, 0, (1u32 << 0) | (1u32 << 1)),
        md(RCC, RCC_APB2ENR, 0, 1u32 << 12),
        md(RCC, RCC_APB1ENR, 0, 1u32 << 6),
        rd(RCC, RCC_AHB1ENR),
        md(GPIOA, GPIO_AFRL, (0xFu32 << 20) | (0xFu32 << 28), (5u32 << 20) | (5u32 << 28)),
        md(GPIOA, GPIO_MODER, (3u32 << 10) | (3u32 << 14), (2u32 << 10) | (2u32 << 14)),
        md(GPIOA, GPIO_OSPEEDR, (3u32 << 10) | (3u32 << 14), (3u32 << 10) | (3u32 << 14)),
    ]
}

/// Sets up clocks and data pins.
fn status_pins() -> (p: Plan)
    ensures
        p@ == status_pins_acts(),
{
    let mut p: Plan = Plan::new();
    reg_modify(&mut p, RCC, RCC_AHB1ENR, 0, (1u32 << 0) | (1u32 << 1));
    reg_modify(&mut p, RCC, RCC_APB2ENR, 0, 1u32 << 12);
    reg_modify(&mut p, RCC, RCC_APB1ENR, 0, 1u32 << 6);
    reg_read(&mut p, RCC, RCC_AHB1ENR);
    reg_modify(
        &mut p,
        GPIOA,
        GPIO_AFRL,
        (0xFu32 << 20) | (0xFu32 << 28),
        (5u32 << 20) | (5u32 << 28),
    );
    reg_modify(&mut p, GPIOA, GPIO_MODER, (3u32 << 10) | (3u32 << 14), (2u32 << 10) | (2u32 << 14));
    reg_modify(
        &mut p,
        GPIOA,
        GPIO_OSPEEDR,
        (3u32 << 10) | (3u32 << 14),
        (3u32 << 10) | (3u32 << 14),
    );
    p
}

pub open spec fn status_setup_acts() -> Seq<Act> {
    status_pins_acts() + latch_and_clock_pins_acts() + grey_clock_acts() + spi_on_acts()
}

/// Levels of the monitor's greeting: the upper status LED in green.
pub open spec fn status_levels() -> Seq<u16> {
    Seq::new(CHANNELS as nat, |ch: int| if ch == 4 {
        0x2000u16
    } else {
        0u16
    })
}

/// Setup, the control frame twice, and the green light.
pub open spec fn status_led_acts() -> Seq<Act> {
    status_setup_acts() + frame_acts(control_bytes()) + frame_acts(control_bytes()) + frame_acts(
        grey_bytes(status_levels()),
    )
}

/// Lights the status LED in green: the monitor is alive.
pub fn init_status_led() -> (p: Plan)
    ensures
        p@ == status_led_acts(),
{
    let mut p: Plan = status_pins();
    p.append(latch_and_clock_pins());
    p.append(grey_clock());
    p.append(spi_on());
    p.append(tlc5955_send_control());
    p.append(tlc5955_send_control());
    let mut levels: [u16; CHANNELS] = [0; CHANNELS];
    levels[4] = 0x2000;
    assert(levels@ =~= status_levels());
    p.append(tlc5955_send_gs(&levels));
    p
}

/// Clocks on, PA5, PA6 and PA7 for SPI, PA15 the latch, PB15 the clock.
pub open spec fn matrix_pins_acts() -> Seq<Act> {
    seq![
        md(RCC, RCC_AHB1ENR, 0, 1u32 << 1),
        md(RCC, RCC_APB2ENR, 0, 1u32 << 12),
        md(RCC, RCC_APB1ENR, 0, 1u32 << 6),
        rd(RCC, RCC_APB1ENR),
        md(
            GPIOA,
            GPIO_MODER,
            (3u32 << 10) | (3u32 << 12) | (3u32 << 14),
            (2u32 << 10) | (2u32 << 12) | (2u32 << 14),
        ),
        md(
            GPIOA,
            GPIO_OSPEEDR,
            (3u32 << 10) | (3u32 << 12) | (3u32 << 14),
            (3u32 << 10) | (3u32 << 12) | (3u32 << 14),
        ),
        md(
            GPIOA,
            GPIO_AFRL,
            (0xFu32 << 20) | (0xFu32 << 24) | (0xFu32 << 28),
            (5u32 << 20) | (5u32 << 24) | (5u32 << 28),
        ),
        md(GPIOA, GPIO_MODER, 3u32 << 30, 1u32 << 30),
        wr(GPIOA, GPIO_BSRR, 1u32 << 31),
        md(GPIOB, GPIO_MODER, 3u32 << 30, 2u32 << 30),
        md(GPIOB, GPIO_AFRH, 0xFu32 << 28, 9u32 << 28),
    ]
}

/// Sets up clocks and pins for the motor application.
fn matrix_pins() -> (p: Plan)
    ensures
        p@ == matrix_pins_acts(),
{
    let mut p: Plan = Plan::new();
    reg_modify(&mut p, RCC, RCC_AHB1ENR, 0, 1u32 << 1);
    reg_modify(&mut p, RCC, RCC_APB2ENR, 0, 1u32 << 12);
    reg_modify(&mut p, RCC, RCC_APB1ENR, 0, 1u32 << 6);
    reg_read(&mut p, RCC, RCC_APB1ENR);
    reg_modify(
        &mut p,
        GPIOA,
        GPIO_MODER,
        (3u32 << 10) | (3u32 << 12) | (3u32 << 14),
        (2u32 << 10) | (2u32 << 12) | (2u32 << 14),
    );
    reg_modify(
        &mut p,
        GPIOA,
        GPIO_OSPEEDR,
        (3u32 << 10) | (3u32 << 12) | (3u32 << 14),
        (3u32 << 10) | (3u32 << 12) | (3u32 << 14),
    );
    reg_modify(
        &mut p,
        GPIOA,
        GPIO_AFRL,
        (0xFu32 << 20) | (0xFu32 << 24) | (0xFu32 << 28),
        (5u32 << 20) | (5u32 << 24) | (5u32 << 28),
    );
    reg_modify(&mut p, GPIOA, GPIO_MODER, 3u32 << 30, 1u32 << 30);
    reg_write(&mut p, GPIOA, GPIO_BSRR, 1u32 << 31);
    reg_modify(&mut p, GPIOB, GPIO_MODER, 3u32 << 30, 2u32 << 30);
    reg_modify(&mut p, GPIOB, GPIO_AFRH, 0xFu32 << 28, 9u32 << 28);
    p
}

/// SPI a master at 24 MHz, timer 12 at 9.6 MHz.
pub open spec fn matrix_clocks_acts() -> Seq<Act> {
    seq![
        wr(SPI1, SPI_CR1, (1u32 << 2) | (1u32 << 3) | (1u32 << 6) | (1u32 << 8) | (1u32 << 9)),
        wr(TIM12, TIM_PSC, 0),
        wr(TIM12, TIM_ARR, 9),
        wr(TIM12, TIM_CCR2, 4),
        wr(TIM12, TIM_CCMR1, (6u32 << 12) | (1u32 << 11)),
        wr(TIM12, TIM_CCER, 1u32 << 4),
        wr(TIM12, TIM_EGR, 1),
        wr(TIM12, TIM_CR1, 1),
    ]
}

/// Starts SPI and the greyscale clock for the motor application.
fn matrix_clocks() -> (p: Plan)
    ensures
        p@ == matrix_clocks_acts(),
{
    let mut p: Plan = Plan::new();
    reg_write(
        &mut p,
        SPI1,
        SPI_CR1,
        (1u32 << 2) | (1u32 << 3) | (1u32 << 6) | (1u32 << 8) | (1u32 << 9),
    );
    reg_write(&mut p, TIM12, TIM_PSC, 0);
    reg_write(&mut p, TIM12, TIM_ARR, 9);
    reg_write(&mut p, TIM12, TIM_CCR2, 4);
    reg_write(&mut p, TIM12, TIM_CCMR1, (6u32 << 12) | (1u32 << 11));
    reg_write(&mut p, TIM12, TIM_CCER, 1u32 << 4);
    reg_write(&mut p, TIM12, TIM_EGR, 1);
    reg_write(&mut p, TIM12, TIM_CR1, 1);
    p
}

pub open spec fn led_matrix_setup_acts() -> Seq<Act> {
    matrix_pins_acts() + matrix_clocks_acts()
}

/// Setup, and the control frame twice.
pub open spec fn led_matrix_acts() -> Seq<Act> {
    led_matrix_setup_acts() + matrix_frame_acts(control_bytes()) + matrix_frame_acts(
        control_bytes(),
    )
}

/// Sets up the driver for the motor application.
pub fn init_led_matrix() -> (p: Plan)
    ensures
        p@ == led_matrix_acts(),
{
    let ctrl: [u8; FRAME] = control_frame();
    let mut p: Plan = matrix_pins();
    p.append(matrix_clocks());
    p.append(send_matrix_frame(ctrl.as_slice()));
    p.append(send_matrix_frame(ctrl.as_slice()));
    p
}

// ---------------------------------------------------------------------------
// What the driver sees
// ---------------------------------------------------------------------------

/// What the driver has been given: bytes since the last latch, and the frames
/// that were latched.
pub struct Chip {
    pub shift: Seq<u8>,
    pub frames: Seq<Seq<u8>>,
}

/// The driver after an act: a byte on the SPI line is shifted in, a rising latch
/// takes what was shifted in.
pub open spec fn chip_act(c: Chip, act: Act) -> Chip {
    match act {
        Act::Write { addr, val } => if addr == at(SPI1, SPI_DR) {
            Chip { shift: c.shift.push(val as u8), ..c }
        } else if addr == at(GPIOA, GPIO_BSRR) && val & 0x8000 != 0 {
            Chip { shift: Seq::empty(), frames: c.frames.push(c.shift) }
        } else {
            c
        },
        _ => c,
    }
}

/// The driver after the first `n` acts.
pub open spec fn chip_upto(c: Chip, acts: Seq<Act>, n: nat) -> Chip
    decreases n,
{
    if n == 0 {
        c
    } else {
        chip_act(chip_upto(c, acts, (n - 1) as nat), acts[n - 1])
    }
}

/// The driver after a plan.
pub open spec fn chip_run(c: Chip, acts: Seq<Act>) -> Chip {
    chip_upto(c, acts, acts.len())
}

proof fn chip_prefix(c: Chip, a: Seq<Act>, b: Seq<Act>, n: nat)
    requires
        n <= a.len(),
    ensures
        chip_upto(c, a + b, n) == chip_upto(c, a, n),
    decreases n,
{
    if n > 0 {
        chip_prefix(c, a, b, (n - 1) as nat);
    }
}

proof fn chip_append_upto(c: Chip, a: Seq<Act>, b: Seq<Act>, n: nat)
    requires
        n <= b.len(),
    ensures
        chip_upto(c, a + b, a.len() + n) == chip_upto(chip_run(c, a), b, n),
    decreases n,
{
    if n == 0 {
        chip_prefix(c, a, b, a.len());
    } else {
        chip_append_upto(c, a, b, (n - 1) as nat);
    }
}

/// Two plans one after the other are one plan to the driver.
pub broadcast proof fn chip_append(c: Chip, a: Seq<Act>, b: Seq<Act>)
    ensures
        #[trigger] chip_run(c, a + b) == chip_run(chip_run(c, a), b),
{
    chip_append_upto(c, a, b, b.len());
}

/// Whether the driver takes no notice of an act.
pub open spec fn chip_ignores(act: Act) -> bool {
    match act {
        Act::Write { addr, val } => addr != at(SPI1, SPI_DR) && (addr == at(GPIOA, GPIO_BSRR)
            ==> val & 0x8000 == 0),
        _ => true,
    }
}

proof fn chip_ignores_upto(c: Chip, acts: Seq<Act>, n: nat)
    requires
        n <= acts.len(),
        forall|i: int| 0 <= i < acts.len() ==> chip_ignores(#[trigger] acts[i]),
    ensures
        chip_upto(c, acts, n) == c,
    decreases n,
{
    if n > 0 {
        chip_ignores_upto(c, acts, (n - 1) as nat);
        assert(chip_ignores(acts[n - 1]));
    }
}

/// Acts that the driver takes no notice of change nothing.
pub proof fn chip_quiet(c: Chip, acts: Seq<Act>)
    requires
        forall|i: int| 0 <= i < acts.len() ==> chip_ignores(#[trigger] acts[i]),
    ensures
        chip_run(c, acts) == c,
{
    chip_ignores_upto(c, acts, acts.len());
}

proof fn latch_bits()
    ensures
        (1u32 << 15) & 0x8000 != 0,
        (1u32 << 31) & 0x8000 == 0,
{
    assert((1u32 << 15) & 0x8000 != 0 && (1u32 << 31) & 0x8000 == 0) by (bit_vector);
}

proof fn spi_bytes_shift(c: Chip, data: Seq<u8>, n: nat)
    requires
        n <= data.len(),
    ensures
        chip_run(c, spi_bytes_acts(data, n))
            == (Chip { shift: c.shift + data.take(n as int), ..c }),
    decreases n,
{
    if n == 0 {
        assert(c.shift + data.take(0) =~= c.shift);
    } else {
        let k = (n - 1) as nat;
        spi_bytes_shift(c, data, k);
        let one = seq![
            until_set(SPI1, SPI_SR, 1u32 << 1),
            wr(SPI1, SPI_DR, data[n - 1] as u32),
        ];
        chip_append(c, spi_bytes_acts(data, k), one);
        reveal_with_fuel(chip_upto, 3);
        assert(c.shift + data.take(n as int) =~= (c.shift + data.take(k as int)).push(data[n - 1]));
    }
}

/// Sending a frame gives the driver exactly that frame, whichever way it is sent.
pub proof fn frame_is_latched(c: Chip, data: Seq<u8>)
    requires
        c.shift.len() == 0,
    ensures
        chip_run(c, frame_acts(data)) == (Chip {
            shift: Seq::empty(),
            frames: c.frames.push(data),
        }),
        chip_run(c, matrix_frame_acts(data)) == (Chip {
            shift: Seq::empty(),
            frames: c.frames.push(data),
        }),
{
    broadcast use chip_append;

    latch_bits();
    spi_bytes_shift(c, data, data.len());
    assert(c.shift + data.take(data.len() as int) =~= data);
    let sent = Chip { shift: data, ..c };
    chip_quiet(sent, seq![until_clear(SPI1, SPI_SR, 1u32 << 7)]);
    chip_quiet(
        sent,
        seq![
            until_set(SPI1, SPI_SR, 1u32 << 1),
            until_clear(SPI1, SPI_SR, 1u32 << 7),
            rd(SPI1, SPI_DR),
            rd(SPI1, SPI_SR),
        ],
    );
    reveal_with_fuel(chip_upto, 4);
}

/// Setting up pins and clocks gives the driver nothing.
pub proof fn setup_is_quiet(c: Chip)
    ensures
        chip_run(c, status_setup_acts()) == c,
        chip_run(c, led_matrix_setup_acts()) == c,
        chip_run(c, tlc5955_init_hw_acts()) == c,
{
    broadcast use chip_append;

    latch_bits();
    chip_quiet(c, status_pins_acts());
    chip_quiet(c, latch_and_clock_pins_acts());
    chip_quiet(c, grey_clock_acts());
    chip_quiet(c, spi_on_acts());
    chip_quiet(c, matrix_pins_acts());
    chip_quiet(c, matrix_clocks_acts());
    chip_quiet(c, led_app_pins_acts());
    chip_quiet(c, seq![wr(TIM12, TIM_CR1, 0)]);
}

proof fn spi_bytes_spare_bridges(data: Seq<u8>, n: nat)
    ensures
        all_spare_bridges(spi_bytes_acts(data, n)),
    decreases n,
{
    if n > 0 {
        spi_bytes_spare_bridges(data, (n - 1) as nat);
    }
}

/// Sending a frame leaves the motors alone.
pub proof fn frame_spares_bridges(data: Seq<u8>)
    ensures
        all_spare_bridges(frame_acts(data)),
{
    spi_bytes_spare_bridges(data, data.len());
}

/// Sending a frame of the matrix leaves the motors alone.
pub proof fn matrix_frame_spares_bridges(data: Seq<u8>)
    ensures
        all_spare_bridges(matrix_frame_acts(data)),
{
    spi_bytes_spare_bridges(data, data.len());
}

/// The monitor gives the driver the control frame twice, and only then levels.
pub proof fn status_led_controls_twice(c: Chip)
    requires
        c.shift.len() == 0,
    ensures
        chip_run(c, status_led_acts()).frames == c.frames.push(control_bytes()).push(
            control_bytes(),
        ).push(grey_bytes(status_levels())),
{
    broadcast use chip_append;

    setup_is_quiet(c);
    frame_is_latched(c, control_bytes());
    let one = Chip { shift: Seq::empty(), frames: c.frames.push(control_bytes()) };
    frame_is_latched(one, control_bytes());
    let two = Chip { shift: Seq::empty(), frames: one.frames.push(control_bytes()) };
    frame_is_latched(two, grey_bytes(status_levels()));
}

/// Setting up the matrix gives the driver the control frame twice.
pub proof fn led_matrix_controls_twice(c: Chip)
    requires
        c.shift.len() == 0,
    ensures
        chip_run(c, led_matrix_acts()) == (Chip {
            shift: Seq::empty(),
            frames: c.frames.push(control_bytes()).push(control_bytes()),
        }),
{
    broadcast use chip_append;

    setup_is_quiet(c);
    frame_is_latched(c, control_bytes());
    let one = Chip { shift: Seq::empty(), frames: c.frames.push(control_bytes()) };
    frame_is_latched(one, control_bytes());
}

/// The control frame in full.
pub proof fn control_frame_in_full(i: int)
    ensures
        control_bytes().len() == 97,
        control_bytes().take(2) == seq![0x01u8, 0x96],
        2 <= i < 50 ==> control_bytes()[i] == 0,
        control_bytes().subrange(50, 55) == seq![0x06u8, 0x7F, 0xFF, 0xFE, 0x00],
        55 <= i < 97 ==> control_bytes()[i] == 0xFF,
{
    assert(control_bytes().take(2) =~= seq![0x01u8, 0x96]);
    assert(control_bytes().subrange(50, 55) =~= seq![0x06u8, 0x7F, 0xFF, 0xFE, 0x00]);
}

/// A frame of levels has 97 bytes: a zero, then two for each of the 48 channels, the high one
/// first.
pub proof fn grey_frame_in_bytes(channels: Seq<u16>, ch: int)
    requires
        0 <= ch < 48,
    ensures
        grey_bytes(channels).len() == 97,
        grey_bytes(channels)[0] == 0,
        256 * grey_bytes(channels)[2 * ch + 1] + grey_bytes(channels)[2 * ch + 2] == channels[ch],
{
}

/// The monitor's greeting is the status LED in green: channel 4 at 0x2000, all others dark.
pub proof fn greeting_is_green(ch: int)
    requires
        0 <= ch < 48,
    ensures
        status_levels().len() == 48,
        status_levels()[ch] == if ch == 4 {
            0x2000
        } else {
            0int
        },
{
}

} // verus!
