//! The USB port: full speed, with a serial device on it.
use crate::clock::HCLK_HZ;
use crate::plan::{at, md, rd, reg_modify, reg_read, run, run_upto, Act, Plan, Regs};
use crate::regs::{
    GPIOA, GPIO_AFRH, GPIO_MODER, GPIO_OSPEEDR, RCC, RCC_AHB1ENR, RCC_AHB2ENR, RCC_AHB2RSTR,
};
use vstd::prelude::*;

verus! {

/// Vendor and product of the serial device.
pub const USB_VENDOR: u16 = 0x1209;

pub const USB_PRODUCT: u16 = 0x0001;

/// Largest packet of the control endpoint.
pub const USB_PACKET: u8 = 64;

/// PA11 and PA12 for USB, PA9 an input that senses the supply.
pub open spec fn usb_pins_acts() -> Seq<Act> {
    seq![
        md(RCC, RCC_AHB1ENR, 0, 1u32 << 0),
        rd(RCC, RCC_AHB1ENR),
        md(
            GPIOA,
            GPIO_AFRH,
            (0xFu32 << 12) | (0xFu32 << 16),
            (10u32 << 12) | (10u32 << 16),
        ),
        md(GPIOA, GPIO_MODER, (3u32 << 22) | (3u32 << 24), (2u32 << 22) | (2u32 << 24)),
        md(GPIOA, GPIO_OSPEEDR, (3u32 << 22) | (3u32 << 24), (3u32 << 22) | (3u32 << 24)),
        md(GPIOA, GPIO_MODER, 3u32 << 18, 0),
    ]
}

/// Sets up the pins of the USB port.
pub fn init_usb_pins() -> (p: Plan)
    ensures
        p@ == usb_pins_acts(),
{
    let mut p: Plan = Plan::new();
    reg_modify(&mut p, RCC, RCC_AHB1ENR, 0, 1u32 << 0);
    reg_read(&mut p, RCC, RCC_AHB1ENR);
    reg_modify(
        &mut p,
        GPIOA,
        GPIO_AFRH,
        (0xFu32 << 12) | (0xFu32 << 16),
        (10u32 << 12) | (10u32 << 16),
    );
    reg_modify(
        &mut p,
        GPIOA,
        GPIO_MODER,
        (3u32 << 22) | (3u32 << 24),
        (2u32 << 22) | (2u32 << 24),
    );
    reg_modify(
        &mut p,
        GPIOA,
        GPIO_OSPEEDR,
        (3u32 << 22) | (3u32 << 24),
        (3u32 << 22) | (3u32 << 24),
    );
    reg_modify(&mut p, GPIOA, GPIO_MODER, 3u32 << 18, 0);
    p
}

/// Clock on, then a reset pulse.
pub open spec fn usb_enable_acts() -> Seq<Act> {
    seq![
        md(RCC, RCC_AHB2ENR, 0, 1u32 << 7),
        md(RCC, RCC_AHB2RSTR, 0, 1u32 << 7),
        md(RCC, RCC_AHB2RSTR, 1u32 << 7, 0),
    ]
}

/// The full-speed USB controller of the hub.
#[derive(Clone, Copy, Debug, PartialEq, Eq, Structural)]
pub struct UsbFs {
    /// Address of its registers.
    pub registers: u32,
    /// Words of packet memory.
    pub fifo_words: usize,
    /// Endpoints in each direction.
    pub endpoints: usize,
}

impl UsbFs {
    /// The controller as the hub has it.
    pub fn new() -> (u: UsbFs)
        ensures
            u == (UsbFs { registers: 0x5000_0000, fifo_words: 320, endpoints: 6 }),
    {
        UsbFs { registers: 0x5000_0000, fifo_words: 320, endpoints: 6 }
    }

    /// Switches the controller on and resets it.
    pub fn enable() -> (p: Plan)
        ensures
            p@ == usb_enable_acts(),
    {
        let mut p: Plan = Plan::new();
        reg_modify(&mut p, RCC, RCC_AHB2ENR, 0, 1u32 << 7);
        reg_modify(&mut p, RCC, RCC_AHB2RSTR, 0, 1u32 << 7);
        reg_modify(&mut p, RCC, RCC_AHB2RSTR, 1u32 << 7, 0);
        p
    }

    /// The clock that the controller's bus runs at.
    pub fn ahb_frequency_hz(&self) -> (f: u32)
        ensures
            f == HCLK_HZ,
    {
        HCLK_HZ
    }
}

/// Enabling leaves the controller clocked and out of reset.
pub proof fn usb_is_enabled(regs: Regs)
    ensures
        ({
            let after = run(usb_enable_acts(), regs);
            &&& after[at(RCC, RCC_AHB2ENR)] & 0x80 != 0
            &&& after[at(RCC, RCC_AHB2RSTR)] & 0x80 == 0
        }),
{
    reveal_with_fuel(run_upto, 4);
    let e = regs[at(RCC, RCC_AHB2ENR)];
    let r = regs[at(RCC, RCC_AHB2RSTR)];
    assert(((e & !0u32) | (1u32 << 7u32)) & 0x80 != 0 && ((((r & !0u32) | (1u32 << 7u32)) & !(1u32
        << 7u32)) | 0) & 0x80 == 0) by (bit_vector);
}

/// The data pins carry USB, and the supply pin is an input.
pub proof fn usb_pins_are_set(regs: Regs)
    ensures
        ({
            let after = run(usb_pins_acts(), regs);
            let moder = after[at(GPIOA, GPIO_MODER)];
            let afrh = after[at(GPIOA, GPIO_AFRH)];
            &&& (moder >> 22u32) & 3 == 2
            &&& (moder >> 24u32) & 3 == 2
            &&& (moder >> 18u32) & 3 == 0
            &&& (afrh >> 12u32) & 0xF == 10
            &&& (afrh >> 16u32) & 0xF == 10
        }),
{
    reveal_with_fuel(run_upto, 7);
    let m = regs[at(GPIOA, GPIO_MODER)];
    let a = regs[at(GPIOA, GPIO_AFRH)];
    assert({
        let d = (((m & !((3u32 << 22u32) | (3u32 << 24u32))) | ((2u32 << 22u32) | (2u32
            << 24u32))) & !(3u32 << 18u32)) | 0;
        let e = (a & !((0xFu32 << 12u32) | (0xFu32 << 16u32))) | ((10u32 << 12u32) | (10u32
            << 16u32));
        &&& (d >> 22u32) & 3 == 2
        &&& (d >> 24u32) & 3 == 2
        &&& (d >> 18u32) & 3 == 0
        &&& (e >> 12u32) & 0xF == 10
        &&& (e >> 16u32) & 0xF == 10
    }) by (bit_vector);
}

/// What the host finds: vendor 0x1209, product 1, packets of up to 64 bytes on the control
/// endpoint.
pub proof fn device_by_number()
    ensures
        USB_VENDOR == 0x1209,
        USB_PRODUCT == 1,
        USB_PACKET == 64,
{
}

} // verus!
