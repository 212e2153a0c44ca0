//! Protection of the monitor: flash that cannot be written, by option bytes and by
//! the memory protection unit, and RAM that only privileged code can use.
use crate::plan::{
    at, md, reg_modify, reg_until_clear, reg_write, run, run_upto, say, until_clear, wr, Act, Plan,
    Regs,
};
use crate::regs::{
    FLASH_OPTCR, FLASH_OPTKEYR, FLASH_R, FLASH_SR, MONITOR_FLASH, MONITOR_RAM, MPU_CTRL, MPU_RASR,
    MPU_RBAR, MPU_RNR,
};
use vstd::prelude::*;

verus! {

/// The option bytes' write-protection bits of sectors 0 to 3, which hold the
/// bootloader and the monitor. A sector is protected where its bit is clear.
pub const WRP_SECTORS: u32 = 0x000F_0000;

/// Bits of the option control register: lock, and start of programming.
pub const OPTLOCK: u32 = 0x1;

pub const OPTSTRT: u32 = 0x2;

/// Whether the option bytes protect sectors 0 to 3.
pub open spec fn sectors_protected(optcr: u32) -> bool {
    optcr & WRP_SECTORS == 0
}

/// Whether the option bytes protect sectors 0 to 3.
pub fn is_protected(optcr: u32) -> (r: bool)
    ensures
        r == sectors_protected(optcr),
{
    optcr & WRP_SECTORS == 0
}

/// Option bytes unlocked, the bits of sectors 0 to 3 changed, programmed, locked.
pub open spec fn option_acts(protect: bool) -> Seq<Act> {
    seq![
        wr(FLASH_R, FLASH_OPTKEYR, 0x0819_2A3B),
        wr(FLASH_R, FLASH_OPTKEYR, 0x4C5D_6E7F),
        until_clear(FLASH_R, FLASH_SR, 1u32 << 16),
        if protect {
            md(FLASH_R, FLASH_OPTCR, WRP_SECTORS, 0)
        } else {
            md(FLASH_R, FLASH_OPTCR, 0, WRP_SECTORS)
        },
        md(FLASH_R, FLASH_OPTCR, 0, OPTSTRT),
        until_clear(FLASH_R, FLASH_SR, 1u32 << 16),
        md(FLASH_R, FLASH_OPTCR, 0, OPTLOCK),
    ]
}

/// Turns the write protection of sectors 0 to 3 on or off.
pub fn set_write_protection(protect: bool) -> (p: Plan)
    ensures
        p@ == option_acts(protect),
{
    let mut p: Plan = Plan::new();
    reg_write(&mut p, FLASH_R, FLASH_OPTKEYR, 0x0819_2A3B);
    reg_write(&mut p, FLASH_R, FLASH_OPTKEYR, 0x4C5D_6E7F);
    reg_until_clear(&mut p, FLASH_R, FLASH_SR, 1u32 << 16);
    if protect {
        reg_modify(&mut p, FLASH_R, FLASH_OPTCR, WRP_SECTORS, 0);
    } else {
        reg_modify(&mut p, FLASH_R, FLASH_OPTCR, 0, WRP_SECTORS);
    }
    reg_modify(&mut p, FLASH_R, FLASH_OPTCR, 0, OPTSTRT);
    reg_until_clear(&mut p, FLASH_R, FLASH_SR, 1u32 << 16);
    reg_modify(&mut p, FLASH_R, FLASH_OPTCR, 0, OPTLOCK);
    p
}

/// What `protect` does.
pub open spec fn protect_acts() -> Seq<Act> {
    option_acts(true).push(say("Sectors 0-3 write-protected\r\n"))
}

/// What `unprotect` does.
pub open spec fn unprotect_acts() -> Seq<Act> {
    option_acts(false).push(say("Sectors 0-3 writable\r\n"))
}

/// Protects bootloader and monitor against programming.
pub fn cmd_protect() -> (p: Plan)
    ensures
        p@ == protect_acts(),
{
    let mut p: Plan = set_write_protection(true);
    p.say("Sectors 0-3 write-protected\r\n");
    p
}

/// Lets bootloader and monitor be programmed, for an update.
pub fn cmd_unprotect() -> (p: Plan)
    ensures
        p@ == unprotect_acts(),
{
    let mut p: Plan = set_write_protection(false);
    p.say("Sectors 0-3 writable\r\n");
    p
}

// ---------------------------------------------------------------------------
// Memory protection unit
// ---------------------------------------------------------------------------

/// Attributes of the monitor's flash: 32 KB, enabled, cacheable, read-only for
/// everyone.
pub const FLASH_REGION: u32 = 0x0602_001D;

/// Attributes of the monitor's RAM: 8 KB, enabled, shareable and cacheable, never
/// executed, for privileged code only.
pub const RAM_REGION: u32 = 0x1106_0019;

/// The unit off, both regions defined, the unit on with the default map behind
/// them for privileged code.
pub open spec fn mpu_acts() -> Seq<Act> {
    seq![
        wr(MPU_CTRL, 0, 0),
        wr(MPU_RNR, 0, 0),
        wr(MPU_RBAR, 0, MONITOR_FLASH),
        wr(MPU_RASR, 0, FLASH_REGION),
        wr(MPU_RNR, 0, 1),
        wr(MPU_RBAR, 0, MONITOR_RAM),
        wr(MPU_RASR, 0, RAM_REGION),
        wr(MPU_CTRL, 0, 0x5),
    ]
}

/// Protects the monitor's flash and RAM from applications.
pub fn init_mpu() -> (p: Plan)
    ensures
        p@ == mpu_acts(),
{
    let mut p: Plan = Plan::new();
    reg_write(&mut p, MPU_CTRL, 0, 0);
    reg_write(&mut p, MPU_RNR, 0, 0);
    reg_write(&mut p, MPU_RBAR, 0, MONITOR_FLASH);
    reg_write(&mut p, MPU_RASR, 0, FLASH_REGION);
    reg_write(&mut p, MPU_RNR, 0, 1);
    reg_write(&mut p, MPU_RBAR, 0, MONITOR_RAM);
    reg_write(&mut p, MPU_RASR, 0, RAM_REGION);
    reg_write(&mut p, MPU_CTRL, 0, 0x5);
    p
}

/// A region of the memory protection unit.
pub struct Region {
    pub base: u32,
    pub attributes: u32,
}

/// The unit as it stands: on or off, the region that is selected, and the regions.
pub struct Mpu {
    pub control: u32,
    pub selected: u32,
    pub regions: Map<u32, Region>,
}

/// The unit after one act. Base and attributes go to the region that is selected.
pub open spec fn mpu_apply(m: Mpu, act: Act) -> Mpu {
    match act {
        Act::Write { addr, val } => if addr == MPU_CTRL {
            Mpu { control: val, ..m }
        } else if addr == MPU_RNR {
            Mpu { selected: val, ..m }
        } else if addr == MPU_RBAR {
            Mpu {
                regions: m.regions.insert(
                    m.selected,
                    Region { base: val, ..m.regions[m.selected] },
                ),
                ..m
            }
        } else if addr == MPU_RASR {
            Mpu {
                regions: m.regions.insert(
                    m.selected,
                    Region { attributes: val, ..m.regions[m.selected] },
                ),
                ..m
            }
        } else {
            m
        },
        _ => m,
    }
}

/// The unit after the first `n` acts.
pub open spec fn mpu_upto(m: Mpu, acts: Seq<Act>, n: nat) -> Mpu
    decreases n,
{
    if n == 0 {
        m
    } else {
        mpu_apply(mpu_upto(m, acts, (n - 1) as nat), acts[n - 1])
    }
}

/// Access permissions of a region: what privileged and other code may do.
pub open spec fn permissions(r: Region) -> u32 {
    (r.attributes >> 24u32) & 7
}

/// Bytes of a region, as a power of two.
pub open spec fn region_log2(r: Region) -> u32 {
    (((r.attributes >> 1u32) & 0x1F) + 1) as u32
}

/// Once the unit is set up, the monitor's flash is read-only (permissions 6) over
/// its 32 KB, its RAM is for privileged code only (permissions 1) over its 8 KB,
/// both regions are enabled, and so is the unit.
pub proof fn monitor_is_protected(m: Mpu)
    ensures
        ({
            let after = mpu_upto(m, mpu_acts(), mpu_acts().len());
            let flash = after.regions[0];
            let ram = after.regions[1];
            &&& after.control & 1 == 1
            &&& flash.base == MONITOR_FLASH
            &&& permissions(flash) == 6
            &&& region_log2(flash) == 15
            &&& flash.attributes & 1 == 1
            &&& ram.base == MONITOR_RAM
            &&& permissions(ram) == 1
            &&& region_log2(ram) == 13
            &&& ram.attributes & 1 == 1
        }),
{
    reveal_with_fuel(mpu_upto, 9);
    assert((0x0602_001Du32 >> 24u32) & 7 == 6 && (0x0602_001Du32 >> 1u32) & 0x1F == 14
        && 0x0602_001Du32 & 1 == 1 && (0x1106_0019u32 >> 24u32) & 7 == 1 && (0x1106_0019u32
        >> 1u32) & 0x1F == 12 && 0x1106_0019u32 & 1 == 1 && 5u32 & 1 == 1) by (bit_vector);
}

// ---------------------------------------------------------------------------
// What the option bytes promise
// ---------------------------------------------------------------------------

/// `protect` leaves sectors 0 to 3 protected, `unprotect` leaves them writable;
/// either locks the option bytes again and keeps the bits of every other sector.
pub proof fn write_protection_is_set(protect: bool, regs: Regs)
    ensures
        ({
            let before = regs[at(FLASH_R, FLASH_OPTCR)];
            let after = run(option_acts(protect), regs)[at(FLASH_R, FLASH_OPTCR)];
            &&& after & WRP_SECTORS == if protect {
                0
            } else {
                WRP_SECTORS
            }
            &&& sectors_protected(after) == protect
            &&& after & OPTLOCK != 0
            &&& after & 0xFFF0_FFFC == before & 0xFFF0_FFFC
        }),
{
    reveal_with_fuel(run_upto, 8);
    let v = regs[at(FLASH_R, FLASH_OPTCR)];
    assert({
        let a = (((((v & !0x000F_0000u32) | 0) & !0u32) | 2) & !0u32) | 1;
        let b = (((((v & !0u32) | 0x000F_0000u32) & !0u32) | 2) & !0u32) | 1;
        &&& a & 0x000F_0000 == 0
        &&& b & 0x000F_0000 == 0x000F_0000
        &&& a & 1 != 0 && b & 1 != 0
        &&& a & 0xFFF0_FFFC == v & 0xFFF0_FFFC
        &&& b & 0xFFF0_FFFC == v & 0xFFF0_FFFC
    }) by (bit_vector);
}

/// Protection can be taken back: the bits of the sectors are as `unprotect` leaves
/// them, whatever went before.
pub proof fn unprotect_undoes_protect(regs: Regs)
    ensures
        !sectors_protected(
            run(option_acts(false), run(option_acts(true), regs))[at(FLASH_R, FLASH_OPTCR)],
        ),
{
    write_protection_is_set(false, run(option_acts(true), regs));
}

} // verus!
