//! The core's debug units: instruction comparators (FPB), data comparators (DWT)
//! and the DebugMonitor exception.
use crate::plan::{ld, md, reg_load, reg_modify, reg_write, wr, Act, Plan};
use crate::regs::{
    CODE_END, DWT_COMP_BASE, DWT_COMP_SPACING, DWT_FUNCTION_OFFSET, DWT_MASK_OFFSET, DWT_MAX_COMP,
    FPB_COMP_BASE, FPB_CTRL, FPB_MAX_COMP, SCB_DEMCR, SCB_DHCSR, SCB_SHPR3,
};
use vstd::prelude::*;

verus! {

/// Bits of the debug control register: a pending DebugMonitor exception, and
/// single-stepping.
pub const MON_PEND: u32 = 0x2_0000;

pub const MON_STEP: u32 = 0x4_0000;

/// Whether a debug probe has halting debug enabled, which excludes the
/// DebugMonitor exception.
pub open spec fn halting(dhcsr: u32) -> bool {
    dhcsr & 1 != 0
}

/// Loads the register that tells whether halting debug is active.
pub fn load_debug_status() -> (p: Plan)
    ensures
        p@ == seq![ld(SCB_DHCSR, 0)],
{
    let mut p: Plan = Plan::new();
    reg_load(&mut p, SCB_DHCSR, 0);
    p
}

/// Exception enabled, at the lowest priority.
pub open spec fn debug_monitor_enable_acts(dhcsr: u32) -> Seq<Act> {
    if halting(dhcsr) {
        Seq::empty()
    } else {
        seq![md(SCB_DEMCR, 0, 0, 1u32 << 16), md(SCB_SHPR3, 0, 0xFF, 0xFF)]
    }
}

/// Enables the DebugMonitor exception at the lowest priority, so that every
/// interrupt runs above it. Fails where halting debug is active.
pub fn debug_monitor_enable(dhcsr: u32) -> (r: (bool, Plan))
    ensures
        r.0 == !halting(dhcsr),
        r.1@ == debug_monitor_enable_acts(dhcsr),
{
    let mut p: Plan = Plan::new();
    if dhcsr & 1 != 0 {
        return (false, p);
    }
    reg_modify(&mut p, SCB_DEMCR, 0, 0, 1u32 << 16);
    reg_modify(&mut p, SCB_SHPR3, 0, 0xFF, 0xFF);
    (true, p)
}

/// The value of an instruction comparator that breaks at `addr`: the word of
/// the instruction, which of its two halves to break on, and the enable bit.
pub open spec fn fp_comp(addr: u32) -> u32 {
    (addr & !0x3u32) | 0x1 | ((if addr & 0x2 == 0 {
        1u32
    } else {
        2u32
    }) << 30u32)
}

/// Offset of comparator `id` from the first one.
pub open spec fn fpb_slot(id: int) -> u32 {
    (id * 4) as u32
}

pub open spec fn fpb_accepts(comp_id: int, addr: u32) -> bool {
    0 <= comp_id < FPB_MAX_COMP && addr < CODE_END
}

pub open spec fn fpb_set_acts(comp_id: int, addr: u32) -> Seq<Act> {
    if fpb_accepts(comp_id, addr) {
        seq![wr(FPB_CTRL, 0, 0x3), wr(FPB_COMP_BASE, fpb_slot(comp_id), fp_comp(addr))]
    } else {
        Seq::empty()
    }
}

/// Sets a hardware breakpoint. Fails for a comparator that does not exist and
/// for an address outside the code region.
pub fn fpb_set_breakpoint(comp_id: usize, addr: u32) -> (r: (bool, Plan))
    ensures
        r.0 == fpb_accepts(comp_id as int, addr),
        r.1@ == fpb_set_acts(comp_id as int, addr),
{
    let mut p: Plan = Plan::new();
    if comp_id >= FPB_MAX_COMP || addr >= CODE_END {
        return (false, p);
    }
    reg_write(&mut p, FPB_CTRL, 0, 0x3);
    let replace: u32 = if addr & 0x2 == 0 {
        1
    } else {
        2
    };
    reg_write(
        &mut p,
        FPB_COMP_BASE,
        (comp_id as u32) * 4,
        (addr & !0x3u32) | 0x1 | (replace << 30u32),
    );
    (true, p)
}

pub open spec fn fpb_clear_acts(comp_id: int) -> Seq<Act> {
    if 0 <= comp_id < FPB_MAX_COMP {
        seq![wr(FPB_COMP_BASE, fpb_slot(comp_id), 0)]
    } else {
        Seq::empty()
    }
}

/// Clears a hardware breakpoint; nothing happens for one that does not exist.
pub fn fpb_clear_breakpoint(comp_id: usize) -> (p: Plan)
    ensures
        p@ == fpb_clear_acts(comp_id as int),
{
    let mut p: Plan = Plan::new();
    if comp_id < FPB_MAX_COMP {
        reg_write(&mut p, FPB_COMP_BASE, (comp_id as u32) * 4, 0);
    }
    p
}

/// The first `n` comparators cleared.
pub open spec fn fpb_clear_upto_acts(n: nat) -> Seq<Act>
    decreases n,
{
    if n == 0 {
        Seq::empty()
    } else {
        fpb_clear_upto_acts((n - 1) as nat) + fpb_clear_acts(n - 1)
    }
}

/// Clears all hardware breakpoints.
pub fn fpb_clear_all() -> (p: Plan)
    ensures
        p@ == fpb_clear_upto_acts(FPB_MAX_COMP as nat),
{
    let mut p: Plan = Plan::new();
    let mut i: usize = 0;
    while i < FPB_MAX_COMP
        invariant
            i <= FPB_MAX_COMP,
            p@ == fpb_clear_upto_acts(i as nat),
        decreases FPB_MAX_COMP - i,
    {
        p.append(fpb_clear_breakpoint(i));
        i = i + 1;
    }
    p
}

/// Enables or disables the whole breakpoint unit; the key bit accompanies
/// every write.
pub fn fpb_set_enabled(enable: bool) -> (p: Plan)
    ensures
        p@ == seq![wr(FPB_CTRL, 0, if enable { 0x3u32 } else { 0x2u32 })],
{
    let mut p: Plan = Plan::new();
    if enable {
        reg_write(&mut p, FPB_CTRL, 0, 0x3);
    } else {
        reg_write(&mut p, FPB_CTRL, 0, 0x2);
    }
    p
}

/// First register of data comparator `id`.
pub open spec fn dwt_base(id: int) -> u32 {
    (DWT_COMP_BASE + id * DWT_COMP_SPACING) as u32
}

pub open spec fn dwt_set_acts(comp_id: int, addr: u32, write_only: bool) -> Seq<Act> {
    if 0 <= comp_id < DWT_MAX_COMP {
        seq![
            wr(dwt_base(comp_id), 0, addr),
            wr(dwt_base(comp_id), DWT_MASK_OFFSET, 0),
            wr(dwt_base(comp_id), DWT_FUNCTION_OFFSET, if write_only { 0x6u32 } else { 0x7u32 }),
        ]
    } else {
        Seq::empty()
    }
}

/// Sets a data watchpoint on exactly `addr`, for writes or for every access. Fails
/// for a comparator that does not exist.
pub fn dwt_set_watchpoint(comp_id: usize, addr: u32, write_only: bool) -> (r: (bool, Plan))
    ensures
        r.0 == (comp_id < DWT_MAX_COMP),
        r.1@ == dwt_set_acts(comp_id as int, addr, write_only),
{
    let mut p: Plan = Plan::new();
    if comp_id >= DWT_MAX_COMP {
        return (false, p);
    }
    let base: u32 = DWT_COMP_BASE + (comp_id as u32) * DWT_COMP_SPACING;
    reg_write(&mut p, base, 0, addr);
    reg_write(&mut p, base, DWT_MASK_OFFSET, 0);
    let func: u32 = if write_only {
        0x6
    } else {
        0x7
    };
    reg_write(&mut p, base, DWT_FUNCTION_OFFSET, func);
    (true, p)
}

pub open spec fn dwt_clear_acts(comp_id: int) -> Seq<Act> {
    if 0 <= comp_id < DWT_MAX_COMP {
        seq![wr(dwt_base(comp_id), DWT_FUNCTION_OFFSET, 0)]
    } else {
        Seq::empty()
    }
}

/// Clears a data watchpoint; nothing happens for one that does not exist.
pub fn dwt_clear_watchpoint(comp_id: usize) -> (p: Plan)
    ensures
        p@ == dwt_clear_acts(comp_id as int),
{
    let mut p: Plan = Plan::new();
    if comp_id < DWT_MAX_COMP {
        let base: u32 = DWT_COMP_BASE + (comp_id as u32) * DWT_COMP_SPACING;
        reg_write(&mut p, base, DWT_FUNCTION_OFFSET, 0);
    }
    p
}

/// The first `n` data comparators cleared.
pub open spec fn dwt_clear_upto_acts(n: nat) -> Seq<Act>
    decreases n,
{
    if n == 0 {
        Seq::empty()
    } else {
        dwt_clear_upto_acts((n - 1) as nat) + dwt_clear_acts(n - 1)
    }
}

/// A comparator is enabled, covers the word of its instruction, and selects
/// the half that holds the instruction.
pub proof fn fp_comp_selects(addr: u32)
    requires
        addr < CODE_END,
    ensures
        fp_comp(addr) & 1 == 1,
        fp_comp(addr) & 0x1FFF_FFFC == addr & !0x3u32,
        fp_comp(addr) >> 30u32 == if addr & 2 == 0 { 1u32 } else { 2u32 },
{
    assert(addr < 0x2000_0000 ==> ({
        let r = if addr & 2 == 0 { 1u32 } else { 2u32 };
        let c = (addr & !0x3u32) | 0x1 | (r << 30u32);
        &&& c & 1 == 1
        &&& c & 0x1FFF_FFFC == addr & !0x3u32
        &&& c >> 30u32 == r
    })) by (bit_vector);
}

/// Two addresses share a comparator value only where they name the same
/// half-word.
pub proof fn fp_comp_distinguishes(a: u32, b: u32)
    requires
        a < CODE_END,
        b < CODE_END,
        fp_comp(a) == fp_comp(b),
    ensures
        a / 2 == b / 2,
{
    let x = fp_comp(a);
    fp_comp_selects(a);
    fp_comp_selects(b);
    assert(a / 2 == b / 2) by (bit_vector)
        requires
            a & !0x3u32 == b & !0x3u32,
            (a & 2 == 0) == (b & 2 == 0),
    ;
}

/// The debug units by their addresses: six instruction comparators from 0xE0002008 on, four
/// bytes each, under the control register at 0xE0002000; four data comparators from 0xE0001020
/// on, sixteen bytes each, whose function is 6 for writes and 7 for every access.
pub proof fn comparators_by_address(id: int, addr: u32, write_only: bool)
    ensures
        fpb_accepts(id, addr) <==> 0 <= id < 6 && addr < 0x2000_0000,
        fpb_accepts(id, addr) ==> fpb_set_acts(id, addr) == seq![
            Act::Write { addr: 0xE000_2000, val: 3 },
            Act::Write { addr: (0xE000_2008 + 4 * id) as u32, val: fp_comp(addr) },
        ],
        !fpb_accepts(id, addr) ==> fpb_set_acts(id, addr).len() == 0,
        0 <= id < 6 ==> fpb_clear_acts(id) == seq![
            Act::Write { addr: (0xE000_2008 + 4 * id) as u32, val: 0 },
        ],
        !(0 <= id < 6) ==> fpb_clear_acts(id).len() == 0,
        0 <= id < 4 ==> dwt_set_acts(id, addr, write_only) == seq![
            Act::Write { addr: (0xE000_1020 + 16 * id) as u32, val: addr },
            Act::Write { addr: (0xE000_1024 + 16 * id) as u32, val: 0 },
            Act::Write {
                addr: (0xE000_1028 + 16 * id) as u32,
                val: if write_only {
                    6
                } else {
                    7
                },
            },
        ],
        !(0 <= id < 4) ==> dwt_set_acts(id, addr, write_only).len() == 0,
        0 <= id < 4 ==> dwt_clear_acts(id) == seq![
            Act::Write { addr: (0xE000_1028 + 16 * id) as u32, val: 0 },
        ],
        !(0 <= id < 4) ==> dwt_clear_acts(id).len() == 0,
{
}

} // verus!
