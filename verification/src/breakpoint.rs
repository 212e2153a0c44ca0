//! The `bp` and `watch` commands: tables of breakpoints and watchpoints, and the
//! comparators that they stand for.
use crate::debug::{
    dwt_base, dwt_clear_acts, dwt_clear_upto_acts, dwt_clear_watchpoint, dwt_set_acts,
    dwt_set_watchpoint, fp_comp, fpb_clear_acts, fpb_clear_all, fpb_clear_breakpoint,
    fpb_clear_upto_acts, fpb_set_acts, fpb_set_breakpoint, fpb_slot,
};
use crate::hex::{hex32, hex_number, parse_hex};
use crate::plan::{
    at, group_run, output, output_append, output_upto, quiet_run, run, run_upto, say, text,
    untouched, within, within_append, within_push, writes_within, Act, Memory, Plan, Regs,
};
use crate::regs::{
    CODE_END, DWT_COMP_BASE, DWT_END, DWT_FUNCTION_OFFSET, DWT_MASK_OFFSET, DWT_MAX_COMP,
    FPB_COMP_BASE, FPB_CTRL, FPB_END, FPB_MAX_COMP,
};
use crate::words::{contents, word_is};
use vstd::prelude::*;

verus! {

/// The first slot at or behind `i` that is not in use; the table's length where
/// there is none. Address zero can be in use like any other.
pub open spec fn free_from(table: Seq<Option<u32>>, i: int) -> int
    decreases table.len() - i,
{
    if i >= table.len() || table[i] is None {
        i
    } else {
        free_from(table, i + 1)
    }
}

/// The first free slot of a table.
pub open spec fn first_free(table: Seq<Option<u32>>) -> int {
    free_from(table, 0)
}

/// One line of a listing.
pub open spec fn slot_acts(i: int, slot: Option<u32>) -> Seq<Act> {
    seq![say("  ["), Act::Send(seq![(48 + i) as u8]), say("] ")] + (match slot {
        Some(addr) => seq![say("0x"), Act::Send(hex32(addr))],
        None => seq![say("empty")],
    }) + seq![say("\r\n")]
}

/// The first `n` lines of a listing.
pub open spec fn list_acts(table: Seq<Option<u32>>, n: nat) -> Seq<Act>
    decreases n,
{
    if n == 0 {
        Seq::empty()
    } else {
        list_acts(table, (n - 1) as nat) + slot_acts(n - 1, table[n - 1])
    }
}

/// Lists a table, one slot a line.
pub fn list_slots(table: &[Option<u32>]) -> (p: Plan)
    requires
        table@.len() <= 10,
    ensures
        p@ == list_acts(table@, table@.len()),
{
    let mut p: Plan = Plan::new();
    let mut i: usize = 0;
    while i < table.len()
        invariant
            i <= table@.len() <= 10,
            p@ == list_acts(table@, i as nat),
        decreases table@.len() - i,
    {
        let ghost before = p@;
        p.say("  [");
        p.say_byte(48 + i as u8);
        p.say("] ");
        match table[i] {
            Some(addr) => {
                p.say("0x");
                p.say_hex32(addr);
            },
            None => {
                p.say("empty");
            },
        }
        p.say("\r\n");
        assert(p@ =~= before + slot_acts(i as int, table@[i as int]));
        i = i + 1;
    }
    p
}

/// A table's first free slot.
fn find_free(table: &[Option<u32>]) -> (i: usize)
    ensures
        i == first_free(table@),
        i <= table@.len(),
        i < table@.len() ==> table@[i as int] is None,
{
    let mut i: usize = 0;
    while i < table.len() && table[i].is_some()
        invariant
            i <= table@.len(),
            free_from(table@, 0) == free_from(table@, i as int),
        decreases table@.len() - i,
    {
        i = i + 1;
    }
    i
}

// ---------------------------------------------------------------------------
// Breakpoints
// ---------------------------------------------------------------------------

/// What `bp` does, by its arguments and the breakpoints set so far.
pub open spec fn bp_acts(args: Seq<Seq<u8>>, table: Seq<Option<u32>>) -> Seq<Act> {
    if args.len() == 0 {
        seq![say("Usage: bp <addr> | bp clear [id] | bp list\r\n")]
    } else if args[0] == text("list") {
        list_acts(table, table.len())
    } else if args[0] == text("clear") {
        if args.len() > 1 {
            match hex_number(args[1]) {
                Some(id) => if id < FPB_MAX_COMP {
                    fpb_clear_acts(id as int).push(say("BP cleared\r\n"))
                } else {
                    seq![say("Invalid BP id\r\n")]
                },
                None => Seq::empty(),
            }
        } else {
            fpb_clear_upto_acts(FPB_MAX_COMP as nat).push(say("All BPs cleared\r\n"))
        }
    } else {
        match hex_number(args[0]) {
            None => seq![say("Bad address\r\n")],
            Some(addr) => if addr >= CODE_END {
                seq![say("FPB only supports code region (<0x20000000)\r\n")]
            } else if first_free(table) < table.len() {
                fpb_set_acts(first_free(table), addr) + seq![
                    say("BP ["),
                    Act::Send(seq![(48 + first_free(table)) as u8]),
                    say("] set at 0x"),
                    Act::Send(hex32(addr)),
                    say("\r\n"),
                ]
            } else {
                seq![say("No free BP slots\r\n")]
            },
        }
    }
}

/// The breakpoints after `bp`.
pub open spec fn bp_table(args: Seq<Seq<u8>>, table: Seq<Option<u32>>) -> Seq<Option<u32>> {
    if args.len() == 0 || args[0] == text("list") {
        table
    } else if args[0] == text("clear") {
        if args.len() > 1 {
            match hex_number(args[1]) {
                Some(id) => if id < FPB_MAX_COMP {
                    table.update(id as int, None)
                } else {
                    table
                },
                None => table,
            }
        } else {
            Seq::new(table.len(), |i: int| None::<u32>)
        }
    } else {
        match hex_number(args[0]) {
            Some(addr) => if addr < CODE_END && first_free(table) < table.len() {
                table.update(first_free(table), Some(addr))
            } else {
                table
            },
            None => table,
        }
    }
}

/// `bp <addr>`, `bp clear [id]` and `bp list`.
pub fn cmd_bp(args: &[Vec<u8>], bp_addrs: &mut [Option<u32>; FPB_MAX_COMP]) -> (p: Plan)
    ensures
        p@ == bp_acts(contents(args@), old(bp_addrs)@),
        final(bp_addrs)@ == bp_table(contents(args@), old(bp_addrs)@),
{
    let mut p: Plan = Plan::new();
    if args.len() == 0 {
        p.say("Usage: bp <addr> | bp clear [id] | bp list\r\n");
        return p;
    }
    if word_is(args[0].as_slice(), "list") {
        return list_slots(bp_addrs.as_slice());
    }
    if word_is(args[0].as_slice(), "clear") {
        if args.len() > 1 {
            if let Some(id) = parse_hex(args[1].as_slice()) {
                if (id as usize) < FPB_MAX_COMP {
                    p = fpb_clear_breakpoint(id as usize);
                    bp_addrs[id as usize] = None;
                    p.say("BP cleared\r\n");
                } else {
                    p.say("Invalid BP id\r\n");
                }
            }
        } else {
            p = fpb_clear_all();
            *bp_addrs = [None; FPB_MAX_COMP];
            p.say("All BPs cleared\r\n");
        }
        return p;
    }
    let addr: u32 = match parse_hex(args[0].as_slice()) {
        Some(a) => a,
        None => {
            p.say("Bad address\r\n");
            return p;
        },
    };
    if addr >= CODE_END {
        p.say("FPB only supports code region (<0x20000000)\r\n");
        return p;
    }
    let i: usize = find_free(bp_addrs.as_slice());
    if i < FPB_MAX_COMP {
        let (ok, set) = fpb_set_breakpoint(i, addr);
        p = set;
        if ok {
            bp_addrs[i] = Some(addr);
            p.say("BP [");
            p.say_byte(48 + i as u8);
            p.say("] set at 0x");
            p.say_hex32(addr);
            p.say("\r\n");
        } else {
            p.say("Failed to set BP\r\n");
        }
        return p;
    }
    p.say("No free BP slots\r\n");
    p
}

// ---------------------------------------------------------------------------
// Watchpoints
// ---------------------------------------------------------------------------

/// What `watch` does, by its arguments and the watchpoints set so far.
pub open spec fn watch_acts(args: Seq<Seq<u8>>, table: Seq<Option<u32>>) -> Seq<Act> {
    if args.len() == 0 {
        seq![say("Usage: watch <addr> | watch clear [id] | watch list\r\n")]
    } else if args[0] == text("list") {
        list_acts(table, table.len())
    } else if args[0] == text("clear") {
        if args.len() > 1 {
            match hex_number(args[1]) {
                Some(id) => if id < DWT_MAX_COMP {
                    dwt_clear_acts(id as int).push(say("Watch cleared\r\n"))
                } else {
                    Seq::empty()
                },
                None => Seq::empty(),
            }
        } else {
            dwt_clear_upto_acts(DWT_MAX_COMP as nat).push(say("All watches cleared\r\n"))
        }
    } else {
        match hex_number(args[0]) {
            None => seq![say("Bad address\r\n")],
            Some(addr) => if first_free(table) < table.len() {
                dwt_set_acts(first_free(table), addr, true) + seq![
                    say("Watch ["),
                    Act::Send(seq![(48 + first_free(table)) as u8]),
                    say("] on write to 0x"),
                    Act::Send(hex32(addr)),
                    say("\r\n"),
                ]
            } else {
                seq![say("No free watch slots\r\n")]
            },
        }
    }
}

/// The watchpoints after `watch`.
pub open spec fn watch_table(args: Seq<Seq<u8>>, table: Seq<Option<u32>>) -> Seq<Option<u32>> {
    if args.len() == 0 || args[0] == text("list") {
        table
    } else if args[0] == text("clear") {
        if args.len() > 1 {
            match hex_number(args[1]) {
                Some(id) => if id < DWT_MAX_COMP {
                    table.update(id as int, None)
                } else {
                    table
                },
                None => table,
            }
        } else {
            Seq::new(table.len(), |i: int| None::<u32>)
        }
    } else {
        match hex_number(args[0]) {
            Some(addr) => if first_free(table) < table.len() {
                table.update(first_free(table), Some(addr))
            } else {
                table
            },
            None => table,
        }
    }
}

/// `watch <addr>`, `watch clear [id]` and `watch list`.
pub fn cmd_watch(args: &[Vec<u8>], watch_addrs: &mut [Option<u32>; DWT_MAX_COMP]) -> (p: Plan)
    ensures
        p@ == watch_acts(contents(args@), old(watch_addrs)@),
        final(watch_addrs)@ == watch_table(contents(args@), old(watch_addrs)@),
{
    let mut p: Plan = Plan::new();
    if args.len() == 0 {
        p.say("Usage: watch <addr> | watch clear [id] | watch list\r\n");
        return p;
    }
    if word_is(args[0].as_slice(), "list") {
        return list_slots(watch_addrs.as_slice());
    }
    if word_is(args[0].as_slice(), "clear") {
        if args.len() > 1 {
            if let Some(id) = parse_hex(args[1].as_slice()) {
                if (id as usize) < DWT_MAX_COMP {
                    p = dwt_clear_watchpoint(id as usize);
                    watch_addrs[id as usize] = None;
                    p.say("Watch cleared\r\n");
                }
            }
        } else {
            let mut i: usize = 0;
            while i < DWT_MAX_COMP
                invariant
                    i <= DWT_MAX_COMP,
                    p@ == dwt_clear_upto_acts(i as nat),
                decreases DWT_MAX_COMP - i,
            {
                p.append(dwt_clear_watchpoint(i));
                i = i + 1;
            }
            *watch_addrs = [None; DWT_MAX_COMP];
            p.say("All watches cleared\r\n");
        }
        return p;
    }
    let addr: u32 = match parse_hex(args[0].as_slice()) {
        Some(a) => a,
        None => {
            p.say("Bad address\r\n");
            return p;
        },
    };
    let i: usize = find_free(watch_addrs.as_slice());
    if i < DWT_MAX_COMP {
        let (ok, set) = dwt_set_watchpoint(i, addr, true);
        p = set;
        if ok {
            watch_addrs[i] = Some(addr);
            p.say("Watch [");
            p.say_byte(48 + i as u8);
            p.say("] on write to 0x");
            p.say_hex32(addr);
            p.say("\r\n");
        }
        return p;
    }
    p.say("No free watch slots\r\n");
    p
}

// ---------------------------------------------------------------------------
// What the tables promise
// ---------------------------------------------------------------------------

/// The first free slot is free, and no slot before it is.
pub proof fn first_free_is_first(table: Seq<Option<u32>>)
    ensures
        0 <= first_free(table) <= table.len(),
        first_free(table) < table.len() ==> table[first_free(table)] is None,
        forall|j: int| 0 <= j < first_free(table) ==> #[trigger] table[j] is Some,
{
    free_from_is_first(table, 0);
}

proof fn free_from_is_first(table: Seq<Option<u32>>, i: int)
    requires
        0 <= i <= table.len(),
    ensures
        i <= free_from(table, i) <= table.len(),
        free_from(table, i) < table.len() ==> table[free_from(table, i)] is None,
        forall|j: int| i <= j < free_from(table, i) ==> #[trigger] table[j] is Some,
    decreases table.len() - i,
{
    if i < table.len() && table[i] is Some {
        free_from_is_first(table, i + 1);
    }
}

/// Every breakpoint lies in the code region.
pub open spec fn in_code(table: Seq<Option<u32>>) -> bool {
    forall|i: int|
        0 <= i < table.len() ==> (#[trigger] table[i] matches Some(addr) ==> addr < CODE_END)
}

/// No `bp` command puts a breakpoint outside the code region, and none changes
/// the number of slots.
pub proof fn bp_stays_in_code(args: Seq<Seq<u8>>, table: Seq<Option<u32>>)
    requires
        in_code(table),
        table.len() == FPB_MAX_COMP,
    ensures
        in_code(bp_table(args, table)),
        bp_table(args, table).len() == FPB_MAX_COMP,
{
    first_free_is_first(table);
}

/// The arguments of `bp <addr>` with a usable address, and not the words of
/// the other forms.
pub open spec fn asks_to_set(args: Seq<Seq<u8>>, addr: u32) -> bool {
    &&& args.len() > 0
    &&& args[0] != text("list")
    &&& args[0] != text("clear")
    &&& hex_number(args[0]) == Some(addr)
}

/// The arguments of `bp clear <id>`.
pub open spec fn asks_to_clear(args: Seq<Seq<u8>>, id: u32) -> bool {
    &&& args.len() > 1
    &&& args[0] == text("clear")
    &&& hex_number(args[1]) == Some(id)
}

/// A breakpoint that is set is in the table afterwards, in the slot that was
/// the first free one, and no other slot changes.
pub proof fn bp_set_records(args: Seq<Seq<u8>>, table: Seq<Option<u32>>, addr: u32)
    requires
        asks_to_set(args, addr),
        addr < CODE_END,
        first_free(table) < table.len(),
    ensures
        bp_table(args, table)[first_free(table)] == Some(addr),
        forall|j: int|
            0 <= j < table.len() && j != first_free(table) ==> #[trigger] bp_table(args, table)[j]
                == table[j],
{
    first_free_is_first(table);
}

/// An active breakpoint is listed with its address, whatever that is, and a slot
/// is listed as empty only where it holds none.
pub proof fn active_slots_are_listed(i: int, slot: Option<u32>)
    ensures
        slot matches Some(addr) ==> slot_acts(i, slot)[4] == Act::Send(hex32(addr)),
        slot is None ==> slot_acts(i, slot)[3] == say("empty"),
{
}

/// Clearing the slot that a breakpoint went into undoes setting it.
pub proof fn bp_clear_undoes_set(
    set: Seq<Seq<u8>>,
    clear: Seq<Seq<u8>>,
    table: Seq<Option<u32>>,
    addr: u32,
)
    requires
        table.len() == FPB_MAX_COMP,
        asks_to_set(set, addr),
        addr < CODE_END,
        first_free(table) < table.len(),
        asks_to_clear(clear, first_free(table) as u32),
    ensures
        bp_table(clear, bp_table(set, table)) == table,
{
    clear_is_not_list();
    first_free_is_first(table);
    assert(bp_table(clear, bp_table(set, table)) =~= table);
}

/// With every slot taken, no breakpoint is set.
pub proof fn bp_full_table_refuses(args: Seq<Seq<u8>>, table: Seq<Option<u32>>, addr: u32)
    requires
        asks_to_set(args, addr),
        addr < CODE_END,
        forall|i: int| 0 <= i < table.len() ==> #[trigger] table[i] is Some,
    ensures
        bp_table(args, table) == table,
        bp_acts(args, table) == seq![say("No free BP slots\r\n")],
{
    first_free_is_first(table);
}

/// The comparator of every recorded breakpoint breaks at its address.
pub open spec fn bp_armed(table: Seq<Option<u32>>, regs: Regs) -> bool {
    forall|i: int|
        0 <= i < FPB_MAX_COMP && table[i] is Some ==> regs[#[trigger] at(
            FPB_COMP_BASE,
            fpb_slot(i),
        )] == fp_comp(table[i]->0)
}

/// The words of the two sub-commands differ.
proof fn clear_is_not_list()
    ensures
        text("clear") != text("list"),
{
    reveal_strlit("clear");
    reveal_strlit("list");
    assert("clear".is_ascii() && "list".is_ascii());
    assert(text("clear").len() == 5 && text("list").len() == 4);
}

proof fn slot_touches_nothing(i: int, slot: Option<u32>, regs: Regs)
    ensures
        run(slot_acts(i, slot), regs) == regs,
{
    quiet_run(slot_acts(i, slot), regs);
}

proof fn list_touches_nothing(table: Seq<Option<u32>>, n: nat, regs: Regs)
    ensures
        run(list_acts(table, n), regs) == regs,
    decreases n,
{
    broadcast use group_run;

    if n > 0 {
        list_touches_nothing(table, (n - 1) as nat, regs);
        slot_touches_nothing(n - 1, table[n - 1], regs);
    }
}

proof fn clear_upto_clears(n: nat, regs: Regs)
    requires
        n <= FPB_MAX_COMP,
    ensures
        forall|i: int|
            0 <= i < n ==> run(fpb_clear_upto_acts(n), regs)[#[trigger] at(
                FPB_COMP_BASE,
                fpb_slot(i),
            )] == 0,
    decreases n,
{
    broadcast use group_run;

    if n > 0 {
        clear_upto_clears((n - 1) as nat, regs);
    }
}

/// The comparators follow the table through every `bp` command.
pub proof fn bp_keeps_comparators(args: Seq<Seq<u8>>, table: Seq<Option<u32>>, regs: Regs)
    requires
        table.len() == FPB_MAX_COMP,
        bp_armed(table, regs),
    ensures
        bp_armed(bp_table(args, table), run(bp_acts(args, table), regs)),
{
    broadcast use group_run;

    first_free_is_first(table);
    list_touches_nothing(table, table.len(), regs);
    clear_upto_clears(FPB_MAX_COMP as nat, regs);
    if args.len() > 0 && args[0] != text("list") && args[0] != text("clear") && first_free(table)
        < table.len() {
        if let Some(addr) = hex_number(args[0]) {
            if addr < CODE_END {
                let k = first_free(table);
                let told = seq![
                    say("BP ["),
                    Act::Send(seq![(48 + k) as u8]),
                    say("] set at 0x"),
                    Act::Send(hex32(addr)),
                    say("\r\n"),
                ];
                let mid = run(fpb_set_acts(k, addr), regs);
                reveal_with_fuel(run_upto, 3);
                quiet_run(told, mid);
                assert(run(bp_acts(args, table), regs) == mid);
                assert(mid == regs.insert(FPB_CTRL, 3).insert(
                    at(FPB_COMP_BASE, fpb_slot(k)),
                    fp_comp(addr),
                ));
            }
        }
    }
}

/// `bp clear` without an id disables every comparator and empties the table.
pub proof fn bp_clear_all_disables(args: Seq<Seq<u8>>, table: Seq<Option<u32>>, regs: Regs)
    requires
        args.len() == 1,
        args[0] == text("clear"),
        table.len() == FPB_MAX_COMP,
    ensures
        forall|i: int| 0 <= i < FPB_MAX_COMP ==> #[trigger] bp_table(args, table)[i] is None,
        forall|i: int|
            0 <= i < FPB_MAX_COMP ==> run(bp_acts(args, table), regs)[#[trigger] at(
                FPB_COMP_BASE,
                fpb_slot(i),
            )] == 0,
{
    broadcast use group_run;

    clear_is_not_list();
    clear_upto_clears(FPB_MAX_COMP as nat, regs);
}

/// The comparator of every recorded watchpoint watches its address.
pub open spec fn watch_armed(table: Seq<Option<u32>>, regs: Regs) -> bool {
    forall|i: int|
        0 <= i < DWT_MAX_COMP && table[i] is Some ==> {
            &&& regs[#[trigger] dwt_base(i)] == table[i]->0
            &&& regs[at(dwt_base(i), DWT_MASK_OFFSET)] == 0
            &&& regs[at(dwt_base(i), DWT_FUNCTION_OFFSET)] == 0x6
        }
}

/// The data comparators follow the table through every `watch` command.
pub proof fn watch_keeps_comparators(args: Seq<Seq<u8>>, table: Seq<Option<u32>>, regs: Regs)
    requires
        table.len() == DWT_MAX_COMP,
        watch_armed(table, regs),
    ensures
        watch_armed(watch_table(args, table), run(watch_acts(args, table), regs)),
        watch_table(args, table).len() == DWT_MAX_COMP,
{
    broadcast use group_run;

    first_free_is_first(table);
    list_touches_nothing(table, table.len(), regs);
    if args.len() > 0 && args[0] != text("list") && args[0] != text("clear") && first_free(table)
        < table.len() {
        if let Some(addr) = hex_number(args[0]) {
            let k = first_free(table);
            let told = seq![
                say("Watch ["),
                Act::Send(seq![(48 + k) as u8]),
                say("] on write to 0x"),
                Act::Send(hex32(addr)),
                say("\r\n"),
            ];
            let mid = run(dwt_set_acts(k, addr, true), regs);
            reveal_with_fuel(run_upto, 4);
            quiet_run(told, mid);
            assert(run(watch_acts(args, table), regs) == mid);
            assert(mid == regs.insert(dwt_base(k), addr).insert(
                at(dwt_base(k), DWT_MASK_OFFSET),
                0,
            ).insert(at(dwt_base(k), DWT_FUNCTION_OFFSET), 0x6));
        }
    }
}

proof fn list_spares(table: Seq<Option<u32>>, n: nat, lo: u32, hi: u32)
    ensures
        within(list_acts(table, n), lo, hi),
    decreases n,
{
    if n > 0 {
        list_spares(table, (n - 1) as nat, lo, hi);
        assert(within(slot_acts(n - 1, table[n - 1]), lo, hi));
    }
}

proof fn clear_upto_spares(n: nat)
    ensures
        within(fpb_clear_upto_acts(n), FPB_CTRL, FPB_END),
        within(dwt_clear_upto_acts(n), DWT_COMP_BASE, DWT_END),
    decreases n,
{
    if n > 0 {
        clear_upto_spares((n - 1) as nat);
        assert(within(fpb_clear_acts(n - 1), FPB_CTRL, FPB_END));
        assert(within(dwt_clear_acts(n - 1), DWT_COMP_BASE, DWT_END));
    }
}

/// `bp` writes nothing but the breakpoint unit.
pub proof fn bp_writes_breakpoint_unit_only(args: Seq<Seq<u8>>, table: Seq<Option<u32>>)
    ensures
        within(bp_acts(args, table), FPB_CTRL, FPB_END),
{
    let acts = bp_acts(args, table);
    if args.len() == 0 {
        assert(acts.len() == 1 && acts[0] is Send);
    } else if args[0] == text("list") {
        list_spares(table, table.len(), FPB_CTRL, FPB_END);
    } else if args[0] == text("clear") {
        if args.len() > 1 {
            assert(acts.len() <= 2);
            assert(acts.len() > 0 ==> writes_within(acts[0], FPB_CTRL, FPB_END));
            assert(acts.len() > 1 ==> writes_within(acts[1], FPB_CTRL, FPB_END));
        } else {
            clear_upto_spares(FPB_MAX_COMP as nat);
            within_push(fpb_clear_upto_acts(FPB_MAX_COMP as nat), acts.last(), FPB_CTRL, FPB_END);
        }
    } else if let Some(addr) = hex_number(args[0]) {
        if addr < CODE_END && first_free(table) < table.len() {
            let k = first_free(table);
            let told = seq![
                say("BP ["),
                Act::Send(seq![(48 + k) as u8]),
                say("] set at 0x"),
                Act::Send(hex32(addr)),
                say("\r\n"),
            ];
            assert(within(told, FPB_CTRL, FPB_END));
            assert(within(fpb_set_acts(k, addr), FPB_CTRL, FPB_END));
            within_append(fpb_set_acts(k, addr), told, FPB_CTRL, FPB_END);
            assert(acts == fpb_set_acts(k, addr) + told);
        } else {
            assert(acts.len() == 1 && acts[0] is Send);
        }
    } else {
        assert(acts.len() == 1 && acts[0] is Send);
    }
}

/// `watch` writes nothing but the data comparators.
pub proof fn watch_writes_comparators_only(args: Seq<Seq<u8>>, table: Seq<Option<u32>>)
    ensures
        within(watch_acts(args, table), DWT_COMP_BASE, DWT_END),
{
    let acts = watch_acts(args, table);
    if args.len() == 0 {
        assert(acts.len() == 1 && acts[0] is Send);
    } else if args[0] == text("list") {
        list_spares(table, table.len(), DWT_COMP_BASE, DWT_END);
    } else if args[0] == text("clear") {
        if args.len() > 1 {
            assert(acts.len() <= 2);
            assert(acts.len() > 0 ==> writes_within(acts[0], DWT_COMP_BASE, DWT_END));
            assert(acts.len() > 1 ==> writes_within(acts[1], DWT_COMP_BASE, DWT_END));
        } else {
            clear_upto_spares(DWT_MAX_COMP as nat);
            within_push(
                dwt_clear_upto_acts(DWT_MAX_COMP as nat),
                acts.last(),
                DWT_COMP_BASE,
                DWT_END,
            );
        }
    } else if let Some(addr) = hex_number(args[0]) {
        if first_free(table) < table.len() {
            let k = first_free(table);
            let told = seq![
                say("Watch ["),
                Act::Send(seq![(48 + k) as u8]),
                say("] on write to 0x"),
                Act::Send(hex32(addr)),
                say("\r\n"),
            ];
            assert(within(told, DWT_COMP_BASE, DWT_END));
            assert(within(dwt_set_acts(k, addr, true), DWT_COMP_BASE, DWT_END));
            within_append(dwt_set_acts(k, addr, true), told, DWT_COMP_BASE, DWT_END);
            assert(acts == dwt_set_acts(k, addr, true) + told);
        } else {
            assert(acts.len() == 1 && acts[0] is Send);
        }
    } else {
        assert(acts.len() == 1 && acts[0] is Send);
    }
}

/// Breakpoints and watchpoints do not get into each other's way.
pub proof fn units_are_independent(
    args: Seq<Seq<u8>>,
    bp: Seq<Option<u32>>,
    watch: Seq<Option<u32>>,
    regs: Regs,
)
    requires
        bp_armed(bp, regs),
        watch_armed(watch, regs),
    ensures
        watch_armed(watch, run(bp_acts(args, bp), regs)),
        bp_armed(bp, run(watch_acts(args, watch), regs)),
{
    bp_writes_breakpoint_unit_only(args, bp);
    watch_writes_comparators_only(args, watch);
    let a = run(bp_acts(args, bp), regs);
    let b = run(watch_acts(args, watch), regs);
    assert forall|i: int| 0 <= i < DWT_MAX_COMP && watch[i] is Some implies {
        &&& a[#[trigger] dwt_base(i)] == watch[i]->0
        &&& a[at(dwt_base(i), DWT_MASK_OFFSET)] == 0
        &&& a[at(dwt_base(i), DWT_FUNCTION_OFFSET)] == 0x6
    } by {
        untouched(bp_acts(args, bp), FPB_CTRL, FPB_END, regs, dwt_base(i));
        untouched(bp_acts(args, bp), FPB_CTRL, FPB_END, regs, at(dwt_base(i), DWT_MASK_OFFSET));
        untouched(
            bp_acts(args, bp),
            FPB_CTRL,
            FPB_END,
            regs,
            at(dwt_base(i), DWT_FUNCTION_OFFSET),
        );
    }
    assert forall|i: int| 0 <= i < FPB_MAX_COMP && bp[i] is Some implies b[#[trigger] at(
        FPB_COMP_BASE,
        fpb_slot(i),
    )] == fp_comp(bp[i]->0) by {
        untouched(
            watch_acts(args, watch),
            DWT_COMP_BASE,
            DWT_END,
            regs,
            at(FPB_COMP_BASE, fpb_slot(i)),
        );
    }
}

/// Asking for a watchpoint records the address in the first free slot and changes
/// no other.
pub proof fn watch_set_records(args: Seq<Seq<u8>>, table: Seq<Option<u32>>, addr: u32)
    requires
        asks_to_set(args, addr),
        table.len() == DWT_MAX_COMP,
        first_free(table) < table.len(),
    ensures
        watch_table(args, table) == table.update(first_free(table), Some(addr)),
{
    first_free_is_first(table);
}

/// Clearing the slot that a watchpoint went into takes it back.
pub proof fn watch_clear_undoes_set(
    set: Seq<Seq<u8>>,
    clear: Seq<Seq<u8>>,
    table: Seq<Option<u32>>,
    addr: u32,
)
    requires
        asks_to_set(set, addr),
        table.len() == DWT_MAX_COMP,
        first_free(table) < table.len(),
        asks_to_clear(clear, first_free(table) as u32),
    ensures
        watch_table(clear, watch_table(set, table)) == table,
{
    first_free_is_first(table);
    clear_is_not_list();
    watch_set_records(set, table, addr);
    assert(watch_table(clear, watch_table(set, table)) =~= table);
}

/// A full table refuses a watchpoint and stays as it is.
pub proof fn watch_full_table_refuses(args: Seq<Seq<u8>>, table: Seq<Option<u32>>, addr: u32)
    requires
        asks_to_set(args, addr),
        table.len() == DWT_MAX_COMP,
        forall|i: int| 0 <= i < table.len() ==> #[trigger] table[i] is Some,
    ensures
        watch_table(args, table) == table,
        watch_acts(args, table) == seq![say("No free watch slots\r\n")],
{
    first_free_is_first(table);
}

// ---------------------------------------------------------------------------
// Comparators by address
// ---------------------------------------------------------------------------

/// The value that an instruction comparator needs to break at `addr`: the word that holds
/// the instruction, which half of it, and the enable bit.
pub open spec fn breaks_at(addr: u32) -> u32 {
    ((addr - addr % 4) + 1 + (if addr % 4 < 2 {
        0x4000_0000int
    } else {
        0x8000_0000int
    })) as u32
}

proof fn comparator_value(addr: u32)
    requires
        addr < 0x2000_0000,
    ensures
        fp_comp(addr) == breaks_at(addr),
{
    assert((addr & !0x3u32) | 0x1 | ((if addr & 0x2 == 0 {
        1u32
    } else {
        2u32
    }) << 30u32) == (addr - addr % 4) + 1 + (if addr % 4 < 2 {
        0x4000_0000u32
    } else {
        0x8000_0000u32
    })) by (bit_vector)
        requires
            addr < 0x2000_0000,
    ;
}

/// Whether `k` is the first slot of a table that is not in use.
pub open spec fn is_first_free(table: Seq<Option<u32>>, k: int) -> bool {
    &&& 0 <= k < table.len()
    &&& table[k] is None
    &&& forall|j: int| 0 <= j < k ==> #[trigger] table[j] is Some
}

proof fn first_free_is(table: Seq<Option<u32>>, k: int)
    requires
        is_first_free(table, k),
    ensures
        first_free(table) == k,
{
    first_free_is_first(table);
    if first_free(table) > k {
        assert(table[k] is Some);
    }
    if first_free(table) < k {
        assert(table[first_free(table)] is Some);
    }
}

/// `bp` with an address below 0x20000000 takes the first of the six slots that is free: the
/// comparator at 0xE0002008 and four bytes on for each slot breaks at the address, the unit
/// is enabled at 0xE0002000, no other word changes, and the slot and the address are told.
pub proof fn bp_sets_comparator(
    args: Seq<Seq<u8>>,
    table: Seq<Option<u32>>,
    addr: u32,
    k: int,
    regs: Regs,
    mem: Memory,
)
    requires
        table.len() == 6,
        asks_to_set(args, addr),
        addr < 0x2000_0000,
        is_first_free(table, k),
    ensures
        run(bp_acts(args, table), regs) == regs.insert(0xE000_2000, 3).insert(
            (0xE000_2008 + 4 * k) as u32,
            breaks_at(addr),
        ),
        bp_table(args, table) == table.update(k, Some(addr)),
        output(bp_acts(args, table), mem) == text("BP [") + seq![(48 + k) as u8] + text(
            "] set at 0x",
        ) + hex32(addr) + text("\r\n"),
{
    broadcast use group_run;

    first_free_is(table, k);
    comparator_value(addr);
    let set = fpb_set_acts(k, addr);
    let told = seq![
        say("BP ["),
        Act::Send(seq![(48 + k) as u8]),
        say("] set at 0x"),
        Act::Send(hex32(addr)),
        say("\r\n"),
    ];
    assert(bp_acts(args, table) == set + told);
    reveal_with_fuel(run_upto, 3);
    quiet_run(told, run(set, regs));
    output_append(set, told, mem);
    reveal_with_fuel(output_upto, 6);
    assert(output(set, mem) =~= Seq::<u8>::empty());
    assert(output(told, mem) =~= text("BP [") + seq![(48 + k) as u8] + text("] set at 0x") + hex32(
        addr,
    ) + text("\r\n"));
    assert(output(set, mem) + output(told, mem) =~= output(told, mem));
}

/// A breakpoint outside the code region, a seventh one, and an address that is none are
/// refused: nothing is written and nothing recorded.
pub proof fn bp_refuses(args: Seq<Seq<u8>>, table: Seq<Option<u32>>, regs: Regs, mem: Memory)
    requires
        args.len() > 0,
        args[0] != text("list"),
        args[0] != text("clear"),
        table.len() == 6,
        hex_number(args[0]) is Some && hex_number(args[0])->0 < 0x2000_0000 ==> forall|j: int|
            0 <= j < 6 ==> #[trigger] table[j] is Some,
    ensures
        run(bp_acts(args, table), regs) == regs,
        bp_table(args, table) == table,
        output(bp_acts(args, table), mem) == match hex_number(args[0]) {
            None => text("Bad address\r\n"),
            Some(addr) => if addr >= 0x2000_0000 {
                text("FPB only supports code region (<0x20000000)\r\n")
            } else {
                text("No free BP slots\r\n")
            },
        },
{
    first_free_is_first(table);
    reveal_with_fuel(output_upto, 2);
    let acts = bp_acts(args, table);
    assert(acts.len() == 1 && acts[0] is Send);
    quiet_run(acts, regs);
    assert(output(acts, mem) =~= acts[0]->Send_0);
}

/// `bp clear` with the number of a slot, 0 to 5, empties the slot and writes zero to its
/// comparator, and to nothing else; with a larger number it does nothing.
pub proof fn bp_clears_comparator(
    args: Seq<Seq<u8>>,
    table: Seq<Option<u32>>,
    id: u32,
    regs: Regs,
    mem: Memory,
)
    requires
        table.len() == 6,
        asks_to_clear(args, id),
    ensures
        id < 6 ==> run(bp_acts(args, table), regs) == regs.insert(
            (0xE000_2008 + 4 * id) as u32,
            0,
        ),
        id < 6 ==> bp_table(args, table) == table.update(id as int, None),
        id >= 6 ==> run(bp_acts(args, table), regs) == regs,
        id >= 6 ==> bp_table(args, table) == table,
        output(bp_acts(args, table), mem) == if id < 6 {
            text("BP cleared\r\n")
        } else {
            text("Invalid BP id\r\n")
        },
{
    clear_is_not_list();
    reveal_with_fuel(run_upto, 3);
    reveal_with_fuel(output_upto, 3);
    assert(output(bp_acts(args, table), mem) =~= if id < 6 {
        text("BP cleared\r\n")
    } else {
        text("Invalid BP id\r\n")
    });
}

/// `bp clear` alone empties all six slots and writes zero to all six comparators.
pub proof fn bp_clears_all(args: Seq<Seq<u8>>, table: Seq<Option<u32>>, i: int, regs: Regs)
    requires
        args.len() == 1,
        args[0] == text("clear"),
        table.len() == 6,
        0 <= i < 6,
    ensures
        bp_table(args, table).len() == 6,
        bp_table(args, table)[i] is None,
        run(bp_acts(args, table), regs)[(0xE000_2008 + 4 * i) as u32] == 0,
        bp_acts(args, table).last() == say("All BPs cleared\r\n"),
{
    bp_clear_all_disables(args, table, regs);
    clear_is_not_list();
    assert(at(FPB_COMP_BASE, fpb_slot(i)) == (0xE000_2008 + 4 * i) as u32);
}

/// A line of a listing.
pub open spec fn slot_text(i: int, slot: Option<u32>) -> Seq<u8> {
    text("  [") + seq![(48 + i) as u8] + text("] ") + (match slot {
        Some(addr) => text("0x") + hex32(addr),
        None => text("empty"),
    }) + text("\r\n")
}

/// The lines of a listing.
pub open spec fn slots_text(table: Seq<Option<u32>>) -> Seq<u8>
    decreases table.len(),
{
    if table.len() == 0 {
        Seq::empty()
    } else {
        slots_text(table.drop_last()) + slot_text(table.len() - 1, table.last())
    }
}

proof fn slot_output(i: int, slot: Option<u32>, mem: Memory)
    ensures
        output(slot_acts(i, slot), mem) == slot_text(i, slot),
{
    let head = seq![say("  ["), Act::Send(seq![(48 + i) as u8]), say("] ")];
    let end = seq![say("\r\n")];
    let mid = match slot {
        Some(addr) => seq![say("0x"), Act::Send(hex32(addr))],
        None => seq![say("empty")],
    };
    output_append(head, mid, mem);
    output_append(head + mid, end, mem);
    reveal_with_fuel(output_upto, 4);
    assert(output(head, mem) =~= text("  [") + seq![(48 + i) as u8] + text("] "));
    assert(output(mid, mem) =~= match slot {
        Some(addr) => text("0x") + hex32(addr),
        None => text("empty"),
    });
    assert(output(end, mem) =~= text("\r\n"));
}

proof fn list_output(table: Seq<Option<u32>>, n: nat, mem: Memory)
    requires
        n <= table.len(),
    ensures
        output(list_acts(table, n), mem) == slots_text(table.take(n as int)),
    decreases n,
{
    if n > 0 {
        let k = (n - 1) as nat;
        list_output(table, k, mem);
        let t = table.take(n as int);
        assert(t.drop_last() =~= table.take(k as int));
        output_append(list_acts(table, k), slot_acts(n - 1, table[n - 1]), mem);
        slot_output(n - 1, table[n - 1], mem);
        assert(t.last() == table[n - 1]);
    }
}

/// `bp list` and `watch list` print every slot with its number and its address, or that it
/// is empty, and change nothing.
pub proof fn lists_print_all_slots(
    args: Seq<Seq<u8>>,
    table: Seq<Option<u32>>,
    regs: Regs,
    mem: Memory,
)
    requires
        args.len() > 0,
        args[0] == text("list"),
    ensures
        output(bp_acts(args, table), mem) == slots_text(table),
        output(watch_acts(args, table), mem) == slots_text(table),
        run(bp_acts(args, table), regs) == regs,
        run(watch_acts(args, table), regs) == regs,
        bp_table(args, table) == table,
        watch_table(args, table) == table,
{
    list_output(table, table.len(), mem);
    list_touches_nothing(table, table.len(), regs);
    assert(table.take(table.len() as int) =~= table);
}

/// `watch` with an address takes the first of the four slots that is free: the comparator at
/// 0xE0001020 and sixteen bytes on for each slot matches exactly the address, on writes, no
/// other word changes, and the slot and the address are told.
pub proof fn watch_sets_comparator(
    args: Seq<Seq<u8>>,
    table: Seq<Option<u32>>,
    addr: u32,
    k: int,
    regs: Regs,
    mem: Memory,
)
    requires
        table.len() == 4,
        asks_to_set(args, addr),
        is_first_free(table, k),
    ensures
        run(watch_acts(args, table), regs) == regs.insert(
            (0xE000_1020 + 16 * k) as u32,
            addr,
        ).insert((0xE000_1024 + 16 * k) as u32, 0).insert((0xE000_1028 + 16 * k) as u32, 6),
        watch_table(args, table) == table.update(k, Some(addr)),
        output(watch_acts(args, table), mem) == text("Watch [") + seq![(48 + k) as u8] + text(
            "] on write to 0x",
        ) + hex32(addr) + text("\r\n"),
{
    broadcast use group_run;

    first_free_is(table, k);
    let set = dwt_set_acts(k, addr, true);
    let told = seq![
        say("Watch ["),
        Act::Send(seq![(48 + k) as u8]),
        say("] on write to 0x"),
        Act::Send(hex32(addr)),
        say("\r\n"),
    ];
    assert(watch_acts(args, table) == set + told);
    reveal_with_fuel(run_upto, 4);
    quiet_run(told, run(set, regs));
    output_append(set, told, mem);
    reveal_with_fuel(output_upto, 6);
    assert(output(set, mem) =~= Seq::<u8>::empty());
    assert(output(told, mem) =~= text("Watch [") + seq![(48 + k) as u8] + text("] on write to 0x")
        + hex32(addr) + text("\r\n"));
    assert(output(set, mem) + output(told, mem) =~= output(told, mem));
}

/// `watch clear` with the number of a slot, 0 to 3, empties the slot and switches its
/// comparator off, and touches nothing else; with a larger number it does nothing.
pub proof fn watch_clears_comparator(
    args: Seq<Seq<u8>>,
    table: Seq<Option<u32>>,
    id: u32,
    regs: Regs,
    mem: Memory,
)
    requires
        table.len() == 4,
        asks_to_clear(args, id),
    ensures
        id < 4 ==> run(watch_acts(args, table), regs) == regs.insert(
            (0xE000_1028 + 16 * id) as u32,
            0,
        ),
        id < 4 ==> watch_table(args, table) == table.update(id as int, None),
        id >= 4 ==> run(watch_acts(args, table), regs) == regs,
        id >= 4 ==> watch_table(args, table) == table,
        output(watch_acts(args, table), mem) == if id < 4 {
            text("Watch cleared\r\n")
        } else {
            Seq::empty()
        },
{
    clear_is_not_list();
    reveal_with_fuel(run_upto, 3);
    reveal_with_fuel(output_upto, 3);
    assert(output(watch_acts(args, table), mem) =~= if id < 4 {
        text("Watch cleared\r\n")
    } else {
        Seq::empty()
    });
}

/// `watch clear` alone empties all four slots and switches all four comparators off.
pub proof fn watch_clears_all(args: Seq<Seq<u8>>, table: Seq<Option<u32>>, i: int, regs: Regs)
    requires
        args.len() == 1,
        args[0] == text("clear"),
        table.len() == 4,
        0 <= i < 4,
    ensures
        watch_table(args, table).len() == 4,
        watch_table(args, table)[i] is None,
        run(watch_acts(args, table), regs)[(0xE000_1028 + 16 * i) as u32] == 0,
        watch_acts(args, table).last() == say("All watches cleared\r\n"),
{
    broadcast use group_run;

    clear_is_not_list();
    reveal_with_fuel(dwt_clear_upto_acts, 5);
    reveal_with_fuel(run_upto, 2);
}

/// A fifth watchpoint and an address that is none are refused.
pub proof fn watch_refuses(args: Seq<Seq<u8>>, table: Seq<Option<u32>>, regs: Regs, mem: Memory)
    requires
        args.len() > 0,
        args[0] != text("list"),
        args[0] != text("clear"),
        table.len() == 4,
        hex_number(args[0]) is Some ==> forall|j: int| 0 <= j < 4 ==> #[trigger] table[j] is Some,
    ensures
        run(watch_acts(args, table), regs) == regs,
        watch_table(args, table) == table,
        output(watch_acts(args, table), mem) == if hex_number(args[0]) is None {
            text("Bad address\r\n")
        } else {
            text("No free watch slots\r\n")
        },
{
    first_free_is_first(table);
    reveal_with_fuel(output_upto, 2);
    let acts = watch_acts(args, table);
    assert(acts.len() == 1 && acts[0] is Send);
    quiet_run(acts, regs);
    assert(output(acts, mem) =~= acts[0]->Send_0);
}

/// Without an argument both commands tell how they are used; `clear` with something that is
/// no number does nothing.
pub proof fn incomplete_requests_do_nothing(
    args: Seq<Seq<u8>>,
    table: Seq<Option<u32>>,
    mem: Memory,
)
    ensures
        args.len() == 0 ==> output(bp_acts(args, table), mem) == text(
            "Usage: bp <addr> | bp clear [id] | bp list\r\n",
        ) && output(watch_acts(args, table), mem) == text(
            "Usage: watch <addr> | watch clear [id] | watch list\r\n",
        ) && bp_table(args, table) == table && watch_table(args, table) == table,
        args.len() > 1 && args[0] == text("clear") && hex_number(args[1]) is None ==> bp_acts(
            args,
            table,
        ).len() == 0 && watch_acts(args, table).len() == 0 && bp_table(args, table) == table
            && watch_table(args, table) == table,
{
    clear_is_not_list();
    reveal_with_fuel(output_upto, 2);
    if args.len() == 0 {
        assert(output(bp_acts(args, table), mem) =~= bp_acts(args, table)[0]->Send_0);
        assert(output(watch_acts(args, table), mem) =~= watch_acts(args, table)[0]->Send_0);
    }
}

} // verus!
