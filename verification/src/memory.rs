//! The `peek`, `poke` and `dump` commands.
use crate::hex::{hex32, hex8, hex_is_lower_case, hex_number, parse_hex};
use crate::plan::{
    bytes_of, fetch, is_bsrr, looks, output, output_append, output_of, output_pair, output_push,
    output_upto, printable, run, run_upto, say, shown, store, text, word_reads_back, Act, Form,
    Memory, Op, Plan, Regs,
};
use crate::words::contents;
use vstd::prelude::*;

verus! {

/// `dump` shows at most this many bytes.
pub const MAX_DUMP: u32 = 256;

/// Addresses wrap at the end of the address space.
pub open spec fn plus(addr: u32, n: int) -> u32 {
    ((addr + n) % 0x1_0000_0000) as u32
}

/// How a `peek` of `width` bytes is printed.
pub open spec fn peek_form(width: u32) -> Form {
    if width == 4 {
        Form::Word
    } else if width == 2 {
        Form::Half
    } else {
        Form::Byte
    }
}

/// What `peek`, `peek16` and `peek8` do.
pub open spec fn peek_acts(args: Seq<Seq<u8>>, width: u32) -> Seq<Act> {
    if args.len() == 0 {
        seq![say("Usage: peek <hex_addr>\r\n")]
    } else {
        match hex_number(args[0]) {
            None => seq![say("Bad address\r\n")],
            Some(addr) => if width == 4 && addr % 4 != 0 {
                seq![say("Address not 4-byte aligned\r\n")]
            } else if width == 2 && addr % 2 != 0 {
                seq![say("Address not 2-byte aligned\r\n")]
            } else {
                seq![
                    say("0x"),
                    Act::Send(hex32(addr)),
                    say(" = 0x"),
                    Act::Show { addr, form: peek_form(width) },
                    say("\r\n"),
                ]
            },
        }
    }
}

/// Shows `width` bytes of memory: a word for 4, a half-word for 2, else a byte.
pub fn cmd_peek(args: &[Vec<u8>], width: u32) -> (p: Plan)
    ensures
        p@ == peek_acts(contents(args@), width),
{
    let mut p: Plan = Plan::new();
    if args.len() == 0 {
        p.say("Usage: peek <hex_addr>\r\n");
        return p;
    }
    let addr: u32 = match parse_hex(args[0].as_slice()) {
        Some(a) => a,
        None => {
            p.say("Bad address\r\n");
            return p;
        },
    };
    if width == 4 && addr % 4 != 0 {
        p.say("Address not 4-byte aligned\r\n");
        return p;
    }
    if width == 2 && addr % 2 != 0 {
        p.say("Address not 2-byte aligned\r\n");
        return p;
    }
    p.say("0x");
    p.say_hex32(addr);
    p.say(" = 0x");
    let form: Form = if width == 4 {
        Form::Word
    } else if width == 2 {
        Form::Half
    } else {
        Form::Byte
    };
    p.push(Op::Show { addr, form });
    p.say("\r\n");
    p
}

/// What `poke` does.
pub open spec fn poke_acts(args: Seq<Seq<u8>>) -> Seq<Act> {
    if args.len() < 2 {
        seq![say("Usage: poke <hex_addr> <hex_val>\r\n")]
    } else {
        match (hex_number(args[0]), hex_number(args[1])) {
            (None, _) => seq![say("Bad address\r\n")],
            (Some(_), None) => seq![say("Bad value\r\n")],
            (Some(addr), Some(val)) => if addr % 4 != 0 {
                seq![say("Address not 4-byte aligned\r\n")]
            } else {
                seq![Act::Write { addr, val }, say("OK\r\n")]
            },
        }
    }
}

/// Writes a word of memory.
pub fn cmd_poke(args: &[Vec<u8>]) -> (p: Plan)
    ensures
        p@ == poke_acts(contents(args@)),
{
    let mut p: Plan = Plan::new();
    if args.len() < 2 {
        p.say("Usage: poke <hex_addr> <hex_val>\r\n");
        return p;
    }
    let addr: u32 = match parse_hex(args[0].as_slice()) {
        Some(a) => a,
        None => {
            p.say("Bad address\r\n");
            return p;
        },
    };
    let val: u32 = match parse_hex(args[1].as_slice()) {
        Some(v) => v,
        None => {
            p.say("Bad value\r\n");
            return p;
        },
    };
    if addr % 4 != 0 {
        p.say("Address not 4-byte aligned\r\n");
        return p;
    }
    p.push(Op::Write { addr, val });
    p.say("OK\r\n");
    p
}

/// The bytes `from..to` behind `addr`, in hex.
pub open spec fn dump_hex_acts(addr: u32, from: int, to: int) -> Seq<Act>
    decreases to - from,
{
    if to <= from {
        Seq::empty()
    } else {
        dump_hex_acts(addr, from, to - 1) + seq![
            Act::Show { addr: plus(addr, to - 1), form: Form::Byte },
            say(" "),
        ]
    }
}

/// The bytes `from..to` behind `addr`, as characters.
pub open spec fn dump_ascii_acts(addr: u32, from: int, to: int) -> Seq<Act>
    decreases to - from,
{
    if to <= from {
        Seq::empty()
    } else {
        dump_ascii_acts(addr, from, to - 1).push(
            Act::Show { addr: plus(addr, to - 1), form: Form::Ascii },
        )
    }
}

/// One line of a dump: address, bytes in hex, bytes as characters.
pub open spec fn dump_line_acts(addr: u32, from: int, to: int) -> Seq<Act> {
    seq![say("0x"), Act::Send(hex32(plus(addr, from))), say(": ")] + dump_hex_acts(addr, from, to)
        + seq![say(" |")] + dump_ascii_acts(addr, from, to) + seq![say("|\r\n")]
}

/// Where the line that starts at `from` ends: sixteen bytes on, or at the end.
pub open spec fn line_end(from: int, len: int) -> int {
    if from + 16 <= len {
        from + 16
    } else {
        len
    }
}

/// The lines of a dump from offset `from`.
pub open spec fn dump_lines_acts(addr: u32, from: int, len: int) -> Seq<Act>
    decreases len - from,
{
    if from >= len {
        Seq::empty()
    } else {
        dump_line_acts(addr, from, line_end(from, len)) + dump_lines_acts(
            addr,
            line_end(from, len),
            len,
        )
    }
}

/// What `dump` does.
pub open spec fn dump_acts(args: Seq<Seq<u8>>) -> Seq<Act> {
    if args.len() < 2 {
        seq![say("Usage: dump <hex_addr> <hex_len>\r\n")]
    } else {
        match (hex_number(args[0]), hex_number(args[1])) {
            (None, _) => seq![say("Bad address\r\n")],
            (Some(_), None) => seq![say("Bad length\r\n")],
            (Some(addr), Some(len)) => dump_lines_acts(
                addr,
                0,
                if len <= MAX_DUMP {
                    len as int
                } else {
                    MAX_DUMP as int
                },
            ),
        }
    }
}

/// Plans one line of a dump.
fn dump_line(p: &mut Plan, addr: u32, from: u32, to: u32)
    requires
        from <= to <= MAX_DUMP,
    ensures
        final(p)@ == old(p)@ + dump_line_acts(addr, from as int, to as int),
{
    let ghost start = p@;
    p.say("0x");
    p.say_hex32(addr.wrapping_add(from));
    p.say(": ");
    let ghost head = p@;
    assert(head =~= start + seq![
        say("0x"),
        Act::Send(hex32(plus(addr, from as int))),
        say(": "),
    ]);
    let mut i: u32 = from;
    while i < to
        invariant
            from <= i <= to <= MAX_DUMP,
            p@ == head + dump_hex_acts(addr, from as int, i as int),
        decreases to - i,
    {
        let ghost before = p@;
        p.push(Op::Show { addr: addr.wrapping_add(i), form: Form::Byte });
        p.say(" ");
        assert(p@ =~= before + seq![
            Act::Show { addr: plus(addr, i as int), form: Form::Byte },
            say(" "),
        ]);
        assert(p@ =~= head + dump_hex_acts(addr, from as int, i + 1));
        i = i + 1;
    }
    p.say(" |");
    let ghost bar = p@;
    let mut k: u32 = from;
    while k < to
        invariant
            from <= k <= to <= MAX_DUMP,
            p@ == bar + dump_ascii_acts(addr, from as int, k as int),
        decreases to - k,
    {
        p.push(Op::Show { addr: addr.wrapping_add(k), form: Form::Ascii });
        assert(p@ =~= bar + dump_ascii_acts(addr, from as int, k + 1));
        k = k + 1;
    }
    p.say("|\r\n");
    assert(p@ =~= start + dump_line_acts(addr, from as int, to as int));
}

/// Shows memory as hex and as characters, sixteen bytes a line and at most
/// 256 bytes.
pub fn cmd_dump(args: &[Vec<u8>]) -> (p: Plan)
    ensures
        p@ == dump_acts(contents(args@)),
{
    let mut p: Plan = Plan::new();
    if args.len() < 2 {
        p.say("Usage: dump <hex_addr> <hex_len>\r\n");
        return p;
    }
    let addr: u32 = match parse_hex(args[0].as_slice()) {
        Some(a) => a,
        None => {
            p.say("Bad address\r\n");
            return p;
        },
    };
    let len: u32 = match parse_hex(args[1].as_slice()) {
        Some(l) => if l <= MAX_DUMP {
            l
        } else {
            MAX_DUMP
        },
        None => {
            p.say("Bad length\r\n");
            return p;
        },
    };
    let mut offset: u32 = 0;
    assert(p@ + dump_lines_acts(addr, 0, len as int) =~= dump_lines_acts(addr, 0, len as int));
    while offset < len
        invariant
            offset <= len <= MAX_DUMP,
            p@ + dump_lines_acts(addr, offset as int, len as int) =~= dump_lines_acts(
                addr,
                0,
                len as int,
            ),
        decreases len - offset,
    {
        let end: u32 = if offset + 16 <= len {
            offset + 16
        } else {
            len
        };
        let ghost before = p@;
        dump_line(&mut p, addr, offset, end);
        assert(before + dump_lines_acts(addr, offset as int, len as int) =~= p@ + dump_lines_acts(
            addr,
            end as int,
            len as int,
        ));
        offset = end;
    }
    assert(p@ + dump_lines_acts(addr, offset as int, len as int) =~= p@);
    p
}

// ---------------------------------------------------------------------------
// What the commands show
// ---------------------------------------------------------------------------

/// `peek` prints the address and the memory at it.
pub proof fn peek_shows_memory(args: Seq<Seq<u8>>, width: u32, addr: u32, mem: Memory)
    requires
        args.len() > 0,
        hex_number(args[0]) == Some(addr),
        width == 4 ==> addr % 4 == 0,
        width == 2 ==> addr % 2 == 0,
    ensures
        output(peek_acts(args, width), mem) == text("0x") + hex32(addr) + text(" = 0x") + shown(
            peek_form(width),
            fetch(mem, addr, peek_form(width)),
        ) + text("\r\n"),
{
    reveal_with_fuel(output_upto, 6);
}

/// The word that `poke` is given is the word that memory holds afterwards.
pub proof fn poke_stores(args: Seq<Seq<u8>>, addr: u32, val: u32, regs: Regs)
    requires
        args.len() >= 2,
        hex_number(args[0]) == Some(addr),
        hex_number(args[1]) == Some(val),
        addr % 4 == 0,
    ensures
        run(poke_acts(args), regs) == store(regs, addr, val),
{
    reveal_with_fuel(run_upto, 3);
}

proof fn dump_parts_look(addr: u32, from: int, to: int)
    ensures
        looks(dump_hex_acts(addr, from, to)),
        looks(dump_ascii_acts(addr, from, to)),
    decreases to - from,
{
    if to > from {
        dump_parts_look(addr, from, to - 1);
    }
}

proof fn dump_lines_look(addr: u32, from: int, len: int)
    ensures
        looks(dump_lines_acts(addr, from, len)),
    decreases len - from,
{
    if from < len {
        dump_parts_look(addr, from, line_end(from, len));
        dump_lines_look(addr, line_end(from, len), len);
        assert(looks(dump_line_acts(addr, from, line_end(from, len))));
    }
}

/// `peek` and `dump` only look.
pub proof fn inspection_looks(args: Seq<Seq<u8>>, width: u32)
    ensures
        looks(peek_acts(args, width)),
        looks(dump_acts(args)),
{
    if args.len() >= 2 {
        if let (Some(addr), Some(len)) = (hex_number(args[0]), hex_number(args[1])) {
            dump_lines_look(
                addr,
                0,
                if len <= MAX_DUMP {
                    len as int
                } else {
                    MAX_DUMP as int
                },
            );
        }
    }
}

/// A line of a dump as text.
pub open spec fn dump_line_text(mem: Memory, addr: u32, from: int, to: int) -> Seq<u8> {
    text("0x") + hex32(plus(addr, from)) + text(": ") + dump_hex_text(mem, addr, from, to) + text(
        " |",
    ) + dump_ascii_text(mem, addr, from, to) + text("|\r\n")
}

/// Bytes in hex, each followed by a space.
pub open spec fn dump_hex_text(mem: Memory, addr: u32, from: int, to: int) -> Seq<u8>
    decreases to - from,
{
    if to <= from {
        Seq::empty()
    } else {
        dump_hex_text(mem, addr, from, to - 1) + hex8(mem(plus(addr, to - 1))) + text(" ")
    }
}

/// Bytes as characters, with a dot for what cannot be printed.
pub open spec fn dump_ascii_text(mem: Memory, addr: u32, from: int, to: int) -> Seq<u8> {
    Seq::new(
        if to <= from {
            0
        } else {
            (to - from) as nat
        },
        |i: int|
            {
                let b = mem(plus(addr, from + i));
                if printable(b) {
                    b
                } else {
                    46
                }
            },
    )
}

/// The lines of a dump as text.
pub open spec fn dump_text(mem: Memory, addr: u32, from: int, len: int) -> Seq<u8>
    decreases len - from,
{
    if from >= len {
        Seq::empty()
    } else {
        dump_line_text(mem, addr, from, line_end(from, len)) + dump_text(
            mem,
            addr,
            line_end(from, len),
            len,
        )
    }
}

proof fn dump_hex_output(addr: u32, from: int, to: int, mem: Memory)
    ensures
        output(dump_hex_acts(addr, from, to), mem) == dump_hex_text(mem, addr, from, to),
    decreases to - from,
{
    if to > from {
        dump_hex_output(addr, from, to - 1, mem);
        let byte = Act::Show { addr: plus(addr, to - 1), form: Form::Byte };
        let b = mem(plus(addr, to - 1));
        output_append(dump_hex_acts(addr, from, to - 1), seq![byte, say(" ")], mem);
        output_pair(byte, say(" "), mem);
        assert(output_of(byte, mem) == hex8(b));
        let before = dump_hex_text(mem, addr, from, to - 1);
        assert(before + (hex8(b) + text(" ")) =~= before + hex8(b) + text(" "));
    }
}

proof fn dump_ascii_output(addr: u32, from: int, to: int, mem: Memory)
    ensures
        output(dump_ascii_acts(addr, from, to), mem) == dump_ascii_text(mem, addr, from, to),
    decreases to - from,
{
    if to > from {
        dump_ascii_output(addr, from, to - 1, mem);
        output_push(
            dump_ascii_acts(addr, from, to - 1),
            Act::Show { addr: plus(addr, to - 1), form: Form::Ascii },
            mem,
        );
        assert(output(dump_ascii_acts(addr, from, to), mem) =~= dump_ascii_text(
            mem,
            addr,
            from,
            to,
        ));
    } else {
        assert(dump_ascii_text(mem, addr, from, to) =~= Seq::<u8>::empty());
    }
}

proof fn dump_line_output(addr: u32, from: int, to: int, mem: Memory)
    ensures
        output(dump_line_acts(addr, from, to), mem) == dump_line_text(mem, addr, from, to),
{
    broadcast use output_append;

    dump_hex_output(addr, from, to, mem);
    dump_ascii_output(addr, from, to, mem);
    reveal_with_fuel(output_upto, 4);
    let head = seq![say("0x"), Act::Send(hex32(plus(addr, from))), say(": ")];
    assert(output(head, mem) =~= text("0x") + hex32(plus(addr, from)) + text(": "));
    assert(output(seq![say(" |")], mem) =~= text(" |"));
    assert(output(seq![say("|\r\n")], mem) =~= text("|\r\n"));
}

/// A dump prints every byte of its range once in hex and once as a character,
/// sixteen bytes a line.
pub proof fn dump_shows_memory(addr: u32, from: int, len: int, mem: Memory)
    ensures
        output(dump_lines_acts(addr, from, len), mem) == dump_text(mem, addr, from, len),
    decreases len - from,
{
    if from < len {
        let end = line_end(from, len);
        dump_line_output(addr, from, end, mem);
        dump_shows_memory(addr, end, len, mem);
        output_append(dump_line_acts(addr, from, end), dump_lines_acts(addr, end, len), mem);
    }
}

/// What `poke` wrote is what `peek` shows. The set/reset registers of the ports are
/// left out: they cannot be read back.
pub proof fn peek_reads_back_poke(
    poke: Seq<Seq<u8>>,
    peek: Seq<Seq<u8>>,
    addr: u32,
    val: u32,
    regs: Regs,
)
    requires
        poke.len() >= 2,
        hex_number(poke[0]) == Some(addr),
        hex_number(poke[1]) == Some(val),
        peek.len() > 0,
        hex_number(peek[0]) == Some(addr),
        addr % 4 == 0,
        !is_bsrr(addr),
    ensures
        output(peek_acts(peek, 4), bytes_of(run(poke_acts(poke), regs))) == text("0x") + hex32(
            addr,
        ) + text(" = 0x") + hex32(val) + text("\r\n"),
{
    poke_stores(poke, addr, val, regs);
    let after = run(poke_acts(poke), regs);
    word_reads_back(after, addr);
    peek_shows_memory(peek, 4, addr, bytes_of(after));
}

// ---------------------------------------------------------------------------
// What the commands show, by address
// ---------------------------------------------------------------------------

/// The byte `i` places behind `addr`; addresses wrap.
pub open spec fn byte_at(mem: Memory, addr: u32, i: int) -> u8 {
    mem(((addr + i) % 0x1_0000_0000) as u32)
}

/// The word at an address: its low byte stands first in memory.
pub open spec fn little_endian(mem: Memory, addr: u32) -> u32 {
    (byte_at(mem, addr, 0) + 0x100 * byte_at(mem, addr, 1) + 0x1_0000 * byte_at(mem, addr, 2)
        + 0x100_0000 * byte_at(mem, addr, 3)) as u32
}

/// The character at column `j` of the hex part of a row: two digits for each byte and a space
/// behind them.
pub open spec fn hex_cell(mem: Memory, addr: u32, j: int) -> u8 {
    if j % 3 == 2 {
        0x20
    } else {
        hex8(byte_at(mem, addr, j / 3))[j % 3]
    }
}

/// One row of a hex dump of `n` bytes: the address of the first, each byte as two digits
/// with a space behind them, and each byte as a character, with a dot for those outside
/// 0x20 to 0x7E.
pub open spec fn memory_row(mem: Memory, addr: u32, n: int) -> Seq<u8> {
    text("0x") + hex32(addr) + text(": ") + Seq::new(
        (3 * n) as nat,
        |j: int| hex_cell(mem, addr, j),
    ) + text(" |") + Seq::new(
        n as nat,
        |j: int|
            if 0x20 <= byte_at(mem, addr, j) <= 0x7E {
                byte_at(mem, addr, j)
            } else {
                46u8
            },
    ) + text("|\r\n")
}

/// A hex dump of `n` bytes: rows of sixteen, and a shorter one for what is left.
pub open spec fn memory_rows(mem: Memory, addr: u32, n: int) -> Seq<u8>
    decreases n,
{
    if n <= 0 {
        Seq::empty()
    } else if n <= 16 {
        memory_row(mem, addr, n)
    } else {
        memory_row(mem, addr, 16) + memory_rows(
            mem,
            ((addr + 16) % 0x1_0000_0000) as u32,
            n - 16,
        )
    }
}

proof fn space_is_one_byte()
    ensures
        text(" ") == seq![0x20u8],
{
    reveal_strlit(" ");
    assert(" ".is_ascii());
    assert(text(" ") =~= seq![0x20u8]);
}

proof fn further_byte(mem: Memory, addr: u32, from: int, k: int)
    requires
        0 <= from,
        0 <= k,
    ensures
        byte_at(mem, plus(addr, from), k) == mem(plus(addr, from + k)),
{
}

#[verifier::rlimit(50)]
proof fn three_more_cells(mem: Memory, start: u32, before: Seq<u8>, k: int)
    requires
        0 <= k,
        before.len() == 3 * k,
        forall|j: int| 0 <= j < 3 * k ==> before[j] == hex_cell(mem, start, j),
    ensures
        before + hex8(byte_at(mem, start, k)) + text(" ") == Seq::new(
            (3 * (k + 1)) as nat,
            |j: int| hex_cell(mem, start, j),
        ),
{
    let b = byte_at(mem, start, k);
    hex_is_lower_case(0, b, 0);
    space_is_one_byte();
    let all = before + hex8(b) + text(" ");
    assert((3 * k) / 3 == k && (3 * k) % 3 == 0);
    assert((3 * k + 1) / 3 == k && (3 * k + 1) % 3 == 1);
    assert((3 * k + 2) % 3 == 2);
    assert(all[3 * k] == hex_cell(mem, start, 3 * k));
    assert(all[3 * k + 1] == hex_cell(mem, start, 3 * k + 1));
    assert(all[3 * k + 2] == hex_cell(mem, start, 3 * k + 2));
    assert(all =~= Seq::new((3 * (k + 1)) as nat, |j: int| hex_cell(mem, start, j)));
}

proof fn hex_cells(mem: Memory, addr: u32, from: int, to: int)
    requires
        0 <= from <= to,
    ensures
        dump_hex_text(mem, addr, from, to) == Seq::new(
            (3 * (to - from)) as nat,
            |j: int| hex_cell(mem, plus(addr, from), j),
        ),
    decreases to - from,
{
    if to > from {
        hex_cells(mem, addr, from, to - 1);
        let k = to - 1 - from;
        further_byte(mem, addr, from, k);
        three_more_cells(mem, plus(addr, from), dump_hex_text(mem, addr, from, to - 1), k);
    }
}

#[verifier::rlimit(50)]
proof fn dump_line_is_row(mem: Memory, addr: u32, from: int, to: int)
    requires
        0 <= from <= to,
    ensures
        dump_line_text(mem, addr, from, to) == memory_row(mem, plus(addr, from), to - from),
{
    hex_cells(mem, addr, from, to);
    let start = plus(addr, from);
    assert forall|j: int| 0 <= j implies byte_at(mem, start, j) == #[trigger] mem(
        plus(addr, from + j),
    ) by {}
    let chars = Seq::new(
        (to - from) as nat,
        |j: int|
            if 0x20 <= byte_at(mem, start, j) <= 0x7E {
                byte_at(mem, start, j)
            } else {
                46u8
            },
    );
    assert forall|j: int| 0 <= j < to - from implies dump_ascii_text(mem, addr, from, to)[j]
        == chars[j] by {
        assert(byte_at(mem, start, j) == mem(plus(addr, from + j)));
    }
    assert(dump_ascii_text(mem, addr, from, to) =~= chars);
}

proof fn sixteen_further(addr: u32, from: int)
    requires
        0 <= from,
    ensures
        plus(addr, from + 16) == ((plus(addr, from) + 16) % 0x1_0000_0000) as u32,
{
}

#[verifier::rlimit(50)]
proof fn dump_is_rows(mem: Memory, addr: u32, from: int, len: int)
    requires
        0 <= from,
    ensures
        dump_text(mem, addr, from, len) == memory_rows(mem, plus(addr, from), len - from),
    decreases len - from,
{
    let a = plus(addr, from);
    let n = len - from;
    if n > 16 {
        dump_line_is_row(mem, addr, from, from + 16);
        dump_is_rows(mem, addr, from + 16, len);
        sixteen_further(addr, from);
        let row = memory_row(mem, a, 16);
        let rest = memory_rows(mem, ((a + 16) % 0x1_0000_0000) as u32, n - 16);
        assert(line_end(from, len) == from + 16);
        assert(memory_rows(mem, a, n) == row + rest);
        assert(dump_text(mem, addr, from, len) == row + rest);
    } else if n > 0 {
        dump_line_is_row(mem, addr, from, len);
        let row = memory_row(mem, a, n);
        assert(line_end(from, len) == len);
        assert(dump_text(mem, addr, len, len) == Seq::<u8>::empty());
        assert(dump_text(mem, addr, from, len) == row + Seq::<u8>::empty());
        assert(row + Seq::<u8>::empty() =~= row);
        assert(memory_rows(mem, a, n) == row);
    }
}

/// `dump` shows as many bytes as it is asked for, and 256 where it is asked for more, in
/// rows of sixteen.
pub proof fn dump_shows_what_is_asked_for(args: Seq<Seq<u8>>, addr: u32, len: u32, mem: Memory)
    requires
        args.len() >= 2,
        hex_number(args[0]) == Some(addr),
        hex_number(args[1]) == Some(len),
    ensures
        output(dump_acts(args), mem) == memory_rows(
            mem,
            addr,
            if len <= 256 {
                len as int
            } else {
                256
            },
        ),
{
    let n = if len <= 256 {
        len as int
    } else {
        256
    };
    dump_shows_memory(addr, 0, n, mem);
    dump_is_rows(mem, addr, 0, n);
}

/// `peek` shows a word, `peek16` a half-word and `peek8` a byte, each at its address, in
/// as many digits as it has; the low byte of a word stands first in memory.
#[verifier::rlimit(50)]
pub proof fn peek_shows_by_width(args: Seq<Seq<u8>>, addr: u32, mem: Memory)
    requires
        args.len() > 0,
        hex_number(args[0]) == Some(addr),
    ensures
        addr % 4 == 0 ==> output(peek_acts(args, 4), mem) == text("0x") + hex32(addr) + text(
            " = 0x",
        ) + hex32(little_endian(mem, addr)) + text("\r\n"),
        addr % 2 == 0 ==> output(peek_acts(args, 2), mem) == text("0x") + hex32(addr) + text(
            " = 0x",
        ) + (hex8(byte_at(mem, addr, 1)) + hex8(byte_at(mem, addr, 0))) + text("\r\n"),
        output(peek_acts(args, 1), mem) == text("0x") + hex32(addr) + text(" = 0x") + hex8(
            byte_at(mem, addr, 0),
        ) + text("\r\n"),
{
    assert(output(peek_acts(args, 1), mem) == text("0x") + hex32(addr) + text(" = 0x") + hex8(
        byte_at(mem, addr, 0),
    ) + text("\r\n")) by {
        peek_shows_memory(args, 1, addr, mem);
    }
    if addr % 4 == 0 {
        peek_shows_memory(args, 4, addr, mem);
        assert(fetch(mem, addr, Form::Word) == little_endian(mem, addr));
    }
    if addr % 2 == 0 {
        assert(output(peek_acts(args, 2), mem) == text("0x") + hex32(addr) + text(" = 0x") + (hex8(
            byte_at(mem, addr, 1),
        ) + hex8(byte_at(mem, addr, 0))) + text("\r\n")) by {
            peek_shows_memory(args, 2, addr, mem);
            half_in_bytes(mem, addr);
        }
    }
}

proof fn half_in_bytes(mem: Memory, addr: u32)
    requires
        addr % 2 == 0,
    ensures
        shown(Form::Half, fetch(mem, addr, Form::Half)) == hex8(byte_at(mem, addr, 1)) + hex8(
            byte_at(mem, addr, 0),
        ),
{
    let v = fetch(mem, addr, Form::Half);
    let lo = byte_at(mem, addr, 0);
    let hi = byte_at(mem, addr, 1);
    assert(v == lo + 0x100 * hi);
    assert((v % 256) as u8 == lo && (v / 256 % 256) as u8 == hi);
}

/// What cannot be read or written is refused, with a word on why, and touches nothing.
#[verifier::rlimit(50)]
pub proof fn bad_requests_are_refused(args: Seq<Seq<u8>>, mem: Memory, regs: Regs)
    ensures
        args.len() == 0 ==> {
            &&& output(peek_acts(args, 4), mem) == text("Usage: peek <hex_addr>\r\n")
            &&& output(peek_acts(args, 2), mem) == text("Usage: peek <hex_addr>\r\n")
            &&& output(peek_acts(args, 1), mem) == text("Usage: peek <hex_addr>\r\n")
        },
        args.len() < 2 ==> output(poke_acts(args), mem) == text(
            "Usage: poke <hex_addr> <hex_val>\r\n",
        ) && run(poke_acts(args), regs) == regs,
        args.len() < 2 ==> output(dump_acts(args), mem) == text(
            "Usage: dump <hex_addr> <hex_len>\r\n",
        ),
        args.len() > 0 && hex_number(args[0]) is None ==> {
            &&& output(peek_acts(args, 4), mem) == text("Bad address\r\n")
            &&& output(peek_acts(args, 2), mem) == text("Bad address\r\n")
            &&& output(peek_acts(args, 1), mem) == text("Bad address\r\n")
        },
        args.len() >= 2 && hex_number(args[0]) is None ==> {
            &&& output(poke_acts(args), mem) == text("Bad address\r\n")
            &&& output(dump_acts(args), mem) == text("Bad address\r\n")
            &&& run(poke_acts(args), regs) == regs
        },
        args.len() >= 2 && hex_number(args[0]) is Some && hex_number(args[1]) is None ==> {
            &&& output(poke_acts(args), mem) == text("Bad value\r\n")
            &&& output(dump_acts(args), mem) == text("Bad length\r\n")
            &&& run(poke_acts(args), regs) == regs
        },
        args.len() > 0 && hex_number(args[0]) is Some ==> {
            let addr = hex_number(args[0])->0;
            &&& addr % 4 != 0 ==> output(peek_acts(args, 4), mem) == text(
                "Address not 4-byte aligned\r\n",
            )
            &&& addr % 2 != 0 ==> output(peek_acts(args, 2), mem) == text(
                "Address not 2-byte aligned\r\n",
            )
            &&& addr % 4 != 0 && args.len() >= 2 && hex_number(args[1]) is Some ==> {
                &&& output(poke_acts(args), mem) == text("Address not 4-byte aligned\r\n")
                &&& run(poke_acts(args), regs) == regs
            }
        },
{
    one_message(poke_acts(args), mem, regs);
    one_message(dump_acts(args), mem, regs);
    one_message(peek_acts(args, 4), mem, regs);
    one_message(peek_acts(args, 2), mem, regs);
    one_message(peek_acts(args, 1), mem, regs);
}

/// What a plan of one message does.
proof fn one_message(acts: Seq<Act>, mem: Memory, regs: Regs)
    ensures
        acts.len() == 1 && acts[0] is Send ==> output(acts, mem) == acts[0]->Send_0 && run(
            acts,
            regs,
        ) == regs,
{
    reveal_with_fuel(output_upto, 2);
    reveal_with_fuel(run_upto, 2);
    if acts.len() == 1 && acts[0] is Send {
        assert(output(acts, mem) =~= acts[0]->Send_0);
    }
}

/// `poke` with an aligned address and a value writes exactly this word and says so.
pub proof fn poke_writes_one_word(args: Seq<Seq<u8>>, addr: u32, val: u32, mem: Memory)
    requires
        args.len() >= 2,
        hex_number(args[0]) == Some(addr),
        hex_number(args[1]) == Some(val),
        addr % 4 == 0,
    ensures
        poke_acts(args)[0] == (Act::Write { addr, val }),
        forall|i: int| 0 < i < poke_acts(args).len() ==> #[trigger] poke_acts(args)[i] is Send,
        output(poke_acts(args), mem) == text("OK\r\n"),
{
    reveal_with_fuel(output_upto, 3);
    assert(output(poke_acts(args), mem) =~= text("OK\r\n"));
}

} // verus!
