//! The `upload` command: programming an application over the serial line.
//!
//! The sender writes lines of an address and a word in hex; `end` finishes.
use crate::hex::{hex32, hex_digits_denote, hex_number, is_hex, parse_hex, parse_of_hex32, pow16};
use crate::plan::{
    at, md, output, output_upto, reg_modify, reg_until_clear, reg_write, run, run_append, run_upto,
    say, text, until_clear, wr, Act, Memory, Op, Plan, Regs,
};
use crate::regs::{APP_ADDR, FLASH_CR, FLASH_KEYR, FLASH_R, FLASH_SR, UPLOAD_END};
use crate::trace::bit_values;
use crate::words::{find_space, first_space_is_first, space_from, word_is};
use vstd::prelude::*;
use vstd::slice::slice_subrange;
use vstd::string::*;

verus! {

/// Longest line that the session keeps; what goes beyond is dropped.
pub const MAX_LINE: usize = 32;

/// Flash unlocked, sector 4 erased, programming by words enabled.
pub open spec fn upload_begin_acts() -> Seq<Act> {
    seq![
        wr(FLASH_R, FLASH_KEYR, 0x4567_0123),
        wr(FLASH_R, FLASH_KEYR, 0xCDEF_89AB),
        say("Erasing sector 4..."),
        until_clear(FLASH_R, FLASH_SR, 1u32 << 16),
        wr(FLASH_R, FLASH_CR, (1u32 << 1) | (4u32 << 3) | (2u32 << 8) | (1u32 << 16)),
        until_clear(FLASH_R, FLASH_SR, 1u32 << 16),
        wr(FLASH_R, FLASH_CR, 0),
        say(" OK\r\nSend: ADDR VALUE (hex), 'end' to finish.\r\n"),
        wr(FLASH_R, FLASH_CR, (1u32 << 0) | (2u32 << 8)),
    ]
}

/// Prepares the flash for an upload.
pub fn cmd_upload() -> (p: Plan)
    ensures
        p@ == upload_begin_acts(),
{
    let mut p: Plan = Plan::new();
    reg_write(&mut p, FLASH_R, FLASH_KEYR, 0x4567_0123);
    reg_write(&mut p, FLASH_R, FLASH_KEYR, 0xCDEF_89AB);
    p.say("Erasing sector 4...");
    reg_until_clear(&mut p, FLASH_R, FLASH_SR, 1u32 << 16);
    reg_write(&mut p, FLASH_R, FLASH_CR, (1u32 << 1) | (4u32 << 3) | (2u32 << 8) | (1u32 << 16));
    reg_until_clear(&mut p, FLASH_R, FLASH_SR, 1u32 << 16);
    reg_write(&mut p, FLASH_R, FLASH_CR, 0);
    p.say(" OK\r\nSend: ADDR VALUE (hex), 'end' to finish.\r\n");
    reg_write(&mut p, FLASH_R, FLASH_CR, (1u32 << 0) | (2u32 << 8));
    p
}

/// Whether a word at `addr` belongs to the sector that was erased.
pub open spec fn in_sector(addr: u32) -> bool {
    APP_ADDR <= addr < UPLOAD_END && addr % 4 == 0
}

/// The word that a line asks to program: an address of the sector and a value,
/// with a space between them.
pub open spec fn upload_word(line: Seq<u8>) -> Option<(u32, u32)> {
    let sp = space_from(line, 0);
    if sp < line.len() {
        match (hex_number(line.take(sp)), hex_number(line.skip(sp + 1))) {
            (Some(addr), Some(val)) => if in_sector(addr) {
                Some((addr, val))
            } else {
                None
            },
            _ => None,
        }
    } else {
        None
    }
}

/// One word programmed.
pub open spec fn program_acts(addr: u32, val: u32) -> Seq<Act> {
    seq![
        until_clear(FLASH_R, FLASH_SR, 1u32 << 16),
        Act::Write { addr, val },
        until_clear(FLASH_R, FLASH_SR, 1u32 << 16),
    ]
}

/// Programming off, flash locked, and the number of bytes reported.
pub open spec fn upload_end_acts(total: u32) -> Seq<Act> {
    seq![
        wr(FLASH_R, FLASH_CR, 0),
        md(FLASH_R, FLASH_CR, 0, 1u32 << 31),
        say("OK "),
        Act::Send(hex32(total)),
        say(" bytes\r\n"),
    ]
}

/// A session: the line so far, the bytes programmed, what has been done, and
/// whether it is over.
pub struct Session {
    pub line: Seq<u8>,
    pub total: u32,
    pub acts: Seq<Act>,
    pub done: bool,
}

/// The byte count is kept in 32 bits.
pub open spec fn four_more(total: u32) -> u32 {
    ((total + 4) % 0x1_0000_0000) as u32
}

/// A session after one more byte.
pub open spec fn upload_byte(s: Session, b: u8) -> Session {
    if s.done {
        s
    } else if b == 13 || b == 10 {
        if s.line.len() == 0 {
            s
        } else if s.line == text("end") {
            Session { acts: s.acts + upload_end_acts(s.total), done: true, ..s }
        } else {
            match upload_word(s.line) {
                Some((addr, val)) => Session {
                    line: Seq::empty(),
                    total: four_more(s.total),
                    acts: s.acts + program_acts(addr, val),
                    done: false,
                },
                None => Session { line: Seq::empty(), ..s },
            }
        }
    } else if s.line.len() < MAX_LINE {
        Session { line: s.line.push(b), ..s }
    } else {
        s
    }
}

/// A session after the first `n` bytes of a packet.
pub open spec fn upload_upto(s: Session, packet: Seq<u8>, n: nat) -> Session
    decreases n,
{
    if n == 0 {
        s
    } else {
        upload_byte(upload_upto(s, packet, (n - 1) as nat), packet[n - 1])
    }
}

/// A session after a packet. What follows `end` in its packet is dropped.
pub open spec fn upload_packet(s: Session, packet: Seq<u8>) -> Session {
    upload_upto(s, packet, packet.len())
}

/// State of an upload.
pub struct Upload {
    pub line: [u8; MAX_LINE],
    pub len: usize,
    pub total: u32,
}

impl Upload {
    pub open spec fn wf(&self) -> bool {
        self.len <= MAX_LINE
    }

    /// The session as it stands, with nothing done yet.
    pub open spec fn session(&self) -> Session {
        Session {
            line: self.line@.take(self.len as int),
            total: self.total,
            acts: Seq::empty(),
            done: false,
        }
    }

    /// A session that has received nothing.
    pub fn new() -> (u: Upload)
        ensures
            u.wf(),
            u.session().line == Seq::<u8>::empty(),
            u.line@ == Seq::new(MAX_LINE as nat, |i: int| 0u8),
            u.len == 0,
            u.total == 0,
    {
        Upload { line: [0; MAX_LINE], len: 0, total: 0 }
    }

    /// Takes a packet. The second result says whether the upload is over.
    pub fn receive(&mut self, packet: &[u8]) -> (r: (Plan, bool))
        requires
            old(self).wf(),
        ensures
            final(self).wf(),
            ({
                let after = upload_packet(old(self).session(), packet@);
                &&& r.0@ == after.acts
                &&& r.1 == after.done
                &&& final(self).session().line == after.line
                &&& final(self).total == after.total
            }),
    {
        let ghost start = self.session();
        let mut p: Plan = Plan::new();
        let mut i: usize = 0;
        while i < packet.len()
            invariant
                i <= packet@.len(),
                start == old(self).session(),
                self.wf(),
                ({
                    let now = upload_upto(start, packet@, i as nat);
                    &&& now.acts == p@
                    &&& !now.done
                    &&& now.line == self.session().line
                    &&& now.total == self.total
                }),
            decreases packet@.len() - i,
        {
            let b: u8 = packet[i];
            let ghost now = upload_upto(start, packet@, i as nat);
            let ghost next = upload_upto(start, packet@, (i + 1) as nat);
            assert(next == upload_byte(now, b));
            if b == 13 || b == 10 {
                if self.len > 0 {
                    let line: &[u8] = slice_subrange(self.line.as_slice(), 0, self.len);
                    assert(line@ =~= now.line);
                    if word_is(line, "end") {
                        p.append(upload_end(self.total));
                        proof {
                            upload_after_end(start, packet@, (i + 1) as nat, packet@.len());
                        }
                        return (p, true);
                    }
                    if let Some((addr, val)) = parse_line(line) {
                        p.append(program_word(addr, val));
                        self.total = self.total.wrapping_add(4);
                    }
                    self.len = 0;
                    assert(self.session().line =~= Seq::<u8>::empty());
                }
            } else if self.len < MAX_LINE {
                self.line[self.len] = b;
                self.len = self.len + 1;
                assert(self.session().line =~= now.line.push(b));
            }
            i = i + 1;
        }
        (p, false)
    }
}

/// The word that a line asks to program.
fn parse_line(line: &[u8]) -> (r: Option<(u32, u32)>)
    ensures
        r == upload_word(line@),
{
    let sp: usize = find_space(line);
    if sp >= line.len() {
        return None;
    }
    let first: &[u8] = slice_subrange(line, 0, sp);
    let second: &[u8] = slice_subrange(line, sp + 1, line.len());
    assert(first@ =~= line@.take(sp as int));
    assert(second@ =~= line@.skip(sp + 1));
    match (parse_hex(first), parse_hex(second)) {
        (Some(addr), Some(val)) => {
            if addr >= APP_ADDR && addr < UPLOAD_END && addr % 4 == 0 {
                Some((addr, val))
            } else {
                None
            }
        },
        _ => None,
    }
}

fn program_word(addr: u32, val: u32) -> (p: Plan)
    ensures
        p@ == program_acts(addr, val),
{
    let mut p: Plan = Plan::new();
    reg_until_clear(&mut p, FLASH_R, FLASH_SR, 1u32 << 16);
    p.push(Op::Write { addr, val });
    reg_until_clear(&mut p, FLASH_R, FLASH_SR, 1u32 << 16);
    p
}

fn upload_end(total: u32) -> (p: Plan)
    ensures
        p@ == upload_end_acts(total),
{
    let mut p: Plan = Plan::new();
    reg_write(&mut p, FLASH_R, FLASH_CR, 0);
    reg_modify(&mut p, FLASH_R, FLASH_CR, 0, 1u32 << 31);
    p.say("OK ");
    p.say_hex32(total);
    p.say(" bytes\r\n");
    p
}

proof fn upload_after_end(s: Session, packet: Seq<u8>, m: nat, n: nat)
    requires
        m <= n,
        upload_upto(s, packet, m).done,
    ensures
        upload_upto(s, packet, n) == upload_upto(s, packet, m),
    decreases n,
{
    if m < n {
        upload_after_end(s, packet, m, (n - 1) as nat);
    }
}

// ---------------------------------------------------------------------------
// What an upload promises
// ---------------------------------------------------------------------------

/// Whether an act writes nothing but the erased sector and the flash control
/// register.
pub open spec fn stays_in_sector(act: Act) -> bool {
    match act {
        Act::Write { addr, .. } => in_sector(addr) || addr == at(FLASH_R, FLASH_CR),
        Act::Modify { addr, .. } => addr == at(FLASH_R, FLASH_CR),
        _ => true,
    }
}

/// Whatever is sent, an upload programs nothing outside the application's
/// sector: the bootloader and the monitor in flash stay as they are.
pub proof fn upload_stays_in_sector(s: Session, packet: Seq<u8>, n: nat)
    requires
        n <= packet.len(),
        forall|i: int| 0 <= i < s.acts.len() ==> stays_in_sector(#[trigger] s.acts[i]),
    ensures
        forall|i: int|
            0 <= i < upload_upto(s, packet, n).acts.len() ==> stays_in_sector(
                #[trigger] upload_upto(s, packet, n).acts[i],
            ),
    decreases n,
{
    if n > 0 {
        upload_stays_in_sector(s, packet, (n - 1) as nat);
        let before = upload_upto(s, packet, (n - 1) as nat);
        let after = upload_upto(s, packet, n);
        assert forall|i: int| 0 <= i < after.acts.len() implies stays_in_sector(
            #[trigger] after.acts[i],
        ) by {
            if i < before.acts.len() {
                assert(stays_in_sector(before.acts[i]));
            }
        }
    }
}

/// Number of words that a sequence of acts programs.
pub open spec fn words_programmed(acts: Seq<Act>) -> nat
    decreases acts.len(),
{
    if acts.len() == 0 {
        0
    } else {
        words_programmed(acts.drop_last()) + match acts.last() {
            Act::Write { addr, .. } => if in_sector(addr) {
                1nat
            } else {
                0nat
            },
            _ => 0nat,
        }
    }
}

proof fn words_programmed_append(a: Seq<Act>, b: Seq<Act>)
    ensures
        words_programmed(a + b) == words_programmed(a) + words_programmed(b),
    decreases b.len(),
{
    if b.len() == 0 {
        assert(a + b =~= a);
    } else {
        assert((a + b).drop_last() =~= a + b.drop_last());
        words_programmed_append(a, b.drop_last());
    }
}

proof fn program_is_one_word(addr: u32, val: u32)
    requires
        in_sector(addr),
    ensures
        words_programmed(program_acts(addr, val)) == 1,
{
    let a = program_acts(addr, val);
    assert(a.drop_last().drop_last().drop_last() =~= Seq::<Act>::empty());
    assert(a.drop_last().last() == Act::Write { addr, val });
    reveal_with_fuel(words_programmed, 4);
}

proof fn end_is_no_word(total: u32)
    ensures
        words_programmed(upload_end_acts(total)) == 0,
{
    let a = upload_end_acts(total);
    let d = a.drop_last();
    let e = d.drop_last();
    let f = e.drop_last();
    let g = f.drop_last();
    assert(d.last() == a[3] && e.last() == a[2] && f.last() == a[1] && g.last() == a[0]);
    assert(g.drop_last() =~= Seq::<Act>::empty());
    reveal_with_fuel(words_programmed, 6);
}

/// Whether a session's count is four times the number of words it has programmed,
/// in 32 bits.
pub open spec fn counts_bytes(s: Session) -> bool {
    s.total == (4 * words_programmed(s.acts)) % 0x1_0000_0000
}

proof fn count_goes_on(total: u32, n: int)
    requires
        total == n % 0x1_0000_0000,
    ensures
        four_more(total) == (n + 4) % 0x1_0000_0000,
{
}

proof fn byte_is_counted(s: Session, b: u8)
    requires
        counts_bytes(s),
    ensures
        counts_bytes(upload_byte(s, b)),
{
    let after = upload_byte(s, b);
    if after.acts != s.acts {
        if after.done {
            end_is_no_word(s.total);
            words_programmed_append(s.acts, upload_end_acts(s.total));
        } else if let Some((addr, val)) = upload_word(s.line) {
            program_is_one_word(addr, val);
            words_programmed_append(s.acts, program_acts(addr, val));
            count_goes_on(s.total, 4 * words_programmed(s.acts) as int);
            assert(words_programmed(after.acts) == words_programmed(s.acts) + 1);
        }
    } else if let Some((addr, val)) = upload_word(s.line) {
        assert((s.acts + program_acts(addr, val)).len() == s.acts.len() + 3);
    }
}

/// The count that `end` reports is four times the number of words programmed,
/// in 32 bits.
pub proof fn upload_counts_bytes(s: Session, packet: Seq<u8>, n: nat)
    requires
        n <= packet.len(),
        counts_bytes(s),
    ensures
        counts_bytes(upload_upto(s, packet, n)),
    decreases n,
{
    if n > 0 {
        upload_counts_bytes(s, packet, (n - 1) as nat);
        byte_is_counted(upload_upto(s, packet, (n - 1) as nat), packet[n - 1]);
    }
}

/// Whether a byte is part of a line.
pub open spec fn is_line_byte(b: u8) -> bool {
    b != 13 && b != 10
}

/// The bytes of a line gather in it.
proof fn upload_gathers(s: Session, packet: Seq<u8>, n: nat)
    requires
        !s.done,
        s.line.len() == 0,
        n <= packet.len(),
        n <= MAX_LINE,
        forall|i: int| 0 <= i < n ==> is_line_byte(#[trigger] packet[i]),
    ensures
        upload_upto(s, packet, n) == (Session { line: packet.take(n as int), ..s }),
    decreases n,
{
    if n > 0 {
        upload_gathers(s, packet, (n - 1) as nat);
        assert(is_line_byte(packet[n - 1]));
        assert(packet.take(n - 1).push(packet[n - 1]) =~= packet.take(n as int));
    } else {
        assert(s.line =~= packet.take(0));
    }
}

/// The line that programs `val` at `addr`.
pub open spec fn upload_line(addr: u32, val: u32) -> Seq<u8> {
    hex32(addr) + seq![0x20u8] + hex32(val)
}

proof fn upload_line_denotes(addr: u32, val: u32)
    requires
        in_sector(addr),
    ensures
        upload_word(upload_line(addr, val)) == Some((addr, val)),
        upload_line(addr, val).len() == 17,
        forall|i: int| 0 <= i < 17 ==> is_line_byte(#[trigger] upload_line(addr, val)[i]),
{
    upload_line_parses(addr, val);
}

proof fn upload_line_parses(addr: u32, val: u32)
    ensures
        ({
            let line = upload_line(addr, val);
            &&& space_from(line, 0) == 8
            &&& hex_number(line.take(8)) == Some(addr)
            &&& hex_number(line.skip(9)) == Some(val)
            &&& line.len() == 17
            &&& forall|i: int| 0 <= i < 17 ==> is_line_byte(#[trigger] line[i])
        }),
{
    reveal_with_fuel(pow16, 9);
    hex_digits_denote(addr as nat, 8);
    hex_digits_denote(val as nat, 8);
    parse_of_hex32(addr);
    parse_of_hex32(val);
    let line = upload_line(addr, val);
    assert forall|i: int| 0 <= i < 17 implies is_line_byte(#[trigger] line[i]) by {
        if i < 8 {
            assert(is_hex(hex32(addr)[i]));
        } else if i > 8 {
            assert(is_hex(hex32(val)[i - 9]));
        }
    }
    assert forall|i: int| 0 <= i < 8 implies line[i] != 0x20 by {
        assert(is_hex(hex32(addr)[i]));
    }
    reveal_with_fuel(space_from, 10);
    assert(space_from(line, 0) == 8);
    assert(line.take(8) =~= hex32(addr));
    assert(line.skip(9) =~= hex32(val));
}

/// A word that is sent is programmed: its line, at the start of a session or
/// behind another line, programs exactly this word and counts four bytes.
pub proof fn upload_programs_what_is_sent(s: Session, addr: u32, val: u32, newline: u8)
    requires
        !s.done,
        s.line.len() == 0,
        in_sector(addr),
        newline == 13 || newline == 10,
    ensures
        upload_packet(s, upload_line(addr, val).push(newline)) == (Session {
            line: Seq::empty(),
            total: four_more(s.total),
            acts: s.acts + program_acts(addr, val),
            done: false,
        }),
{
    let packet = upload_line(addr, val).push(newline);
    upload_line_denotes(addr, val);
    assert forall|i: int| 0 <= i < 17 implies is_line_byte(#[trigger] packet[i]) by {
        assert(packet[i] == upload_line(addr, val)[i]);
    }
    upload_gathers(s, packet, 17);
    assert(packet.take(17) =~= upload_line(addr, val));
    reveal_strlit("end");
    assert("end".is_ascii());
    assert(text("end").len() == 3);
}

/// `end` locks the flash, reports the count and ends the session.
pub proof fn upload_end_ends(s: Session, newline: u8)
    requires
        !s.done,
        s.line.len() == 0,
        newline == 13 || newline == 10,
    ensures
        ({
            let after = upload_packet(s, text("end").push(newline));
            &&& after.done
            &&& after.acts == s.acts + upload_end_acts(s.total)
        }),
{
    let packet = text("end").push(newline);
    reveal_strlit("end");
    assert("end".is_ascii());
    assert(text("end").len() == 3);
    assert(text("end")[0] == 101 && text("end")[1] == 110 && text("end")[2] == 100);
    upload_gathers(s, packet, 3);
    assert(packet.take(3) =~= text("end"));
}

/// A word that is programmed is in flash, and nothing else has changed there.
pub proof fn programmed_word_is_stored(addr: u32, val: u32, regs: Regs)
    requires
        in_sector(addr),
    ensures
        run(program_acts(addr, val), regs) == regs.insert(addr, val),
{
    reveal_with_fuel(run_upto, 4);
}

proof fn upload_of_prefix(s: Session, a: Seq<u8>, b: Seq<u8>, n: nat)
    requires
        n <= a.len(),
    ensures
        upload_upto(s, a + b, n) == upload_upto(s, a, n),
    decreases n,
{
    if n > 0 {
        upload_of_prefix(s, a, b, (n - 1) as nat);
    }
}

proof fn upload_of_suffix(s: Session, a: Seq<u8>, b: Seq<u8>, n: nat)
    requires
        n <= b.len(),
    ensures
        upload_upto(s, a + b, a.len() + n) == upload_upto(upload_packet(s, a), b, n),
    decreases n,
{
    if n > 0 {
        upload_of_suffix(s, a, b, (n - 1) as nat);
        assert((a + b)[a.len() + n - 1] == b[n - 1]);
    } else {
        upload_of_prefix(s, a, b, a.len());
    }
}

/// Packets may end anywhere: what is sent in two of them does what it does in one.
pub proof fn packets_may_be_split(s: Session, a: Seq<u8>, b: Seq<u8>)
    ensures
        upload_packet(s, a + b) == upload_packet(upload_packet(s, a), b),
{
    upload_of_suffix(s, a, b, b.len());
}

/// The lines that program some words, one after the other.
pub open spec fn image_lines(words: Seq<(u32, u32)>, newline: u8) -> Seq<u8>
    decreases words.len(),
{
    if words.len() == 0 {
        Seq::empty()
    } else {
        image_lines(words.drop_last(), newline) + upload_line(
            words.last().0,
            words.last().1,
        ).push(newline)
    }
}

/// Memory with some words stored in it, one after the other.
pub open spec fn image_stored(regs: Regs, words: Seq<(u32, u32)>) -> Regs
    decreases words.len(),
{
    if words.len() == 0 {
        regs
    } else {
        image_stored(regs, words.drop_last()).insert(words.last().0, words.last().1)
    }
}

/// A session with a word more: its line received, the word programmed.
pub open spec fn with_word(s: Session, word: (u32, u32)) -> Session {
    Session {
        line: Seq::empty(),
        total: four_more(s.total),
        acts: s.acts + program_acts(word.0, word.1),
        done: false,
    }
}

/// A session with some words more.
pub open spec fn with_words(s: Session, words: Seq<(u32, u32)>) -> Session
    decreases words.len(),
{
    if words.len() == 0 {
        s
    } else {
        with_word(with_words(s, words.drop_last()), words.last())
    }
}

proof fn words_are_received(s: Session, words: Seq<(u32, u32)>, newline: u8)
    requires
        !s.done,
        s.line.len() == 0,
        newline == 13 || newline == 10,
        forall|i: int| 0 <= i < words.len() ==> in_sector((#[trigger] words[i]).0),
    ensures
        upload_packet(s, image_lines(words, newline)) == with_words(s, words),
        !with_words(s, words).done,
        with_words(s, words).line.len() == 0,
    decreases words.len(),
{
    if words.len() > 0 {
        let first = words.drop_last();
        let (addr, val) = words[words.len() - 1];
        assert forall|i: int| 0 <= i < first.len() implies in_sector((#[trigger] first[i]).0) by {
            assert(first[i] == words[i]);
        }
        words_are_received(s, first, newline);
        let line = upload_line(addr, val).push(newline);
        packets_may_be_split(s, image_lines(first, newline), line);
        upload_programs_what_is_sent(with_words(s, first), addr, val, newline);
    }
}

proof fn words_are_stored(s: Session, words: Seq<(u32, u32)>, regs: Regs)
    requires
        forall|i: int| 0 <= i < words.len() ==> in_sector((#[trigger] words[i]).0),
    ensures
        run(with_words(s, words).acts, regs) == image_stored(run(s.acts, regs), words),
    decreases words.len(),
{
    if words.len() > 0 {
        let first = words.drop_last();
        let (addr, val) = words[words.len() - 1];
        assert forall|i: int| 0 <= i < first.len() implies in_sector((#[trigger] first[i]).0) by {
            assert(first[i] == words[i]);
        }
        words_are_stored(s, first, regs);
        let before = with_words(s, first).acts;
        run_append(before, program_acts(addr, val), regs);
        programmed_word_is_stored(addr, val, run(before, regs));
    }
}

proof fn words_are_counted(s: Session, words: Seq<(u32, u32)>)
    ensures
        with_words(s, words).total == (s.total + 4 * words.len()) % 0x1_0000_0000,
    decreases words.len(),
{
    if words.len() > 0 {
        let first = words.drop_last();
        words_are_counted(s, first);
        count_goes_on(with_words(s, first).total, s.total + 4 * first.len());
    }
}

/// An image that is sent is in flash, word for word, and nothing else has changed;
/// the session has counted its bytes and waits for more.
pub proof fn image_is_stored(s: Session, words: Seq<(u32, u32)>, newline: u8, regs: Regs)
    requires
        !s.done,
        s.line.len() == 0,
        newline == 13 || newline == 10,
        forall|i: int| 0 <= i < words.len() ==> in_sector((#[trigger] words[i]).0),
    ensures
        ({
            let after = upload_packet(s, image_lines(words, newline));
            &&& run(after.acts, regs) == image_stored(run(s.acts, regs), words)
            &&& after.total == (s.total + 4 * words.len()) % 0x1_0000_0000
            &&& after.line.len() == 0
            &&& !after.done
        }),
{
    words_are_received(s, words, newline);
    words_are_stored(s, words, regs);
    words_are_counted(s, words);
}

/// What a line of an upload does, by address: a word at a multiple of four from 0x08010000
/// up to but not including 0x08020000 is written to exactly there, once the flash is not
/// busy, and counts four bytes; a word for any other address is dropped.
pub proof fn upload_writes_by_address(s: Session, addr: u32, val: u32, newline: u8)
    requires
        !s.done,
        s.line.len() == 0,
        newline == 13 || newline == 10,
    ensures
        ({
            let packet = hex32(addr) + seq![0x20u8] + hex32(val) + seq![newline];
            let after = upload_packet(s, packet);
            let busy = Act::WaitClear { addr: 0x4002_3C0C, mask: 0x1_0000 };
            &&& !after.done
            &&& after.line.len() == 0
            &&& if 0x0801_0000 <= addr && addr < 0x0802_0000 && addr % 4 == 0 {
                &&& after.acts == s.acts + seq![busy, Act::Write { addr, val }, busy]
                &&& after.total == (s.total + 4) % 0x1_0000_0000
            } else {
                &&& after.acts == s.acts
                &&& after.total == s.total
            }
        }),
{
    let line = upload_line(addr, val);
    let packet = hex32(addr) + seq![0x20u8] + hex32(val) + seq![newline];
    assert(packet =~= line.push(newline));
    upload_line_parses(addr, val);
    assert forall|i: int| 0 <= i < 17 implies is_line_byte(#[trigger] packet[i]) by {
        assert(packet[i] == line[i]);
    }
    upload_gathers(s, packet, 17);
    assert(packet.take(17) =~= line);
    reveal_strlit("end");
    assert("end".is_ascii());
    assert(text("end").len() == 3);
    bit_values();
    let before = upload_upto(s, packet, 17);
    assert(upload_packet(s, packet) == upload_byte(before, newline));
}

/// Preparing an upload: the flash is unlocked by its two keys, its fourth sector is erased
/// between two waits for it not to be busy, and programming by words is switched on.
pub proof fn upload_prepares_flash()
    ensures
        ({
            let busy = Act::WaitClear { addr: 0x4002_3C0C, mask: 0x1_0000 };
            upload_begin_acts() == seq![
                Act::Write { addr: 0x4002_3C04, val: 0x4567_0123 },
                Act::Write { addr: 0x4002_3C04, val: 0xCDEF_89AB },
                say("Erasing sector 4..."),
                busy,
                Act::Write { addr: 0x4002_3C10, val: 0x0001_0222 },
                busy,
                Act::Write { addr: 0x4002_3C10, val: 0 },
                say(" OK\r\nSend: ADDR VALUE (hex), 'end' to finish.\r\n"),
                Act::Write { addr: 0x4002_3C10, val: 0x0000_0201 },
            ]
        }),
{
    bit_values();
}

/// Ending an upload: programming goes off, the flash is locked, and the count is told in
/// hex. Nothing that follows in the session does anything.
pub proof fn upload_ends_locked(s: Session, rest: Seq<u8>, newline: u8, regs: Regs, mem: Memory)
    requires
        !s.done,
        s.line.len() == 0,
        s.acts.len() == 0,
        newline == 13 || newline == 10,
    ensures
        ({
            let after = upload_packet(s, text("end").push(newline) + rest);
            &&& after.done
            &&& after.total == s.total
            &&& run(after.acts, regs)[0x4002_3C10u32] == 0x8000_0000
            &&& output(after.acts, mem) == text("OK ") + hex32(s.total) + text(" bytes\r\n")
        }),
{
    let packet = text("end").push(newline);
    upload_end_ends(s, newline);
    packets_may_be_split(s, packet, rest);
    let ended = upload_packet(s, packet);
    upload_after_end(ended, rest, 0, rest.len());
    assert(ended.acts =~= upload_end_acts(s.total));
    reveal_with_fuel(run_upto, 6);
    reveal_with_fuel(output_upto, 6);
    bit_values();
    assert(output(ended.acts, mem) =~= text("OK ") + hex32(s.total) + text(" bytes\r\n"));
    reveal_strlit("end");
    assert("end".is_ascii());
    assert(text("end").len() == 3);
    assert(text("end")[0] == 101 && text("end")[1] == 110 && text("end")[2] == 100);
    upload_gathers(s, packet, 3);
}

/// A line that is not an address and a value is dropped, and an empty one is no line.
pub proof fn upload_drops_other_lines(s: Session, newline: u8)
    requires
        !s.done,
        newline == 13 || newline == 10,
        s.line != text("end"),
        forall|i: int|
            0 <= i < s.line.len() && #[trigger] s.line[i] == 0x20 ==> (exists|j: int|
                0 <= j < i && #[trigger] s.line[j] == 0x20) || hex_number(s.line.take(i)) is None
                || hex_number(s.line.skip(i + 1)) is None,
    ensures
        upload_byte(s, newline) == (Session { line: Seq::empty(), ..s }),
{
    let sp = space_from(s.line, 0);
    first_space_is_first(s.line, 0, 0);
    if s.line.len() == 0 {
        assert(s.line =~= Seq::<u8>::empty());
    } else if sp < s.line.len() {
        assert(s.line[sp] == 0x20);
        if exists|j: int| 0 <= j < sp && #[trigger] s.line[j] == 0x20 {
            let j = choose|j: int| 0 <= j < sp && #[trigger] s.line[j] == 0x20;
            first_space_is_first(s.line, 0, j);
        }
    }
}

/// A line keeps its first 32 characters.
pub proof fn upload_lines_are_short(s: Session, b: u8)
    requires
        !s.done,
        b != 13,
        b != 10,
    ensures
        s.line.len() < 32 ==> upload_byte(s, b) == (Session { line: s.line.push(b), ..s }),
        s.line.len() >= 32 ==> upload_byte(s, b) == s,
{
}

} // verus!
