//! The line editor of the serial shell.
use crate::plan::{output, output_append, output_upto, printable, say, text, Act, Memory, Plan};
use vstd::prelude::*;
use vstd::slice::{slice_subrange, slice_to_vec};

verus! {

/// Size of the line buffer; its last byte stays unused.
pub const CMD_SIZE: usize = 128;

/// Longest line.
pub const CMD_MAX: usize = 127;

pub open spec fn is_enter(ch: u8) -> bool {
    ch == 13 || ch == 10
}

pub open spec fn is_erase(ch: u8) -> bool {
    ch == 0x7F || ch == 0x08
}

pub open spec fn is_cancel(ch: u8) -> bool {
    ch == 0x03
}

/// The line after a key. Characters beyond the longest line are dropped.
pub open spec fn edited(line: Seq<u8>, ch: u8) -> Seq<u8> {
    if is_enter(ch) || is_cancel(ch) {
        Seq::empty()
    } else if is_erase(ch) {
        if line.len() > 0 {
            line.drop_last()
        } else {
            line
        }
    } else if printable(ch) && line.len() < CMD_MAX {
        line.push(ch)
    } else {
        line
    }
}

/// What a key makes appear. `cancelled` is shown when a line is given up.
pub open spec fn echoed(line: Seq<u8>, ch: u8, cancelled: &str) -> Seq<Act> {
    if is_enter(ch) {
        seq![say("\r\n")]
    } else if is_erase(ch) {
        if line.len() > 0 {
            seq![say("\x08 \x08")]
        } else {
            Seq::empty()
        }
    } else if is_cancel(ch) {
        seq![say(cancelled)]
    } else if printable(ch) && line.len() < CMD_MAX {
        seq![Act::Send(seq![ch])]
    } else {
        Seq::empty()
    }
}

/// A line being typed.
pub struct ShellState {
    pub cmd_buf: [u8; CMD_SIZE],
    pub cmd_len: usize,
}

impl View for ShellState {
    type V = Seq<u8>;

    open spec fn view(&self) -> Seq<u8> {
        self.cmd_buf@.take(self.cmd_len as int)
    }
}

impl ShellState {
    /// The line is not too long and holds printable characters only.
    pub open spec fn wf(&self) -> bool {
        &&& self.cmd_len <= CMD_MAX
        &&& forall|i: int| 0 <= i < self@.len() ==> printable(#[trigger] self@[i])
    }

    /// An empty line.
    pub fn new() -> (s: ShellState)
        ensures
            s.wf(),
            s@ == Seq::<u8>::empty(),
            s.cmd_buf@ == Seq::new(CMD_SIZE as nat, |i: int| 0u8),
            s.cmd_len == 0,
    {
        ShellState { cmd_buf: [0; CMD_SIZE], cmd_len: 0 }
    }

    /// Drops the line.
    pub fn reset(&mut self)
        ensures
            final(self).wf(),
            final(self)@ == Seq::<u8>::empty(),
    {
        self.cmd_len = 0;
    }

    /// Takes a key. Enter hands the line out.
    pub fn feed(&mut self, ch: u8, cancelled: &str) -> (r: (Plan, Option<Vec<u8>>))
        requires
            old(self).wf(),
        ensures
            final(self).wf(),
            final(self)@ == edited(old(self)@, ch),
            r.0@ == echoed(old(self)@, ch, cancelled),
            match r.1 {
                Some(line) => is_enter(ch) && line@ == old(self)@,
                None => !is_enter(ch),
            },
    {
        let ghost before = self@;
        let mut p: Plan = Plan::new();
        if ch == 13 || ch == 10 {
            p.say("\r\n");
            let line: Vec<u8> = slice_to_vec(
                slice_subrange(self.cmd_buf.as_slice(), 0, self.cmd_len),
            );
            assert(line@ =~= before);
            self.reset();
            return (p, Some(line));
        }
        if ch == 0x7F || ch == 0x08 {
            if self.cmd_len > 0 {
                self.cmd_len = self.cmd_len - 1;
                p.say("\x08 \x08");
                assert(self@ =~= before.drop_last());
            }
        } else if ch == 0x03 {
            p.say(cancelled);
            self.reset();
        } else if ch >= 0x20 && ch <= 0x7E {
            if self.cmd_len < CMD_MAX {
                self.cmd_buf[self.cmd_len] = ch;
                self.cmd_len = self.cmd_len + 1;
                p.say_byte(ch);
                assert(self@ =~= before.push(ch));
            }
        }
        (p, None)
    }
}

// ---------------------------------------------------------------------------
// What typing does
// ---------------------------------------------------------------------------

/// The line after the first `n` keys.
pub open spec fn typed(line: Seq<u8>, keys: Seq<u8>, n: nat) -> Seq<u8>
    decreases n,
{
    if n == 0 {
        line
    } else {
        edited(typed(line, keys, (n - 1) as nat), keys[n - 1])
    }
}

/// What the first `n` keys make appear.
pub open spec fn typed_echo(line: Seq<u8>, keys: Seq<u8>, n: nat, cancelled: &str) -> Seq<Act>
    decreases n,
{
    if n == 0 {
        Seq::empty()
    } else {
        typed_echo(line, keys, (n - 1) as nat, cancelled) + echoed(
            typed(line, keys, (n - 1) as nat),
            keys[n - 1],
            cancelled,
        )
    }
}

/// No sequence of keys makes the line longer than the buffer allows.
pub proof fn typing_stays_in_buffer(line: Seq<u8>, keys: Seq<u8>, n: nat)
    requires
        n <= keys.len(),
        line.len() <= CMD_MAX,
    ensures
        typed(line, keys, n).len() <= CMD_MAX,
    decreases n,
{
    if n > 0 {
        typing_stays_in_buffer(line, keys, (n - 1) as nat);
    }
}

/// Printable keys gather in the line, as far as it has room.
pub proof fn printable_keys_gather(keys: Seq<u8>, n: nat)
    requires
        n <= keys.len(),
        n <= CMD_MAX,
        forall|i: int| 0 <= i < keys.len() ==> printable(#[trigger] keys[i]),
    ensures
        typed(Seq::empty(), keys, n) == keys.take(n as int),
    decreases n,
{
    if n > 0 {
        printable_keys_gather(keys, (n - 1) as nat);
        assert(printable(keys[n - 1]));
        assert(keys.take(n - 1).push(keys[n - 1]) =~= keys.take(n as int));
    }
}

/// What is typed is what is seen: printable keys are echoed one by one.
pub proof fn printable_keys_echo(keys: Seq<u8>, n: nat, cancelled: &str, mem: Memory)
    requires
        n <= keys.len(),
        n <= CMD_MAX,
        forall|i: int| 0 <= i < keys.len() ==> printable(#[trigger] keys[i]),
    ensures
        output(typed_echo(Seq::empty(), keys, n, cancelled), mem) == keys.take(n as int),
    decreases n,
{
    if n > 0 {
        let k = (n - 1) as nat;
        printable_keys_echo(keys, k, cancelled, mem);
        printable_keys_gather(keys, k);
        assert(printable(keys[n - 1]));
        let last = echoed(typed(Seq::empty(), keys, k), keys[n - 1], cancelled);
        output_append(typed_echo(Seq::empty(), keys, k, cancelled), last, mem);
        reveal_with_fuel(output_upto, 2);
        assert(output(last, mem) =~= seq![keys[n - 1]]);
        assert(keys.take(n - 1) + seq![keys[n - 1]] =~= keys.take(n as int));
    }
}

/// A backspace takes back the character before it.
pub proof fn erase_undoes_character(line: Seq<u8>, ch: u8, erase: u8)
    requires
        printable(ch),
        is_erase(erase),
        line.len() < CMD_MAX,
    ensures
        edited(edited(line, ch), erase) == line,
{
    assert(line.push(ch).drop_last() =~= line);
}

/// Ctrl-C forgets whatever was typed.
pub proof fn cancel_forgets(line: Seq<u8>, other: Seq<u8>)
    ensures
        edited(line, 0x03) == edited(other, 0x03),
        edited(line, 0x03).len() == 0,
{
}

/// What each key does to the line and on the screen: a printable character, 0x20 to 0x7E, is
/// added and echoed while the line is shorter than 127; backspace and delete take the last
/// character back; Ctrl+C and Enter leave an empty line; every other key does nothing.
pub proof fn keys_do_what_they_say(line: Seq<u8>, ch: u8, cancelled: &str, mem: Memory)
    ensures
        0x20 <= ch <= 0x7E && line.len() < 127 ==> edited(line, ch) == line.push(ch) && output(
            echoed(line, ch, cancelled),
            mem,
        ) == seq![ch],
        0x20 <= ch <= 0x7E && line.len() >= 127 ==> edited(line, ch) == line && output(
            echoed(line, ch, cancelled),
            mem,
        ).len() == 0,
        (ch == 0x7F || ch == 0x08) && line.len() > 0 ==> edited(line, ch) == line.take(
            line.len() - 1,
        ) && output(echoed(line, ch, cancelled), mem) == text("\x08 \x08"),
        (ch == 0x7F || ch == 0x08) && line.len() == 0 ==> edited(line, ch).len() == 0 && output(
            echoed(line, ch, cancelled),
            mem,
        ).len() == 0,
        ch == 0x03 ==> edited(line, ch).len() == 0 && output(echoed(line, ch, cancelled), mem)
            == text(cancelled),
        ch == 0x0D || ch == 0x0A ==> edited(line, ch).len() == 0 && output(
            echoed(line, ch, cancelled),
            mem,
        ) == text("\r\n"),
        ch > 0x7F || (ch < 0x20 && ch != 0x03 && ch != 0x08 && ch != 0x0A && ch != 0x0D)
            ==> edited(line, ch) == line && output(echoed(line, ch, cancelled), mem).len() == 0,
{
    reveal_with_fuel(output_upto, 2);
    let shown = echoed(line, ch, cancelled);
    if shown.len() == 1 {
        assert(output(shown, mem) =~= shown[0]->Send_0);
    }
    if line.len() > 0 {
        assert(line.drop_last() =~= line.take(line.len() - 1));
    }
}

} // verus!
