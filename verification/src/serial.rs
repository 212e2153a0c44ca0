//! Sending over the serial line, which takes as much at a time as it has room for.
use vstd::prelude::*;

verus! {

/// What the serial line made of an attempt to write.
#[derive(Clone, Copy, Debug, PartialEq, Eq, Structural)]
pub enum Attempt {
    /// It took this many bytes.
    Accepted(usize),
    /// It had no room.
    WouldBlock,
    /// It failed.
    Failed,
}

/// What to do after an attempt.
#[derive(Clone, Copy, Debug, PartialEq, Eq, Structural)]
pub enum Onward {
    /// Write what is left.
    Write,
    /// Service the line, then write what is left.
    PollAndWrite,
    /// Stop: all is sent, or the line failed.
    Stop,
}

/// Progress of a send.
#[derive(Clone, Copy, Debug, PartialEq, Eq, Structural)]
pub struct Sender {
    /// Bytes taken so far.
    pub offset: usize,
}

/// The progress after an attempt to send the rest of `len` bytes.
pub open spec fn after_attempt(s: Sender, len: usize, a: Attempt) -> Sender {
    match a {
        Attempt::Accepted(n) => Sender {
            offset: if s.offset + n < len {
                (s.offset + n) as usize
            } else {
                len
            },
        },
        Attempt::WouldBlock | Attempt::Failed => s,
    }
}

/// What follows an attempt.
pub open spec fn onward(s: Sender, len: usize, a: Attempt) -> Onward {
    match a {
        Attempt::Accepted(n) => if s.offset + n < len {
            Onward::Write
        } else {
            Onward::Stop
        },
        Attempt::WouldBlock => Onward::PollAndWrite,
        Attempt::Failed => Onward::Stop,
    }
}

impl Sender {
    /// A send that has not begun.
    pub fn new() -> (s: Sender)
        ensures
            s == (Sender { offset: 0 }),
    {
        Sender { offset: 0 }
    }

    /// Whether there is something to write at all.
    pub fn pending(&self, len: usize) -> (r: bool)
        ensures
            r == (self.offset < len),
    {
        self.offset < len
    }

    /// Takes note of an attempt to write what was left of `len` bytes.
    pub fn serial_write_all(&mut self, len: usize, a: Attempt) -> (r: Onward)
        requires
            old(self).offset <= len,
        ensures
            *final(self) == after_attempt(*old(self), len, a),
            final(self).offset <= len,
            r == onward(*old(self), len, a),
    {
        match a {
            Attempt::Accepted(n) => {
                if n < len - self.offset {
                    self.offset = self.offset + n;
                    Onward::Write
                } else {
                    self.offset = len;
                    Onward::Stop
                }
            },
            Attempt::WouldBlock => Onward::PollAndWrite,
            Attempt::Failed => Onward::Stop,
        }
    }
}

/// The progress after the first `n` attempts.
pub open spec fn after_attempts(s: Sender, len: usize, a: Seq<Attempt>, n: nat) -> Sender
    decreases n,
{
    if n == 0 {
        s
    } else {
        after_attempt(after_attempts(s, len, a, (n - 1) as nat), len, a[n - 1])
    }
}

/// Sum of what the first `n` attempts took.
pub open spec fn taken(a: Seq<Attempt>, n: nat) -> nat
    decreases n,
{
    if n == 0 {
        0
    } else {
        taken(a, (n - 1) as nat) + match a[n - 1] {
            Attempt::Accepted(k) => k as nat,
            _ => 0nat,
        }
    }
}

/// Nothing is skipped and nothing is sent twice: as long as bytes are left, the
/// next write starts where the bytes taken so far end.
pub proof fn sender_keeps_place(len: usize, a: Seq<Attempt>, n: nat)
    requires
        n <= a.len(),
        taken(a, n) <= len,
    ensures
        after_attempts(Sender { offset: 0 }, len, a, n).offset == taken(a, n),
    decreases n,
{
    if n > 0 {
        sender_keeps_place(len, a, (n - 1) as nat);
    }
}

/// A send goes on until all is sent: however often the line had no room, the next
/// attempt writes what was left, and a line that takes it ends the send with
/// every byte out.
pub proof fn sender_does_not_give_up(s: Sender, len: usize, a: Seq<Attempt>, n: nat)
    requires
        s.offset < len,
        n <= a.len(),
        forall|i: int| 0 <= i < a.len() ==> #[trigger] a[i] == Attempt::WouldBlock,
    ensures
        ({
            let now = after_attempts(s, len, a, n);
            let rest = (len - s.offset) as usize;
            &&& now == s
            &&& onward(now, len, Attempt::WouldBlock) == Onward::PollAndWrite
            &&& onward(now, len, Attempt::Accepted(rest)) == Onward::Stop
            &&& after_attempt(now, len, Attempt::Accepted(rest)).offset == len
        }),
    decreases n,
{
    if n > 0 {
        sender_does_not_give_up(s, len, a, (n - 1) as nat);
        assert(a[n - 1] == Attempt::WouldBlock);
    }
}

/// What follows an attempt: a send stops exactly when the line failed or took all that was
/// left; it services the line and tries again when there was no room, and writes on otherwise.
/// What is counted as sent is what the line took, and never more than there was.
pub proof fn attempts_decide(s: Sender, len: usize, a: Attempt)
    requires
        s.offset < len,
    ensures
        onward(s, len, a) == Onward::Stop <==> a == Attempt::Failed || after_attempt(
            s,
            len,
            a,
        ).offset == len,
        onward(s, len, a) == Onward::PollAndWrite <==> a == Attempt::WouldBlock,
        a matches Attempt::Accepted(n) ==> after_attempt(s, len, a).offset == if n < len
            - s.offset {
            s.offset + n
        } else {
            len as int
        },
        !(a is Accepted) ==> after_attempt(s, len, a) == s,
{
}

} // verus!
