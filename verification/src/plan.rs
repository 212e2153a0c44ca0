//! Plans: the bus accesses, delays and messages that a routine asks for, in order.
//!
//! No routine of this library touches hardware. Each one returns a `Plan`; whoever
//! runs it performs the operations one by one. Where a routine has to look at a
//! register before it can decide, its plan ends in loads, and the values loaded are
//! handed to the routine that takes the next step.
use crate::hex::{hex32, hex8, hex8_ends_hex32, hex_is_lower_case, hex_u32, hex_u8};
use vstd::prelude::*;
use vstd::string::*;

verus! {

/// How a value read from memory is printed.
#[derive(Clone, Copy, Debug, PartialEq, Eq, Structural)]
pub enum Form {
    /// A word, as eight hex digits.
    Word,
    /// A half-word, as four hex digits.
    Half,
    /// A byte, as two hex digits.
    Byte,
    /// A byte, as the character it stands for, or a dot.
    Ascii,
}

/// One operation of a plan.
#[derive(Debug, PartialEq, Eq)]
pub enum Op {
    /// Write a word.
    Write { addr: u32, val: u32 },
    /// Read a word, clear and set bits in it, write it back.
    Modify { addr: u32, clear: u32, set: u32 },
    /// Read a word and drop it, which lets an earlier write take effect.
    Read { addr: u32 },
    /// Read a word for the next step.
    Load { addr: u32 },
    /// Read a word at most `tries` times until a bit of `mask` is set; what is
    /// loaded for the next step is 1 if one was, else 0.
    Poll { addr: u32, mask: u32, tries: u32 },
    /// Read a word until a bit of `mask` is set.
    WaitSet { addr: u32, mask: u32 },
    /// Read a word until no bit of `mask` is set.
    WaitClear { addr: u32, mask: u32 },
    /// Read a word until its bits under `mask` are `val`.
    WaitEq { addr: u32, mask: u32, val: u32 },
    /// Wait for a number of core cycles.
    Delay { cycles: u32 },
    /// Execute a number of no-operation instructions.
    Nops { count: u32 },
    /// Wait for a number of milliseconds.
    DelayMs { ms: u32 },
    /// Enable or disable interrupts.
    Irq { on: bool },
    /// Send text over the serial line.
    Send(Vec<u8>),
    /// Read memory and send what was read.
    Show { addr: u32, form: Form },
    /// Service the serial line this many times: pending text goes out, and what the
    /// host sent comes in.
    Flush { polls: u32 },
    /// Load the stack pointer, enable interrupts if asked, and jump.
    Launch { sp: u32, pc: u32, irqs: bool },
    /// Load stack pointer and entry point from a vector table, and jump.
    LaunchTable { table: u32 },
    /// Reset the processor.
    Reset,
    /// Sleep for ever.
    Sleep,
}

/// The meaning of an operation, with text as a sequence.
pub enum Act {
    Write { addr: u32, val: u32 },
    Modify { addr: u32, clear: u32, set: u32 },
    Read { addr: u32 },
    Load { addr: u32 },
    Poll { addr: u32, mask: u32, tries: u32 },
    WaitSet { addr: u32, mask: u32 },
    WaitClear { addr: u32, mask: u32 },
    WaitEq { addr: u32, mask: u32, val: u32 },
    Delay { cycles: u32 },
    Nops { count: u32 },
    DelayMs { ms: u32 },
    Irq { on: bool },
    Send(Seq<u8>),
    Show { addr: u32, form: Form },
    Flush { polls: u32 },
    Launch { sp: u32, pc: u32, irqs: bool },
    LaunchTable { table: u32 },
    Reset,
    Sleep,
}

impl View for Op {
    type V = Act;

    open spec fn view(&self) -> Act {
        match *self {
            Op::Write { addr, val } => Act::Write { addr, val },
            Op::Modify { addr, clear, set } => Act::Modify { addr, clear, set },
            Op::Read { addr } => Act::Read { addr },
            Op::Load { addr } => Act::Load { addr },
            Op::Poll { addr, mask, tries } => Act::Poll { addr, mask, tries },
            Op::WaitSet { addr, mask } => Act::WaitSet { addr, mask },
            Op::WaitClear { addr, mask } => Act::WaitClear { addr, mask },
            Op::WaitEq { addr, mask, val } => Act::WaitEq { addr, mask, val },
            Op::Delay { cycles } => Act::Delay { cycles },
            Op::Nops { count } => Act::Nops { count },
            Op::DelayMs { ms } => Act::DelayMs { ms },
            Op::Irq { on } => Act::Irq { on },
            Op::Send(text) => Act::Send(text@),
            Op::Show { addr, form } => Act::Show { addr, form },
            Op::Flush { polls } => Act::Flush { polls },
            Op::Launch { sp, pc, irqs } => Act::Launch { sp, pc, irqs },
            Op::LaunchTable { table } => Act::LaunchTable { table },
            Op::Reset => Act::Reset,
            Op::Sleep => Act::Sleep,
        }
    }
}

/// Operations to be performed in order.
#[derive(Debug, PartialEq, Eq)]
pub struct Plan {
    pub ops: Vec<Op>,
}

impl View for Plan {
    type V = Seq<Act>;

    open spec fn view(&self) -> Seq<Act> {
        Seq::new(self.ops@.len(), |i: int| self.ops@[i]@)
    }
}

// ---------------------------------------------------------------------------
// Short names for the acts that contracts list
// ---------------------------------------------------------------------------

/// The register `off` bytes into a peripheral.
pub open spec fn at(base: u32, off: u32) -> u32 {
    (base + off) as u32
}

pub open spec fn wr(base: u32, off: u32, val: u32) -> Act {
    Act::Write { addr: at(base, off), val }
}

pub open spec fn md(base: u32, off: u32, clear: u32, set: u32) -> Act {
    Act::Modify { addr: at(base, off), clear, set }
}

pub open spec fn rd(base: u32, off: u32) -> Act {
    Act::Read { addr: at(base, off) }
}

pub open spec fn ld(base: u32, off: u32) -> Act {
    Act::Load { addr: at(base, off) }
}

pub open spec fn until_set(base: u32, off: u32, mask: u32) -> Act {
    Act::WaitSet { addr: at(base, off), mask }
}

pub open spec fn until_clear(base: u32, off: u32, mask: u32) -> Act {
    Act::WaitClear { addr: at(base, off), mask }
}

/// The bytes of a message.
pub open spec fn text(s: &str) -> Seq<u8> {
    s.spec_bytes()
}

pub open spec fn say(s: &str) -> Act {
    Act::Send(text(s))
}

// ---------------------------------------------------------------------------
// Building plans
// ---------------------------------------------------------------------------

impl Plan {
    /// A plan that asks for nothing.
    pub fn new() -> (p: Plan)
        ensures
            p@ == Seq::<Act>::empty(),
    {
        Plan { ops: Vec::new() }
    }

    /// Asks for one thing more.
    pub fn push(&mut self, op: Op)
        ensures
            final(self)@ == old(self)@.push(op@),
    {
        self.ops.push(op);
        assert(self@ =~= old(self)@.push(op@));
    }

    /// Adds the operations of `other` behind the ones already planned.
    pub fn append(&mut self, other: Plan)
        ensures
            final(self)@ == old(self)@ + other@,
    {
        let mut rest: Plan = other;
        self.ops.append(&mut rest.ops);
        assert(self@ =~= old(self)@ + other@);
    }

    /// Sends a message.
    pub fn say(&mut self, s: &str)
        ensures
            final(self)@ == old(self)@.push(say(s)),
    {
        self.push(Op::Send(s.as_bytes_vec()));
    }

    /// Sends a word as eight hex digits.
    pub fn say_hex32(&mut self, val: u32)
        ensures
            final(self)@ == old(self)@.push(Act::Send(hex32(val))),
    {
        let mut buf: [u8; 8] = [0; 8];
        hex_u32(val, &mut buf);
        self.push(Op::Send(vstd::slice::slice_to_vec(buf.as_slice())));
    }

    /// Sends a single byte.
    pub fn say_byte(&mut self, b: u8)
        ensures
            final(self)@ == old(self)@.push(Act::Send(seq![b])),
    {
        let mut v: Vec<u8> = Vec::new();
        v.push(b);
        assert(v@ =~= seq![b]);
        self.push(Op::Send(v));
    }

    /// Sends raw bytes.
    pub fn say_bytes(&mut self, b: &[u8])
        ensures
            final(self)@ == old(self)@.push(Act::Send(b@)),
    {
        self.push(Op::Send(vstd::slice::slice_to_vec(b)));
    }
}

/// Plans the write of a register.
pub fn reg_write(p: &mut Plan, base: u32, offset: u32, val: u32)
    requires
        base + offset <= u32::MAX,
    ensures
        final(p)@ == old(p)@.push(wr(base, offset, val)),
{
    p.push(Op::Write { addr: base + offset, val });
}

/// Plans a read of a register whose value is dropped.
pub fn reg_read(p: &mut Plan, base: u32, offset: u32)
    requires
        base + offset <= u32::MAX,
    ensures
        final(p)@ == old(p)@.push(rd(base, offset)),
{
    p.push(Op::Read { addr: base + offset });
}

/// Plans a read of a register whose value the next step needs.
pub fn reg_load(p: &mut Plan, base: u32, offset: u32)
    requires
        base + offset <= u32::MAX,
    ensures
        final(p)@ == old(p)@.push(ld(base, offset)),
{
    p.push(Op::Load { addr: base + offset });
}

/// Plans a read-modify-write of a register: clear the bits of `clear`, then
/// set the bits of `set`.
pub fn reg_modify(p: &mut Plan, base: u32, offset: u32, clear: u32, set: u32)
    requires
        base + offset <= u32::MAX,
    ensures
        final(p)@ == old(p)@.push(md(base, offset, clear, set)),
{
    p.push(Op::Modify { addr: base + offset, clear, set });
}

/// Plans a wait for a bit of `mask` in a register.
pub fn reg_until_set(p: &mut Plan, base: u32, offset: u32, mask: u32)
    requires
        base + offset <= u32::MAX,
    ensures
        final(p)@ == old(p)@.push(until_set(base, offset, mask)),
{
    p.push(Op::WaitSet { addr: base + offset, mask });
}

/// Plans a wait until a register has no bit of `mask`.
pub fn reg_until_clear(p: &mut Plan, base: u32, offset: u32, mask: u32)
    requires
        base + offset <= u32::MAX,
    ensures
        final(p)@ == old(p)@.push(until_clear(base, offset, mask)),
{
    p.push(Op::WaitClear { addr: base + offset, mask });
}

// ---------------------------------------------------------------------------
// Performing operations: the decisions that whoever runs a plan asks for
// ---------------------------------------------------------------------------

/// What a read-modify-write stores.
pub open spec fn masked(v: u32, clear: u32, set: u32) -> u32 {
    (v & !clear) | set
}

/// What a read-modify-write stores.
pub fn modified(v: u32, clear: u32, set: u32) -> (r: u32)
    ensures
        r == masked(v, clear, set),
{
    (v & !clear) | set
}

/// Whether a wait is over once `v` has been read. Every other operation waits
/// for nothing.
pub open spec fn wait_over(act: Act, v: u32) -> bool {
    match act {
        Act::WaitSet { mask, .. } => v & mask != 0,
        Act::WaitClear { mask, .. } => v & mask == 0,
        Act::WaitEq { mask, val, .. } => v & mask == val,
        Act::Poll { mask, .. } => v & mask != 0,
        _ => true,
    }
}

impl Op {
    /// Whether a wait is over once `v` has been read.
    pub fn satisfied(&self, v: u32) -> (r: bool)
        ensures
            r == wait_over(self@, v),
    {
        match self {
            Op::WaitSet { addr: _, mask } => v & *mask != 0,
            Op::WaitClear { addr: _, mask } => v & *mask == 0,
            Op::WaitEq { addr: _, mask, val } => v & *mask == *val,
            Op::Poll { addr: _, mask, tries: _ } => v & *mask != 0,
            _ => true,
        }
    }
}

pub open spec fn printable(b: u8) -> bool {
    0x20 <= b <= 0x7E
}

/// The text of a value that was read in the width of `form`.
pub open spec fn shown(form: Form, v: u32) -> Seq<u8> {
    match form {
        Form::Word => hex32(v),
        Form::Half => hex8((v / 256 % 256) as u8) + hex8((v % 256) as u8),
        Form::Byte => hex8((v % 256) as u8),
        Form::Ascii => seq![if printable((v % 256) as u8) { (v % 256) as u8 } else { 46u8 }],
    }
}

/// The text of a value that was read in the width of `form`.
pub fn show(form: Form, v: u32) -> (r: Vec<u8>)
    ensures
        r@ == shown(form, v),
{
    let mut out: Vec<u8> = Vec::new();
    match form {
        Form::Word => {
            let mut buf: [u8; 8] = [0; 8];
            hex_u32(v, &mut buf);
            out = vstd::slice::slice_to_vec(buf.as_slice());
        },
        Form::Half => {
            let mut hi: [u8; 2] = [0; 2];
            hex_u8((v / 256 % 256) as u8, &mut hi);
            let mut lo: [u8; 2] = [0; 2];
            hex_u8((v % 256) as u8, &mut lo);
            out.push(hi[0]);
            out.push(hi[1]);
            out.push(lo[0]);
            out.push(lo[1]);
            assert(out@ =~= hi@ + lo@);
        },
        Form::Byte => {
            let mut buf: [u8; 2] = [0; 2];
            hex_u8((v % 256) as u8, &mut buf);
            out = vstd::slice::slice_to_vec(buf.as_slice());
        },
        Form::Ascii => {
            let b: u8 = (v % 256) as u8;
            if 0x20 <= b && b <= 0x7E {
                out.push(b);
            } else {
                out.push(46);
            }
            assert(out@ =~= shown(form, v));
        },
    }
    out
}

// ---------------------------------------------------------------------------
// What a plan does
// ---------------------------------------------------------------------------

/// Contents of the registers, by address.
pub type Regs = Map<u32, u32>;

/// Whether `addr` is the set/reset register of a port in use.
pub open spec fn is_bsrr(addr: u32) -> bool {
    ||| addr == 0x4002_0018
    ||| addr == 0x4002_0418
    ||| addr == 0x4002_0818
    ||| addr == 0x4002_1018
}

/// The output register of a port after a write to its set/reset register:
/// the low half sets pins, the high half resets them, and setting wins.
pub open spec fn set_reset(odr: u32, val: u32) -> u32 {
    (odr & !(val >> 16u32)) | (val & 0xFFFF)
}

/// A write to a register. The set/reset register of a port acts on the port's
/// output register; every other register holds what was written.
pub open spec fn store(regs: Regs, addr: u32, val: u32) -> Regs {
    if is_bsrr(addr) {
        regs.insert((addr - 4) as u32, set_reset(regs[(addr - 4) as u32], val))
    } else {
        regs.insert(addr, val)
    }
}

pub open spec fn apply(act: Act, regs: Regs) -> Regs {
    match act {
        Act::Write { addr, val } => store(regs, addr, val),
        Act::Modify { addr, clear, set } => store(regs, addr, masked(regs[addr], clear, set)),
        _ => regs,
    }
}

/// The registers after the first `n` acts.
pub open spec fn run_upto(acts: Seq<Act>, n: nat, regs: Regs) -> Regs
    decreases n,
{
    if n == 0 {
        regs
    } else {
        apply(acts[n - 1], run_upto(acts, (n - 1) as nat, regs))
    }
}

/// The registers after a plan, where no other agent changes them.
pub open spec fn run(acts: Seq<Act>, regs: Regs) -> Regs {
    run_upto(acts, acts.len(), regs)
}

/// Acts behind the first `n` do not matter for them.
pub proof fn run_upto_prefix(a: Seq<Act>, b: Seq<Act>, n: nat, regs: Regs)
    requires
        n <= a.len(),
    ensures
        run_upto(a + b, n, regs) == run_upto(a, n, regs),
    decreases n,
{
    if n > 0 {
        run_upto_prefix(a, b, (n - 1) as nat, regs);
    }
}

proof fn run_upto_append(a: Seq<Act>, b: Seq<Act>, n: nat, regs: Regs)
    requires
        n <= b.len(),
    ensures
        run_upto(a + b, a.len() + n, regs) == run_upto(b, n, run(a, regs)),
    decreases n,
{
    if n == 0 {
        run_upto_prefix(a, b, a.len(), regs);
    } else {
        run_upto_append(a, b, (n - 1) as nat, regs);
    }
}

/// Running two plans one after the other is running them as one.
pub broadcast proof fn run_append(a: Seq<Act>, b: Seq<Act>, regs: Regs)
    ensures
        #[trigger] run(a + b, regs) == run(b, run(a, regs)),
{
    run_upto_append(a, b, b.len(), regs);
}

/// Running a plan with one more act is running the act last.
pub broadcast proof fn run_push(acts: Seq<Act>, a: Act, regs: Regs)
    ensures
        #[trigger] run(acts.push(a), regs) == apply(a, run(acts, regs)),
{
    assert(acts.push(a) =~= acts + seq![a]);
    run_upto_prefix(acts, seq![a], acts.len(), regs);
}

pub broadcast group group_run {
    run_push,
    run_append,
}

/// Whether an act leaves every register alone.
pub open spec fn is_quiet(act: Act) -> bool {
    !(act is Write) && !(act is Modify)
}

/// Whether an act only sends, or reads what can be read without effect.
pub open spec fn only_talks(act: Act) -> bool {
    act is Send || act is Show || act is Load
}

/// Whether an act does not come back.
pub open spec fn leaves(act: Act) -> bool {
    act is Launch || act is LaunchTable || act is Reset || act is Sleep
}

/// Whether a plan runs to its end.
pub open spec fn stays(acts: Seq<Act>) -> bool {
    forall|i: int| 0 <= i < acts.len() ==> !leaves(#[trigger] acts[i])
}

/// Whether a plan only looks and tells.
pub open spec fn looks(acts: Seq<Act>) -> bool {
    forall|i: int| 0 <= i < acts.len() ==> only_talks(#[trigger] acts[i])
}

/// Whether an act only talks, or writes a word from `lo` to `hi`.
pub open spec fn writes_within(act: Act, lo: u32, hi: u32) -> bool {
    match act {
        Act::Write { addr, .. } => lo <= addr <= hi,
        _ => only_talks(act),
    }
}

/// Whether a plan only talks and writes words from `lo` to `hi`.
pub open spec fn within(acts: Seq<Act>, lo: u32, hi: u32) -> bool {
    forall|i: int| 0 <= i < acts.len() ==> writes_within(#[trigger] acts[i], lo, hi)
}

/// One more act that stays within, stays within.
pub proof fn within_push(acts: Seq<Act>, a: Act, lo: u32, hi: u32)
    requires
        within(acts, lo, hi),
        writes_within(a, lo, hi),
    ensures
        within(acts.push(a), lo, hi),
{
}

/// Two plans that stay within, one after the other, stay within.
pub proof fn within_append(a: Seq<Act>, b: Seq<Act>, lo: u32, hi: u32)
    requires
        within(a, lo, hi),
        within(b, lo, hi),
    ensures
        within(a + b, lo, hi),
{
}

/// A plan that keeps within a range comes back.
pub proof fn within_stays(acts: Seq<Act>, lo: u32, hi: u32)
    requires
        within(acts, lo, hi),
    ensures
        stays(acts),
{
    assert forall|i: int| 0 <= i < acts.len() implies !leaves(#[trigger] acts[i]) by {
        assert(writes_within(acts[i], lo, hi));
    }
}

proof fn untouched_upto(acts: Seq<Act>, lo: u32, hi: u32, n: nat, regs: Regs, addr: u32)
    requires
        n <= acts.len(),
        within(acts, lo, hi),
        0x4002_1018 < lo,
        addr < lo || hi < addr,
    ensures
        run_upto(acts, n, regs)[addr] == regs[addr],
    decreases n,
{
    if n > 0 {
        untouched_upto(acts, lo, hi, (n - 1) as nat, regs, addr);
        assert(writes_within(acts[n - 1], lo, hi));
    }
}

/// A plan that keeps within a range beyond the ports leaves every other word as it
/// was.
pub proof fn untouched(acts: Seq<Act>, lo: u32, hi: u32, regs: Regs, addr: u32)
    requires
        within(acts, lo, hi),
        0x4002_1018 < lo,
        addr < lo || hi < addr,
    ensures
        run(acts, regs)[addr] == regs[addr],
{
    untouched_upto(acts, lo, hi, acts.len(), regs, addr);
}

/// Looking changes no register, and comes back.
pub proof fn looking_is_harmless(acts: Seq<Act>, regs: Regs)
    requires
        looks(acts),
    ensures
        run(acts, regs) == regs,
        stays(acts),
{
    assert forall|i: int| 0 <= i < acts.len() implies is_quiet(#[trigger] acts[i]) by {
        assert(only_talks(acts[i]));
    }
    quiet_run(acts, regs);
    assert forall|i: int| 0 <= i < acts.len() implies !leaves(#[trigger] acts[i]) by {
        assert(only_talks(acts[i]));
    }
}

/// Acts that write no register leave them all as they were.
pub proof fn quiet_run(acts: Seq<Act>, regs: Regs)
    requires
        forall|i: int| 0 <= i < acts.len() ==> is_quiet(#[trigger] acts[i]),
    ensures
        run(acts, regs) == regs,
{
    quiet_run_upto(acts, acts.len(), regs);
}

proof fn quiet_run_upto(acts: Seq<Act>, n: nat, regs: Regs)
    requires
        n <= acts.len(),
        forall|i: int| 0 <= i < acts.len() ==> is_quiet(#[trigger] acts[i]),
    ensures
        run_upto(acts, n, regs) == regs,
    decreases n,
{
    if n > 0 {
        quiet_run_upto(acts, (n - 1) as nat, regs);
        assert(is_quiet(acts[n - 1]));
    }
}

/// Bytes of memory, by address.
pub type Memory = spec_fn(u32) -> u8;

/// What a read in the width of `form` returns: the processor is little-endian.
pub open spec fn fetch(mem: Memory, addr: u32, form: Form) -> u32 {
    match form {
        Form::Word => (mem(addr) + 0x100 * mem((addr + 1) as u32) + 0x1_0000 * mem(
            (addr + 2) as u32,
        ) + 0x100_0000 * mem((addr + 3) as u32)) as u32,
        Form::Half => (mem(addr) + 0x100 * mem((addr + 1) as u32)) as u32,
        _ => mem(addr) as u32,
    }
}

/// The bytes of words that are all at aligned addresses.
pub open spec fn bytes_of(regs: Regs) -> Memory {
    |addr: u32|
        {
            let word = regs[(addr - addr % 4) as u32] as int;
            (if addr % 4 == 0 {
                word % 256
            } else if addr % 4 == 1 {
                word / 256 % 256
            } else if addr % 4 == 2 {
                word / 65536 % 256
            } else {
                word / 16777216
            }) as u8
        }
}

/// An aligned word reads as it is.
pub proof fn word_reads_back(regs: Regs, addr: u32)
    requires
        addr % 4 == 0,
    ensures
        fetch(bytes_of(regs), addr, Form::Word) == regs[addr],
{
    let v = regs[addr] as int;
    assert(v % 256 + 256 * (v / 256 % 256) + 65536 * (v / 65536 % 256) + 16777216 * (v / 16777216)
        == v);
    assert((addr + 1) % 4 == 1 && (addr + 2) % 4 == 2 && (addr + 3) % 4 == 3);
}

pub open spec fn output_of(act: Act, mem: Memory) -> Seq<u8> {
    match act {
        Act::Send(t) => t,
        Act::Show { addr, form } => shown(form, fetch(mem, addr, form)),
        _ => Seq::empty(),
    }
}

/// What the first `n` acts send.
pub open spec fn output_upto(acts: Seq<Act>, n: nat, mem: Memory) -> Seq<u8>
    decreases n,
{
    if n == 0 {
        Seq::empty()
    } else {
        output_upto(acts, (n - 1) as nat, mem) + output_of(acts[n - 1], mem)
    }
}

/// Everything that a plan sends, where memory stays as it is.
pub open spec fn output(acts: Seq<Act>, mem: Memory) -> Seq<u8> {
    output_upto(acts, acts.len(), mem)
}

proof fn output_upto_prefix(a: Seq<Act>, b: Seq<Act>, n: nat, mem: Memory)
    requires
        n <= a.len(),
    ensures
        output_upto(a + b, n, mem) == output_upto(a, n, mem),
    decreases n,
{
    if n > 0 {
        output_upto_prefix(a, b, (n - 1) as nat, mem);
    }
}

proof fn output_upto_append(a: Seq<Act>, b: Seq<Act>, n: nat, mem: Memory)
    requires
        n <= b.len(),
    ensures
        output_upto(a + b, a.len() + n, mem) == output(a, mem) + output_upto(b, n, mem),
    decreases n,
{
    if n == 0 {
        output_upto_prefix(a, b, a.len(), mem);
        assert(output(a, mem) + Seq::<u8>::empty() =~= output(a, mem));
    } else {
        output_upto_append(a, b, (n - 1) as nat, mem);
        let k = (n - 1) as nat;
        assert((a + b)[a.len() + n - 1] == b[k as int]);
        assert(output(a, mem) + output_upto(b, k, mem) + output_of(b[k as int], mem) =~= output(
            a,
            mem,
        ) + (output_upto(b, k, mem) + output_of(b[k as int], mem)));
    }
}

/// What two plans send one after the other is what they send as one.
pub broadcast proof fn output_append(a: Seq<Act>, b: Seq<Act>, mem: Memory)
    ensures
        #[trigger] output(a + b, mem) == output(a, mem) + output(b, mem),
{
    output_upto_append(a, b, b.len(), mem);
}

/// What two acts send.
pub proof fn output_pair(a: Act, b: Act, mem: Memory)
    ensures
        output(seq![a, b], mem) == output_of(a, mem) + output_of(b, mem),
{
    reveal_with_fuel(output_upto, 3);
    assert(output(seq![a, b], mem) =~= output_of(a, mem) + output_of(b, mem));
}

/// A plan with one more act sends that act's text last.
pub broadcast proof fn output_push(acts: Seq<Act>, a: Act, mem: Memory)
    ensures
        #[trigger] output(acts.push(a), mem) == output(acts, mem) + output_of(a, mem),
{
    assert(acts.push(a) =~= acts + seq![a]);
    output_upto_prefix(acts, seq![a], acts.len(), mem);
}

/// A read-modify-write clears the bits of one mask, sets those of the other, and keeps the
/// rest.
pub proof fn modifying_bit_by_bit(v: u32, clear: u32, set: u32)
    ensures
        masked(v, clear, set) & set == set,
        masked(v, clear, set) & clear & !set == 0,
        masked(v, clear, set) & !(clear | set) == v & !(clear | set),
{
    assert(((v & !clear) | set) & set == set && ((v & !clear) | set) & clear & !set == 0 && ((v
        & !clear) | set) & !(clear | set) == v & !(clear | set)) by (bit_vector);
}

/// A wait for bits is over when one of them is set, a wait for their end when none is, a wait
/// for a value when the bits have it. No other operation waits.
pub proof fn waits_end(addr: u32, mask: u32, val: u32, tries: u32, v: u32, other: Act)
    ensures
        wait_over(Act::WaitSet { addr, mask }, v) <==> v & mask != 0,
        wait_over(Act::WaitClear { addr, mask }, v) <==> v & mask == 0,
        wait_over(Act::WaitEq { addr, mask, val }, v) <==> v & mask == val,
        wait_over(Act::Poll { addr, mask, tries }, v) <==> v & mask != 0,
        !(other is WaitSet || other is WaitClear || other is WaitEq || other is Poll) ==> wait_over(
            other,
            v,
        ),
{
}

/// Values are printed in as many hex digits as they are wide, and a byte as its character
/// where that can be printed, else as a dot.
pub proof fn values_are_printed_by_width(v: u32)
    ensures
        shown(Form::Word, v) == hex32(v),
        shown(Form::Half, v) == hex32(v).skip(4),
        shown(Form::Byte, v) == hex32(v).skip(6),
        shown(Form::Ascii, v) == if 0x20 <= v % 256 && v % 256 <= 0x7E {
            seq![(v % 256) as u8]
        } else {
            seq![0x2Eu8]
        },
{
    hex8_ends_hex32(v);
    hex_is_lower_case(v, 0, 0);
    assert(hex32(v).skip(4) =~= hex32(v).subrange(4, 6) + hex32(v).skip(6));
}

} // verus!
