//! Random numbers for the demos: a 32-bit xorshift generator.
use crate::plan::{ld, reg_load, Plan};
use crate::regs::SYST_CVR;
use vstd::prelude::*;

verus! {

/// State before the generator is seeded.
pub const RNG_DEFAULT: u32 = 0xDEAD_BEEF;

/// Mixed into every seed.
pub const RNG_SALT: u32 = 0xCAFE_BABE;

/// Steps between a seed and the first number.
pub const RNG_WARM_UP: u32 = 8;

/// Numbers are made by three shifts, each folded in with an exclusive or.
pub open spec fn xorshift(s: u32) -> u32 {
    let a = s ^ (s << 13u32);
    let b = a ^ (a >> 17u32);
    b ^ (b << 5u32)
}

/// The state after `n` steps.
pub open spec fn xorshifts(s: u32, n: nat) -> u32
    decreases n,
{
    if n == 0 {
        s
    } else {
        xorshift(xorshifts(s, (n - 1) as nat))
    }
}

/// The state that a seed leaves.
pub open spec fn seeded(tick: u32, center: u32, side: u32) -> u32 {
    xorshifts(tick ^ (center ^ side) ^ RNG_SALT, RNG_WARM_UP as nat)
}

/// A generator.
#[derive(Clone, Copy, Debug, PartialEq, Eq, Structural)]
pub struct Rng {
    pub state: u32,
}

impl Rng {
    /// A generator that has not been seeded.
    pub fn new() -> (r: Rng)
        ensures
            r.state == RNG_DEFAULT,
    {
        Rng { state: RNG_DEFAULT }
    }

    /// The next number, which is also the next state.
    pub fn rng_next(&mut self) -> (r: u32)
        ensures
            r == xorshift(old(self).state),
            final(self).state == r,
    {
        let mut s: u32 = self.state;
        s = s ^ (s << 13u32);
        s = s ^ (s >> 17u32);
        s = s ^ (s << 5u32);
        self.state = s;
        s
    }

    /// Seeds the generator with the tick's counter and the noise of two
    /// conversions.
    pub fn rng_seed(&mut self, tick: u32, center: u32, side: u32)
        ensures
            final(self).state == seeded(tick, center, side),
    {
        let start: u32 = tick ^ (center ^ side) ^ RNG_SALT;
        self.state = start;
        let mut i: u32 = 0;
        while i < RNG_WARM_UP
            invariant
                i <= RNG_WARM_UP,
                self.state == xorshifts(start, i as nat),
            decreases RNG_WARM_UP - i,
        {
            let _ = self.rng_next();
            i = i + 1;
        }
    }
}

/// Loads the tick's counter.
pub fn load_tick() -> (p: Plan)
    ensures
        p@ == seq![ld(SYST_CVR, 0)],
{
    let mut p: Plan = Plan::new();
    reg_load(&mut p, SYST_CVR, 0);
    p
}

/// Distinct states have distinct successors: the generator forgets nothing.
pub proof fn xorshift_is_injective(s: u32, t: u32)
    requires
        xorshift(s) == xorshift(t),
    ensures
        s == t,
{
    let a = s ^ (s << 13u32);
    let b = t ^ (t << 13u32);
    let c = a ^ (a >> 17u32);
    let d = b ^ (b >> 17u32);
    assert(c == d) by (bit_vector)
        requires
            c ^ (c << 5u32) == d ^ (d << 5u32),
    ;
    assert(a == b) by (bit_vector)
        requires
            a ^ (a >> 17u32) == b ^ (b >> 17u32),
    ;
    assert(s == t) by (bit_vector)
        requires
            s ^ (s << 13u32) == t ^ (t << 13u32),
    ;
}

/// A generator whose state is not zero never gets stuck at zero.
pub proof fn xorshift_avoids_zero(s: u32, n: nat)
    requires
        s != 0,
    ensures
        xorshifts(s, n) != 0,
    decreases n,
{
    if n > 0 {
        xorshift_avoids_zero(s, (n - 1) as nat);
        assert(xorshift(0) == 0) by (bit_vector);
        if xorshifts(s, n) == 0 {
            xorshift_is_injective(xorshifts(s, (n - 1) as nat), 0);
        }
    }
}

/// The generator in arithmetic: a number is folded with itself times 8192, then with a
/// 131072nd of that, then with that times 32, all in 32 bits. A seed mixes the tick, both
/// conversions and 0xCAFEBABE, and takes eight steps.
pub proof fn generator_in_arithmetic(s: u32, tick: u32, center: u32, side: u32)
    ensures
        ({
            let a = s ^ ((s * 8192) as u32);
            let b = a ^ ((a / 131072) as u32);
            xorshift(s) == b ^ ((b * 32) as u32)
        }),
        ({
            let x = tick ^ center ^ side ^ 0xCAFE_BABE;
            seeded(tick, center, side) == xorshift(
                xorshift(xorshift(xorshift(xorshift(xorshift(xorshift(xorshift(x))))))),
            )
        }),
        RNG_DEFAULT == 0xDEAD_BEEF,
{
    let a = s ^ (s << 13u32);
    let b = a ^ (a >> 17u32);
    assert((s << 13u32) == (s * 8192) as u32 && (a >> 17u32) == a / 131072 && (b << 5u32) == (b
        * 32) as u32 && tick ^ (center ^ side) ^ 0xCAFE_BABEu32 == tick ^ center ^ side
        ^ 0xCAFE_BABEu32) by (bit_vector);
    reveal_with_fuel(xorshifts, 9);
}

} // verus!
