//! Numbers as text: decimal, and hex without leading zeros.
use crate::hex::{digit, hex_digit};
use vstd::prelude::*;

verus! {

/// Digits of a number in a base from 2 to 16, most significant first.
pub open spec fn digits(n: nat, base: nat) -> Seq<u8>
    decreases n,
    when base >= 2
    via digits_terminate
{
    if n < base {
        seq![hex_digit(n)]
    } else {
        digits(n / base, base).push(hex_digit(n % base))
    }
}

#[via_fn]
proof fn digits_terminate(n: nat, base: nat) {
    if n >= base && base >= 2 {
        assert(n / base < n) by (nonlinear_arith)
            requires
                n >= base,
                base >= 2,
        ;
    }
}

/// A number in decimal.
pub open spec fn decimal(n: int) -> Seq<u8> {
    if n < 0 {
        seq![45u8] + digits((-n) as nat, 10)
    } else {
        digits(n as nat, 10)
    }
}

/// A number in hex, without leading zeros.
pub open spec fn short_hex(n: u32) -> Seq<u8> {
    digits(n as nat, 16)
}

fn write_digits(n: u32, base: u32) -> (r: Vec<u8>)
    requires
        base == 10 || base == 16,
    ensures
        r@ == digits(n as nat, base as nat),
    decreases n,
{
    if n < base {
        let mut v: Vec<u8> = Vec::new();
        v.push(digit(n as u8));
        assert(v@ =~= seq![hex_digit(n as nat)]);
        v
    } else {
        let mut v: Vec<u8> = write_digits(n / base, base);
        v.push(digit((n % base) as u8));
        v
    }
}

/// A number in decimal.
pub fn write_u32(n: u32) -> (r: Vec<u8>)
    ensures
        r@ == decimal(n as int),
{
    write_digits(n, 10)
}

/// A number in decimal, with a sign where it is negative.
pub fn write_i32(n: i32) -> (r: Vec<u8>)
    ensures
        r@ == decimal(n as int),
{
    if n < 0 {
        let size: u32 = (-(n as i64)) as u32;
        let mut v: Vec<u8> = Vec::new();
        v.push(45);
        let mut rest: Vec<u8> = write_digits(size, 10);
        v.append(&mut rest);
        assert(v@ =~= decimal(n as int));
        v
    } else {
        write_digits(n as u32, 10)
    }
}

/// A number in hex.
pub fn write_hex(n: u32) -> (r: Vec<u8>)
    ensures
        r@ == short_hex(n),
{
    write_digits(n, 16)
}

/// The number that digits denote.
pub open spec fn denoted(s: Seq<u8>, base: nat) -> nat
    decreases s.len(),
{
    if s.len() == 0 {
        0
    } else {
        denoted(s.drop_last(), base) * base + digit_of(s.last())
    }
}

/// The value of a digit.
pub open spec fn digit_of(ch: u8) -> nat {
    if ch >= 97 {
        (ch - 87) as nat
    } else {
        (ch - 48) as nat
    }
}

/// The digits of a number denote it, and there is no zero in front of another
/// digit.
pub proof fn digits_denote(n: nat, base: nat)
    requires
        2 <= base <= 16,
    ensures
        denoted(digits(n, base), base) == n,
        digits(n, base).len() > 0,
        digits(n, base)[0] == 48 ==> n == 0,
    decreases n,
{
    if n < base {
        assert(seq![hex_digit(n)].drop_last() =~= Seq::<u8>::empty());
        reveal_with_fuel(denoted, 2);
        assert(0 * base == 0) by (nonlinear_arith);
    } else {
        assert(n / base < n && n / base >= 1 && n == n / base * base + n % base && 0 <= n % base
            < base) by (nonlinear_arith)
            requires
                n >= base,
                base >= 2,
        ;
        digits_denote(n / base, base);
        let d = digits(n, base);
        assert(d.drop_last() =~= digits(n / base, base));
    }
}

/// Decimal in steps: a number below ten is its digit, ten times a number and a digit more is
/// the number's text and that digit, and a negative number has a minus in front.
pub proof fn decimal_in_steps(n: nat, d: nat)
    requires
        d < 10,
    ensures
        decimal(d as int) == seq![(48 + d) as u8],
        n > 0 ==> decimal((10 * n + d) as int) == decimal(n as int).push((48 + d) as u8),
        n > 0 ==> decimal(-(n as int)) == seq![45u8] + decimal(n as int),
{
    if n > 0 {
        let v = 10 * n + d;
        assert(v / 10 == n && v % 10 == d);
    }
}

/// Short hex in steps, with the letters in lower case.
pub proof fn short_hex_in_steps(n: u32, d: u32)
    requires
        d < 16,
        16 * n + d <= u32::MAX,
    ensures
        short_hex(d) == seq![
            if d < 10 {
                (48 + d) as u8
            } else {
                (87 + d) as u8
            },
        ],
        n > 0 ==> short_hex((16 * n + d) as u32) == short_hex(n).push(
            if d < 10 {
                (48 + d) as u8
            } else {
                (87 + d) as u8
            },
        ),
{
    if n > 0 {
        let v = (16 * n + d) as nat;
        assert(v / 16 == n && v % 16 == d);
    }
}

} // verus!
