//! Hexadecimal text: fixed-width formatting and parsing.
use vstd::prelude::*;
use vstd::slice::slice_subrange;

verus! {

/// The lower-case ASCII digit of `d`.
pub open spec fn hex_digit(d: nat) -> u8 {
    if d < 10 {
        (48 + d) as u8
    } else {
        (97 + (d - 10)) as u8
    }
}

/// `v` written with exactly `n` lower-case digits, most significant first.
pub open spec fn hex_digits(v: nat, n: nat) -> Seq<u8>
    decreases n,
{
    if n == 0 {
        Seq::empty()
    } else {
        hex_digits(v / 16, (n - 1) as nat).push(hex_digit(v % 16))
    }
}

/// `v` as the eight digits of a word.
pub open spec fn hex32(v: u32) -> Seq<u8> {
    hex_digits(v as nat, 8)
}

/// `v` as the two digits of a byte.
pub open spec fn hex8(v: u8) -> Seq<u8> {
    hex_digits(v as nat, 2)
}

pub open spec fn is_hex(ch: u8) -> bool {
    ||| 48 <= ch <= 57
    ||| 97 <= ch <= 102
    ||| 65 <= ch <= 70
}

pub open spec fn digit_value(ch: u8) -> nat {
    if 48 <= ch <= 57 {
        (ch - 48) as nat
    } else if 97 <= ch <= 102 {
        (ch - 97 + 10) as nat
    } else {
        (ch - 65 + 10) as nat
    }
}

/// The number that a run of digits denotes.
pub open spec fn hex_value(s: Seq<u8>) -> nat
    decreases s.len(),
{
    if s.len() == 0 {
        0
    } else {
        16 * hex_value(s.drop_last()) + digit_value(s.last())
    }
}

pub open spec fn has_prefix(s: Seq<u8>) -> bool {
    s.len() >= 2 && s[0] == 48 && (s[1] == 120 || s[1] == 88)
}

/// The digits of a number: what follows an optional `0x`.
pub open spec fn strip_prefix(s: Seq<u8>) -> Seq<u8> {
    if has_prefix(s) {
        s.skip(2)
    } else {
        s
    }
}

pub open spec fn all_hex(s: Seq<u8>) -> bool {
    forall|i: int| 0 <= i < s.len() ==> is_hex(#[trigger] s[i])
}

/// The shell's numbers: at most eight characters, prefix included, and at
/// least one digit.
pub open spec fn hex_number(s: Seq<u8>) -> Option<u32> {
    if 1 <= s.len() <= 8 && strip_prefix(s).len() > 0 && all_hex(strip_prefix(s)) {
        Some(hex_value(strip_prefix(s)) as u32)
    } else {
        None
    }
}

/// The lower-case digit of `d`.
pub fn digit(d: u8) -> (ch: u8)
    requires
        d < 16,
    ensures
        ch == hex_digit(d as nat),
{
    if d < 10 {
        48 + d
    } else {
        97 + (d - 10)
    }
}

/// Formats a word as eight digits.
pub fn hex_u32(val: u32, buf: &mut [u8; 8])
    ensures
        final(buf)@ == hex32(val),
{
    let mut rest: u32 = val;
    let mut i: usize = 8;
    while i > 0
        invariant
            i <= 8,
            buf@.len() == 8,
            hex_digits(val as nat, 8) =~= hex_digits(rest as nat, i as nat) + buf@.skip(i as int),
        decreases i,
    {
        let ghost before = buf@;
        let ghost r = rest as nat;
        i = i - 1;
        buf[i] = digit((rest % 16) as u8);
        rest = rest / 16;
        proof {
            let head = hex_digits(r / 16, i as nat);
            assert(hex_digits(r, (i + 1) as nat) == head.push(hex_digit(r % 16)));
            assert(buf@ == before.update(i as int, hex_digit(r % 16)));
            assert(buf@.skip(i as int) =~= seq![hex_digit(r % 16)] + before.skip(i + 1));
            let tail = before.skip(i + 1);
            assert(head.push(hex_digit(r % 16)) + tail =~= head + buf@.skip(i as int));
        }
    }
    assert(hex_digits(rest as nat, 0) =~= Seq::<u8>::empty());
    assert(buf@.skip(0) =~= buf@);
}

/// Formats a byte as two digits.
pub fn hex_u8(val: u8, buf: &mut [u8; 2])
    ensures
        final(buf)@ == hex8(val),
{
    buf[0] = digit(val / 16);
    buf[1] = digit(val % 16);
    proof {
        reveal_with_fuel(hex_digits, 3);
        assert(buf@ =~= hex8(val));
    }
}

/// What so many digits can denote.
pub proof fn hex_value_bound(s: Seq<u8>)
    requires
        s.len() <= 8,
        all_hex(s),
    ensures
        s.len() == 0 ==> hex_value(s) == 0,
        s.len() == 1 ==> hex_value(s) < 0x10,
        s.len() == 2 ==> hex_value(s) < 0x100,
        s.len() == 3 ==> hex_value(s) < 0x1000,
        s.len() == 4 ==> hex_value(s) < 0x1_0000,
        s.len() == 5 ==> hex_value(s) < 0x10_0000,
        s.len() == 6 ==> hex_value(s) < 0x100_0000,
        s.len() == 7 ==> hex_value(s) < 0x1000_0000,
        s.len() == 8 ==> hex_value(s) < 0x1_0000_0000,
    decreases s.len(),
{
    if s.len() > 0 {
        hex_value_bound(s.drop_last());
        assert(is_hex(s.last()));
    }
}

/// Parses a hex number: at most eight characters, with an optional `0x`.
pub fn parse_hex(s: &[u8]) -> (r: Option<u32>)
    ensures
        r == hex_number(s@),
{
    if s.len() == 0 || s.len() > 8 {
        return None;
    }
    let prefixed: bool = s.len() >= 2 && s[0] == 48 && (s[1] == 120 || s[1] == 88);
    let digits: &[u8] = if prefixed {
        slice_subrange(s, 2, s.len())
    } else {
        s
    };
    assert(digits@ =~= strip_prefix(s@));
    if digits.len() == 0 {
        return None;
    }
    let mut val: u32 = 0;
    let mut i: usize = 0;
    while i < digits.len()
        invariant
            i <= digits@.len() <= 8,
            digits@ == strip_prefix(s@),
            1 <= s@.len() <= 8,
            all_hex(digits@.take(i as int)),
            val == hex_value(digits@.take(i as int)),
        decreases digits@.len() - i,
    {
        let ch: u8 = digits[i];
        let d: u8 = if 48 <= ch && ch <= 57 {
            ch - 48
        } else if 97 <= ch && ch <= 102 {
            ch - 97 + 10
        } else if 65 <= ch && ch <= 70 {
            ch - 65 + 10
        } else {
            assert(!is_hex(strip_prefix(s@)[i as int]));
            return None;
        };
        proof {
            let done = digits@.take(i as int);
            let more = digits@.take(i + 1);
            assert(more.drop_last() =~= done);
            assert(more.last() == ch);
            assert(all_hex(more)) by {
                assert forall|k: int| 0 <= k < more.len() implies is_hex(#[trigger] more[k]) by {
                    if k < i {
                        assert(more[k] == done[k]);
                    }
                }
            }
            hex_value_bound(more);
        }
        val = val * 16 + d as u32;
        i = i + 1;
    }
    assert(digits@.take(i as int) =~= digits@);
    Some(val)
}

/// `n` digits denote the number they were written for.
pub proof fn hex_digits_denote(v: nat, n: nat)
    requires
        v < pow16(n),
    ensures
        hex_digits(v, n).len() == n,
        all_hex(hex_digits(v, n)),
        hex_value(hex_digits(v, n)) == v,
    decreases n,
{
    if n > 0 {
        let k = (n - 1) as nat;
        assert(v / 16 < pow16(k)) by (nonlinear_arith)
            requires
                v < 16 * pow16(k),
        ;
        hex_digits_denote(v / 16, k);
        let head = hex_digits(v / 16, k);
        let whole = hex_digits(v, n);
        assert(whole.drop_last() =~= head);
        assert forall|i: int| 0 <= i < whole.len() implies is_hex(#[trigger] whole[i]) by {
            if i < k {
                assert(whole[i] == head[i]);
            }
        }
    }
}

pub open spec fn pow16(n: nat) -> nat
    decreases n,
{
    if n == 0 {
        1
    } else {
        16 * pow16((n - 1) as nat)
    }
}

/// Reading back what was written: the text of a word parses to that word.
pub proof fn parse_of_hex32(v: u32)
    ensures
        hex_number(hex32(v)) == Some(v),
{
    reveal_with_fuel(pow16, 9);
    hex_digits_denote(v as nat, 8);
    let s = hex32(v);
    assert(is_hex(s[1]));
    assert(strip_prefix(s) == s);
}

/// The text of a byte parses to that byte.
pub proof fn parse_of_hex8(v: u8)
    ensures
        hex_number(hex8(v)) == Some(v as u32),
{
    reveal_with_fuel(pow16, 3);
    hex_digits_denote(v as nat, 2);
    let s = hex8(v);
    assert(is_hex(s[1]));
    assert(strip_prefix(s) == s);
}

/// A `0x` in front changes nothing, for as many digits as the prefix leaves room
/// for.
pub proof fn prefix_is_optional(s: Seq<u8>, x: u8)
    requires
        0 < s.len() <= 6,
        !has_prefix(s),
        x == 120 || x == 88,
    ensures
        hex_number(seq![48u8, x] + s) == hex_number(s),
{
    let t = seq![48u8, x] + s;
    assert(has_prefix(t));
    assert(t.skip(2) =~= s);
}

/// The value of a character, where it is a digit: `0` to `9`, then `a` to `f` in
/// either case.
pub open spec fn digit_in(ch: u8, k: nat) -> bool {
    ||| k < 10 && ch == 48 + k
    ||| 10 <= k < 16 && (ch == 87 + k || ch == 55 + k)
}

/// A digit more multiplies a number by sixteen and adds the digit, and a digit alone
/// is its own value.
pub proof fn digits_extend_numbers(s: Seq<u8>, ch: u8, k: nat, v: u32)
    requires
        digit_in(ch, k),
    ensures
        hex_number(seq![ch]) == Some(k as u32),
        s.len() < 8 && hex_number(s) == Some(v) ==> hex_number(s.push(ch)) == Some(
            (16 * v + k) as u32,
        ),
{
    let one = seq![ch];
    assert(one.drop_last() =~= Seq::<u8>::empty());
    reveal_with_fuel(hex_value, 2);
    if s.len() < 8 && hex_number(s) == Some(v) {
        let d = strip_prefix(s);
        let t = s.push(ch);
        assert(has_prefix(t) == has_prefix(s));
        assert(strip_prefix(t) =~= d.push(ch));
        assert(d.push(ch).drop_last() =~= d);
        assert forall|i: int| 0 <= i < d.push(ch).len() implies is_hex(
            #[trigger] d.push(ch)[i],
        ) by {
            if i < d.len() {
                assert(is_hex(d[i]));
            }
        }
        hex_value_bound(d);
    }
}

/// Nothing else is a number: not an empty word, not one of more than eight characters,
/// not a prefix alone, and not a word whose digits hold any other character.
pub proof fn other_words_are_no_numbers(s: Seq<u8>, i: int)
    ensures
        s.len() == 0 || s.len() > 8 ==> hex_number(s) is None,
        s.len() == 2 && s[0] == 48 && (s[1] == 120 || s[1] == 88) ==> hex_number(s) is None,
        0 <= i < s.len() && (forall|k: nat| !digit_in(s[i], k)) && !(i == 1 && s[0] == 48 && (
        s[1] == 120 || s[1] == 88)) ==> hex_number(s) is None,
{
    if 0 <= i < s.len() && (forall|k: nat| !digit_in(s[i], k)) && !(i == 1 && s[0] == 48 && (s[1]
        == 120 || s[1] == 88)) {
        let ch = s[i];
        if is_hex(ch) {
            assert(digit_in(ch, digit_value(ch)));
        }
        let d = strip_prefix(s);
        if has_prefix(s) {
            if i == 0 {
                assert(digit_in(48, 0));
            } else {
                assert(d[i - 2] == ch);
            }
        } else {
            assert(d[i] == ch);
        }
    }
}

/// A word is written with eight digits and a byte with two, in lower case.
pub proof fn hex_is_lower_case(v: u32, b: u8, i: int)
    ensures
        hex32(v).len() == 8,
        hex8(b).len() == 2,
        0 <= i < 8 ==> 48 <= hex32(v)[i] <= 57 || 97 <= hex32(v)[i] <= 102,
        0 <= i < 2 ==> 48 <= hex8(b)[i] <= 57 || 97 <= hex8(b)[i] <= 102,
{
    reveal_with_fuel(hex_digits, 9);
}

/// Numbers that fit in fewer digits end in them: the text of a byte is the end of the
/// text of the word that holds it.
pub proof fn hex8_ends_hex32(v: u32)
    ensures
        hex32(v).skip(6) == hex8((v % 256) as u8),
        hex32(v).subrange(4, 6) == hex8((v / 256 % 256) as u8),
{
    reveal_with_fuel(hex_digits, 9);
    let n = v as nat;
    assert(n % 256 / 16 == n / 16 % 16 && n % 256 % 16 == n % 16);
    assert(n / 16 / 16 == n / 256 && n / 256 % 256 % 16 == n / 256 % 16 && n / 256 % 256 / 16 == n
        / 256 / 16 % 16);
    assert(hex32(v).skip(6) =~= hex8((v % 256) as u8));
    assert(hex32(v).subrange(4, 6) =~= hex8((v / 256 % 256) as u8));
}

} // verus!
