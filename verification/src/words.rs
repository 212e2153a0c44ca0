//! Splitting a command line into words.
use crate::plan::text;
use vstd::prelude::*;
use vstd::slice::{slice_subrange, slice_to_vec};
use vstd::string::*;

verus! {

/// A command line keeps at most this many words.
pub const MAX_WORDS: usize = 4;

pub open spec fn is_blank(ch: u8) -> bool {
    ch == 0x20 || ch == 0x09
}

/// The maximal runs of characters that are not blank, from left to right.
pub open spec fn words(s: Seq<u8>) -> Seq<Seq<u8>>
    decreases s.len(),
{
    if s.len() == 0 {
        Seq::empty()
    } else {
        let before = words(s.drop_last());
        if is_blank(s.last()) {
            before
        } else if s.len() == 1 || is_blank(s[s.len() - 2]) {
            before.push(seq![s.last()])
        } else {
            before.drop_last().push(before.last().push(s.last()))
        }
    }
}

/// The first words of a line, as many as a command line keeps.
pub open spec fn command_words(s: Seq<u8>) -> Seq<Seq<u8>> {
    if words(s).len() <= MAX_WORDS {
        words(s)
    } else {
        words(s).take(MAX_WORDS as int)
    }
}

/// The contents of each word.
pub open spec fn contents(v: Seq<Vec<u8>>) -> Seq<Seq<u8>> {
    Seq::new(v.len(), |i: int| v[i]@)
}

/// Whether `s` ends inside a word.
pub open spec fn in_word(s: Seq<u8>) -> bool {
    s.len() > 0 && !is_blank(s.last())
}

/// First position of the word that `s` ends in; its length where it ends in none.
pub open spec fn word_start(s: Seq<u8>) -> nat
    decreases s.len(),
{
    if s.len() == 0 || is_blank(s.last()) {
        s.len()
    } else {
        word_start(s.drop_last())
    }
}

/// The last word of a line that ends in one runs from its start to the end.
proof fn last_word(s: Seq<u8>)
    ensures
        word_start(s) <= s.len(),
        in_word(s) ==> words(s).len() > 0 && word_start(s) < s.len() && words(s).last()
            == s.skip(word_start(s) as int),
    decreases s.len(),
{
    if s.len() > 0 {
        let d = s.drop_last();
        last_word(d);
        if in_word(s) {
            if in_word(d) {
                assert(words(s).last() =~= s.skip(word_start(s) as int));
            } else {
                assert(word_start(s) == d.len());
                assert(words(s).last() =~= s.skip(word_start(s) as int));
            }
        }
    }
}

/// Words already complete: those of the line without the word it ends in.
spec fn complete(s: Seq<u8>) -> Seq<Seq<u8>> {
    if in_word(s) {
        words(s).drop_last()
    } else {
        words(s)
    }
}

spec fn capped(w: Seq<Seq<u8>>) -> Seq<Seq<u8>> {
    if w.len() <= MAX_WORDS {
        w
    } else {
        w.take(MAX_WORDS as int)
    }
}

/// Splits a line at blanks and tabs; words beyond the fourth are dropped.
pub fn split_words(line: &[u8]) -> (r: Vec<Vec<u8>>)
    ensures
        contents(r@) == command_words(line@),
        r@.len() <= MAX_WORDS,
{
    let mut found: Vec<Vec<u8>> = Vec::new();
    let mut inside: bool = false;
    let mut start: usize = 0;
    let mut i: usize = 0;
    assert(contents(found@) =~= capped(complete(line@.take(0))));
    while i < line.len()
        invariant
            i <= line@.len(),
            found@.len() <= MAX_WORDS,
            contents(found@) == capped(complete(line@.take(i as int))),
            inside == in_word(line@.take(i as int)),
            inside ==> start == word_start(line@.take(i as int)),
        decreases line@.len() - i,
    {
        let ch: u8 = line[i];
        let ghost done = line@.take(i as int);
        let ghost next = line@.take(i + 1);
        proof {
            assert(next.drop_last() =~= done);
            assert(next.last() == ch);
            last_word(done);
            if i > 0 {
                assert(next[next.len() - 2] == done.last());
            }
        }
        if ch == 0x20 || ch == 0x09 {
            if inside {
                if found.len() < MAX_WORDS {
                    let word: Vec<u8> = slice_to_vec(slice_subrange(line, start, i));
                    let ghost before = found@;
                    found.push(word);
                    proof {
                        assert(word@ =~= done.skip(start as int));
                        assert(contents(found@) =~= contents(before).push(word@));
                        assert(words(next) == words(done));
                        assert(words(done) =~= words(done).drop_last().push(word@));
                        assert(contents(found@) =~= capped(complete(next)));
                    }
                } else {
                    assert(contents(found@) =~= capped(complete(next)));
                }
            }
            inside = false;
        } else {
            if !inside {
                start = i;
            }
            proof {
                assert(complete(next) =~= complete(done));
            }
            inside = true;
        }
        i = i + 1;
    }
    assert(line@.take(i as int) =~= line@);
    if inside {
        proof {
            last_word(line@);
        }
        if found.len() < MAX_WORDS {
            let word: Vec<u8> = slice_to_vec(slice_subrange(line, start, line.len()));
            let ghost before = found@;
            found.push(word);
            proof {
                assert(word@ =~= line@.skip(start as int));
                assert(contents(found@) =~= contents(before).push(word@));
                assert(words(line@) =~= words(line@).drop_last().push(word@));
                assert(contents(found@) =~= command_words(line@));
            }
        } else {
            assert(contents(found@) =~= command_words(line@));
        }
    }
    found
}

/// Whether a word is exactly `s`.
pub fn word_is(w: &[u8], s: &str) -> (r: bool)
    ensures
        r == (w@ == text(s)),
{
    let b: &[u8] = s.as_bytes();
    if w.len() != b.len() {
        return false;
    }
    let mut i: usize = 0;
    while i < w.len()
        invariant
            i <= w@.len(),
            w@.len() == b@.len(),
            b@ == text(s),
            forall|k: int| 0 <= k < i ==> w@[k] == b@[k],
        decreases w@.len() - i,
    {
        if w[i] != b[i] {
            return false;
        }
        i = i + 1;
    }
    assert(w@ =~= b@);
    true
}

/// Position of the first space at or behind `i`; the length where there is none.
pub open spec fn space_from(line: Seq<u8>, i: int) -> int
    decreases line.len() - i,
{
    if i >= line.len() || line[i] == 0x20 {
        i
    } else {
        space_from(line, i + 1)
    }
}

/// Position of the first space; the length where there is none.
pub fn find_space(line: &[u8]) -> (sp: usize)
    ensures
        sp == space_from(line@, 0),
        sp <= line@.len(),
{
    let mut sp: usize = 0;
    while sp < line.len() && line[sp] != 0x20
        invariant
            sp <= line@.len(),
            space_from(line@, 0) == space_from(line@, sp as int),
        decreases line@.len() - sp,
    {
        sp = sp + 1;
    }
    sp
}

/// No word is empty or holds a blank.
pub proof fn words_are_solid(s: Seq<u8>, i: int)
    requires
        0 <= i < words(s).len(),
    ensures
        words(s)[i].len() > 0,
        forall|k: int| 0 <= k < words(s)[i].len() ==> !is_blank(#[trigger] words(s)[i][k]),
    decreases s.len(),
{
    let d = s.drop_last();
    last_word(d);
    if is_blank(s.last()) {
        words_are_solid(d, i);
    } else if s.len() == 1 || is_blank(s[s.len() - 2]) {
        if i < words(d).len() {
            words_are_solid(d, i);
        }
    } else {
        assert(in_word(d));
        words_are_solid(d, i);
    }
}

/// A line of blanks has no words.
pub proof fn blank_line_has_no_words(s: Seq<u8>)
    requires
        forall|k: int| 0 <= k < s.len() ==> is_blank(#[trigger] s[k]),
    ensures
        words(s).len() == 0,
    decreases s.len(),
{
    if s.len() > 0 {
        assert(is_blank(s.last()));
        assert forall|k: int| 0 <= k < s.drop_last().len() implies is_blank(
            #[trigger] s.drop_last()[k],
        ) by {
            assert(is_blank(s[k]));
        }
        blank_line_has_no_words(s.drop_last());
    }
}

/// Spaces and tabs separate words: what stands before one and what stands behind it are
/// split apart.
pub proof fn words_split_at_blanks(a: Seq<u8>, ch: u8, b: Seq<u8>)
    requires
        ch == 0x20 || ch == 0x09,
    ensures
        words(a.push(ch) + b) == words(a) + words(b),
    decreases b.len(),
{
    let s = a.push(ch) + b;
    if b.len() == 0 {
        assert(s =~= a.push(ch));
        assert(s.drop_last() =~= a);
        assert(words(a) + words(b) =~= words(a));
    } else {
        let c = b.drop_last();
        words_split_at_blanks(a, ch, c);
        assert(s.drop_last() =~= a.push(ch) + c);
        assert(s.last() == b.last());
        if b.len() == 1 {
            assert(s[s.len() - 2] == ch);
        } else {
            assert(s[s.len() - 2] == b[b.len() - 2]);
            last_word(c);
        }
        assert(words(s) =~= words(a) + words(b));
    }
}

/// Text without a space or a tab is one word.
pub proof fn solid_text_is_one_word(s: Seq<u8>)
    requires
        s.len() > 0,
        forall|i: int| 0 <= i < s.len() ==> #[trigger] s[i] != 0x20 && s[i] != 0x09,
    ensures
        words(s) == seq![s],
    decreases s.len(),
{
    let d = s.drop_last();
    assert(s.last() == s[s.len() - 1]);
    if s.len() == 1 {
        assert(words(d) =~= Seq::<Seq<u8>>::empty());
        assert(seq![s.last()] =~= s);
        assert(words(s) =~= seq![s]);
    } else {
        assert forall|i: int| 0 <= i < d.len() implies #[trigger] d[i] != 0x20 && d[i] != 0x09 by {
            assert(d[i] == s[i]);
        }
        solid_text_is_one_word(d);
        assert(s[s.len() - 2] == d.last());
        assert(d.push(s.last()) =~= s);
        assert(words(s) =~= seq![s]);
    }
}

/// A command line keeps its first four words, and all of them where there are no more.
pub proof fn four_words_are_kept(s: Seq<u8>)
    ensures
        words(s).len() <= 4 ==> command_words(s) == words(s),
        words(s).len() > 4 ==> command_words(s) == words(s).take(4),
{
}

/// The first space of a line is a space, and none stands before it.
pub proof fn first_space_is_first(line: Seq<u8>, i: int, j: int)
    requires
        0 <= i <= line.len(),
    ensures
        i <= space_from(line, i) <= line.len(),
        space_from(line, i) < line.len() ==> line[space_from(line, i)] == 0x20,
        i <= j < space_from(line, i) ==> line[j] != 0x20,
    decreases line.len() - i,
{
    if i < line.len() && line[i] != 0x20 {
        first_space_is_first(line, i + 1, j);
    }
}

} // verus!
