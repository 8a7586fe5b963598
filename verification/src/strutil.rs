//! Small string-building helpers shared by the rules.

use vstd::prelude::*;
use vstd::string::StrSliceExecFns;
use vstd::string::StringExecFns;

verus! {

/// Relies on std's `String::push`: it appends the given character to the
/// end of the string.
pub assume_specification[ String::push ](s: &mut String, ch: char)
    ensures
        final(s)@ == old(s)@.push(ch),
;

/// Every occurrence of `from` replaced by `to`, every other character kept.
pub open spec fn replace_char_seq(s: Seq<char>, from: char, to: Seq<char>) -> Seq<char>
    decreases s.len(),
{
    if s.len() == 0 {
        Seq::empty()
    } else if s[0] == from {
        to + replace_char_seq(s.skip(1), from, to)
    } else {
        seq![s[0]] + replace_char_seq(s.skip(1), from, to)
    }
}

proof fn lemma_replace_char_seq_push(s: Seq<char>, x: char, from: char, to: Seq<char>)
    ensures
        replace_char_seq(s.push(x), from, to) == replace_char_seq(s, from, to) + (
        if x == from {
            to
        } else {
            seq![x]
        }),
    decreases s.len(),
{
    let tail: Seq<char> = if x == from {
        to
    } else {
        seq![x]
    };
    if s.len() == 0 {
        assert(s.push(x).skip(1) =~= Seq::<char>::empty());
        assert(replace_char_seq(Seq::<char>::empty(), from, to) =~= Seq::<char>::empty());
        assert(s.push(x)[0] == x);
        assert(replace_char_seq(s.push(x), from, to) =~= tail);
        assert(replace_char_seq(s, from, to) + tail =~= tail);
    } else {
        assert(s.push(x).skip(1) =~= s.skip(1).push(x));
        lemma_replace_char_seq_push(s.skip(1), x, from, to);
        assert(s.push(x)[0] == s[0]);
        if s[0] == from {
            assert(replace_char_seq(s.push(x), from, to) =~= to + (replace_char_seq(s.skip(1),
                from, to) + tail));
            assert(to + (replace_char_seq(s.skip(1), from, to) + tail) =~= (to + replace_char_seq(
                s.skip(1),
                from,
                to,
            )) + tail);
        } else {
            assert(replace_char_seq(s.push(x), from, to) =~= seq![s[0]] + (replace_char_seq(
                s.skip(1),
                from,
                to,
            ) + tail));
            assert(seq![s[0]] + (replace_char_seq(s.skip(1), from, to) + tail) =~= (seq![s[0]]
                + replace_char_seq(s.skip(1), from, to)) + tail);
        }
    }
}

/// Replace every occurrence of the character `from` by the text `to`.
pub fn replace_char(s: &str, from: char, to: &str) -> (r: String)
    ensures
        r@ == replace_char_seq(s@, from, to@),
{
    let n = s.unicode_len();
    let mut out = String::new();
    let mut i: usize = 0;
    while i < n
        invariant
            i <= n,
            n == s@.len(),
            out@ == replace_char_seq(s@.take(i as int), from, to@),
        decreases n - i,
    {
        let c = s.get_char(i);
        proof {
            assert(s@.take(i + 1) =~= s@.take(i as int).push(s@[i as int]));
            lemma_replace_char_seq_push(s@.take(i as int), s@[i as int], from, to@);
        }
        if c == from {
            out.append(to);
        } else {
            out.push(c);
            proof {
                assert(replace_char_seq(s@.take(i as int), from, to@).push(c) =~= replace_char_seq(
                    s@.take(i as int),
                    from,
                    to@,
                ) + seq![c]);
            }
        }
        i = i + 1;
    }
    proof {
        assert(s@.take(n as int) =~= s@);
    }
    out
}

/// Count how many characters of `s` satisfy "is a line terminator".
pub open spec fn vertical_ws_count(s: Seq<char>) -> int
    decreases s.len(),
{
    if s.len() == 0 {
        0
    } else {
        (if s[0] == '\r' || s[0] == '\n' {
            1int
        } else {
            0int
        }) + vertical_ws_count(s.skip(1))
    }
}

proof fn lemma_vertical_ws_count_push(s: Seq<char>, x: char)
    ensures
        vertical_ws_count(s.push(x)) == vertical_ws_count(s) + (if x == '\r' || x == '\n' {
            1int
        } else {
            0int
        }),
    decreases s.len(),
{
    if s.len() == 0 {
        assert(s.push(x).skip(1) =~= Seq::<char>::empty());
        assert(vertical_ws_count(Seq::<char>::empty()) == 0);
        assert(s.push(x)[0] == x);
    } else {
        assert(s.push(x).skip(1) =~= s.skip(1).push(x));
        lemma_vertical_ws_count_push(s.skip(1), x);
        assert(s.push(x)[0] == s[0]);
    }
}

/// Count the line-terminator characters (`\r` or `\n`) in `s`.
pub fn count_vertical_ws(s: &str) -> (r: usize)
    ensures
        r == vertical_ws_count(s@),
{
    let n = s.unicode_len();
    let mut count: usize = 0;
    let mut i: usize = 0;
    proof {
        lemma_vertical_ws_count_bound(s@);
    }
    while i < n
        invariant
            i <= n,
            n == s@.len(),
            count == vertical_ws_count(s@.take(i as int)),
            vertical_ws_count(s@.take(i as int)) <= i,
        decreases n - i,
    {
        let c = s.get_char(i);
        proof {
            assert(s@.take(i + 1) =~= s@.take(i as int).push(s@[i as int]));
            lemma_vertical_ws_count_push(s@.take(i as int), s@[i as int]);
            lemma_vertical_ws_count_bound(s@.take(i + 1));
        }
        if c == '\r' || c == '\n' {
            count = count + 1;
        }
        i = i + 1;
    }
    proof {
        assert(s@.take(n as int) =~= s@);
    }
    count
}

proof fn lemma_vertical_ws_count_bound(s: Seq<char>)
    ensures
        0 <= vertical_ws_count(s) <= s.len(),
    decreases s.len(),
{
    if s.len() > 0 {
        lemma_vertical_ws_count_bound(s.skip(1));
    }
}

} // verus!
