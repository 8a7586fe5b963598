//! The conservative unescape transform and the string-literal splitter that
//! feed the literal-argument rule: turning the source text of an escaped
//! string literal into its raw-literal-compatible form, with a three-way
//! outcome (fix / lint without a fix / abstain).

use vstd::prelude::*;
use vstd::string::StrSliceExecFns;
use vstd::string::StringExecFns;

verus! {

/// Outcome of the conservative unescape when no fixed text can be offered.
#[derive(Clone, Copy, PartialEq, Eq, Structural, Debug)]
pub enum UnescapeErr {
    /// The diagnostic should still be raised; the author can resolve it by
    /// hand (the text holds a `#` or an escaped quote, which the chosen raw
    /// literal form cannot carry safely).
    Lint,
    /// No diagnostic should be raised at all (the text holds an escape with
    /// no raw-literal representation).
    Ignore,
}

/// The three-way outcome of the conservative unescape, as a mathematical
/// value: the unescaped characters when a fix is possible, or one of the
/// two refusal modes.
pub ghost enum UnescapeSpec {
    Fixable(Seq<char>),
    LintOnly,
    Abstain,
}

/// What the conservative unescape returns on `s`, scanning greedily left to
/// right: a bare `#` or an escaped quote forces the lint-only outcome, a
/// doubled backslash collapses to one, any other escape (or a trailing
/// backslash) forces abstention, and every other character is copied.
pub open spec fn unescape_spec(s: Seq<char>) -> UnescapeSpec
    decreases s.len(),
{
    if s.len() == 0 {
        UnescapeSpec::Fixable(Seq::empty())
    } else if s[0] == '\\' {
        if s.len() == 1 {
            UnescapeSpec::Abstain
        } else if s[1] == '\\' {
            match unescape_spec(s.skip(2)) {
                UnescapeSpec::Fixable(t) => UnescapeSpec::Fixable(seq!['\\'] + t),
                r => r,
            }
        } else if s[1] == '"' {
            match unescape_spec(s.skip(2)) {
                UnescapeSpec::Abstain => UnescapeSpec::Abstain,
                _ => UnescapeSpec::LintOnly,
            }
        } else {
            UnescapeSpec::Abstain
        }
    } else if s[0] == '#' {
        match unescape_spec(s.skip(1)) {
            UnescapeSpec::Abstain => UnescapeSpec::Abstain,
            _ => UnescapeSpec::LintOnly,
        }
    } else {
        match unescape_spec(s.skip(1)) {
            UnescapeSpec::Fixable(t) => UnescapeSpec::Fixable(seq![s[0]] + t),
            r => r,
        }
    }
}

/// How a partly scanned input combines with the outcome on the rest: `err`
/// records whether a lint-only cause was already seen, `pre` the characters
/// already copied.
pub open spec fn merge_unescape(err: bool, pre: Seq<char>, rest: UnescapeSpec) -> UnescapeSpec {
    match rest {
        UnescapeSpec::Fixable(t) => if err {
            UnescapeSpec::LintOnly
        } else {
            UnescapeSpec::Fixable(pre + t)
        },
        UnescapeSpec::LintOnly => UnescapeSpec::LintOnly,
        UnescapeSpec::Abstain => UnescapeSpec::Abstain,
    }
}

/// Unescape an ordinary (escaping) string literal body into text that can
/// stand in a raw literal, refusing conservatively: `Ok` carries the
/// unescaped text, `Err(Lint)` asks for a diagnostic without a fix, and
/// `Err(Ignore)` abstains entirely.
pub fn conservative_unescape(literal: &str) -> (r: Result<String, UnescapeErr>)
    ensures
        match r {
            Ok(u) => unescape_spec(literal@) == UnescapeSpec::Fixable(u@),
            Err(UnescapeErr::Lint) => unescape_spec(literal@) is LintOnly,
            Err(UnescapeErr::Ignore) => unescape_spec(literal@) is Abstain,
        },
{
    let n = literal.unicode_len();
    let mut unescaped = String::new();
    let mut err = false;
    let mut i: usize = 0;
    proof {
        assert(literal@.skip(0) =~= literal@);
        if let UnescapeSpec::Fixable(t) = unescape_spec(literal@) {
            assert(Seq::<char>::empty() + t =~= t);
        }
    }
    while i < n
        invariant
            i <= n,
            n == literal@.len(),
            unescape_spec(literal@) == merge_unescape(
                err,
                unescaped@,
                unescape_spec(literal@.skip(i as int)),
            ),
        decreases n - i,
    {
        let ch = literal.get_char(i);
        if ch == '#' {
            proof {
                assert(literal@.skip(i as int).skip(1) =~= literal@.skip(i + 1));
            }
            err = true;
            i = i + 1;
        } else if ch == '\\' {
            if i + 1 == n {
                return Err(UnescapeErr::Ignore);
            }
            let ch2 = literal.get_char(i + 1);
            proof {
                assert(literal@.skip(i as int).skip(2) =~= literal@.skip(i + 2));
                assert(literal@.skip(i as int)[1] == literal@[i + 1]);
            }
            if ch2 == '\\' {
                proof {
                    if let UnescapeSpec::Fixable(t) = unescape_spec(literal@.skip(i + 2)) {
                        assert(unescaped@.push('\\') + t =~= unescaped@ + (seq!['\\'] + t));
                    }
                }
                unescaped.push('\\');
                i = i + 2;
            } else if ch2 == '"' {
                err = true;
                i = i + 2;
            } else {
                return Err(UnescapeErr::Ignore);
            }
        } else {
            proof {
                assert(literal@.skip(i as int).skip(1) =~= literal@.skip(i + 1));
                if let UnescapeSpec::Fixable(t) = unescape_spec(literal@.skip(i + 1)) {
                    assert(unescaped@.push(ch) + t =~= unescaped@ + (seq![literal@[i as int]] + t));
                }
            }
            unescaped.push(ch);
            i = i + 1;
        }
    }
    proof {
        assert(literal@.skip(n as int) =~= Seq::<char>::empty());
        assert(unescaped@ + Seq::<char>::empty() =~= unescaped@);
    }
    if err {
        Err(UnescapeErr::Lint)
    } else {
        Ok(unescaped)
    }
}

/// Number of `#` characters at the front of `s`.
pub open spec fn lead_hashes(s: Seq<char>) -> int
    decreases s.len(),
{
    if s.len() == 0 {
        0
    } else if s[0] == '#' {
        1 + lead_hashes(s.skip(1))
    } else {
        0
    }
}

/// Number of `#` characters at the back of `s`.
pub open spec fn trail_hashes(s: Seq<char>) -> int
    decreases s.len(),
{
    if s.len() == 0 {
        0
    } else if s.last() == '#' {
        1 + trail_hashes(s.drop_last())
    } else {
        0
    }
}

/// Whether the literal source text is a raw literal (starts with `r`).
pub open spec fn is_raw_literal(s: Seq<char>) -> bool {
    s.len() > 0 && s[0] == 'r'
}

/// The quoted body of a string literal's source text: the raw marker and
/// the surrounding `#`s stripped.
pub open spec fn literal_body(s: Seq<char>) -> Seq<char> {
    if is_raw_literal(s) {
        s.skip(1).subrange(lead_hashes(s.skip(1)), s.skip(1).len() - trail_hashes(s.skip(1)))
    } else {
        s
    }
}

/// The source text is a well-formed string literal: after the raw marker
/// and the `#`s are stripped, a double quote stands at either end.
pub open spec fn str_literal_wf(s: Seq<char>) -> bool {
    &&& (is_raw_literal(s) ==> lead_hashes(s.skip(1)) + trail_hashes(s.skip(1)) <= s.skip(1).len())
    &&& literal_body(s).len() >= 2
    &&& literal_body(s).first() == '"'
    &&& literal_body(s).last() == '"'
}

/// The characters between the quotes of a string literal's source text.
pub open spec fn str_literal_inner(s: Seq<char>) -> Seq<char> {
    literal_body(s).subrange(1, literal_body(s).len() - 1)
}

proof fn lemma_lead_hashes_eq(s: Seq<char>, k: int)
    requires
        0 <= k <= s.len(),
        forall|j: int| 0 <= j < k ==> s[j] == '#',
        k < s.len() ==> s[k] != '#',
    ensures
        lead_hashes(s) == k,
    decreases k,
{
    if k == 0 {
    } else {
        lemma_lead_hashes_eq(s.skip(1), k - 1);
    }
}

proof fn lemma_hash_counts_nonneg(s: Seq<char>)
    ensures
        0 <= lead_hashes(s) <= s.len(),
        0 <= trail_hashes(s) <= s.len(),
    decreases s.len(),
{
    if s.len() > 0 {
        lemma_hash_counts_nonneg(s.skip(1));
        lemma_hash_counts_nonneg(s.drop_last());
    }
}

proof fn lemma_trail_hashes_eq(s: Seq<char>, k: int)
    requires
        0 <= k <= s.len(),
        forall|j: int| s.len() - k <= j < s.len() ==> s[j] == '#',
        k < s.len() ==> s[s.len() - k - 1] != '#',
    ensures
        trail_hashes(s) == k,
    decreases k,
{
    if k == 0 {
    } else {
        lemma_trail_hashes_eq(s.drop_last(), k - 1);
    }
}

/// Split the source text of a string literal into the characters between
/// its quotes and whether it was a raw literal.
pub fn extract_str_literal(literal: &str) -> (r: (String, bool))
    requires
        str_literal_wf(literal@),
    ensures
        r.0@ == str_literal_inner(literal@),
        r.1 == is_raw_literal(literal@),
{
    let n = literal.unicode_len();
    let raw = n > 0 && literal.get_char(0) == 'r';
    if raw {
        let mut a: usize = 1;
        while a < n && literal.get_char(a) == '#'
            invariant
                1 <= a <= n,
            n == literal@.len(),
                forall|j: int| 1 <= j < a ==> literal@[j] == '#',
            decreases n - a,
        {
            a = a + 1;
        }
        proof {
            lemma_lead_hashes_eq(literal@.skip(1), a - 1);
        }
        let mut b: usize = n;
        while b > a && literal.get_char(b - 1) == '#'
            invariant
                a <= b <= n,
                n == literal@.len(),
                forall|j: int| b <= j < n ==> literal@[j] == '#',
            decreases b,
        {
            b = b - 1;
        }
        proof {
            let body = literal@.skip(1);
            if b == a {
                // the whole trimmed body would be hashes, which the
                // well-formedness of the literal rules out
                if a < n {
                    assert(literal@[a as int] == '#');
                } else {
                    lemma_hash_counts_nonneg(body);
                    lemma_lead_hashes_eq(body, n - 1);
                    assert(literal_body(literal@).len() <= 0);
                }
                assert(false);
            }
            assert(literal@[b - 1] != '#');
            lemma_trail_hashes_eq(body, n - b);
            assert(literal_body(literal@) =~= literal@.subrange(a as int, b as int));
            assert(literal_body(literal@).len() == b - a);
            assert(b - a >= 2);
            assert(str_literal_inner(literal@) =~= literal@.subrange(a + 1, b - 1));
        }
        let inner = literal.substring_char(a + 1, b - 1);
        (inner.to_owned(), true)
    } else {
        proof {
            assert(literal_body(literal@) == literal@);
            assert(str_literal_inner(literal@) =~= literal@.subrange(1, n - 1));
        }
        let inner = literal.substring_char(1, n - 1);
        (inner.to_owned(), false)
    }
}

/// The printed (escaped) form of a character sequence as it stands between
/// the quotes of an ordinary string literal: backslashes and quotes get a
/// leading backslash, every other character is printed verbatim.
pub open spec fn escaped_form(s: Seq<char>) -> Seq<char>
    decreases s.len(),
{
    if s.len() == 0 {
        Seq::empty()
    } else if s[0] == '\\' {
        seq!['\\', '\\'] + escaped_form(s.skip(1))
    } else if s[0] == '"' {
        seq!['\\', '"'] + escaped_form(s.skip(1))
    } else {
        seq![s[0]] + escaped_form(s.skip(1))
    }
}

/// Round trip: applied to the printed (escaped) form of a character
/// sequence, the conservative unescape reproduces the original characters
/// whenever it returns a fixable result; and it does return one whenever
/// the original characters hold no `#` and no quote.
pub proof fn lemma_unescape_round_trip(s: Seq<char>)
    ensures
        unescape_spec(escaped_form(s)) matches UnescapeSpec::Fixable(t) ==> t == s,
        (forall|i: int| 0 <= i < s.len() ==> s[i] != '#' && s[i] != '"') ==> unescape_spec(
            escaped_form(s),
        ) == UnescapeSpec::Fixable(s),
    decreases s.len(),
{
    if s.len() == 0 {
        assert(s =~= Seq::<char>::empty());
        assert(unescape_spec(escaped_form(s)) == UnescapeSpec::Fixable(Seq::<char>::empty()));
    } else {
        lemma_unescape_round_trip(s.skip(1));
        let e = escaped_form(s);
        if s[0] == '\\' {
            assert(e =~= seq!['\\', '\\'] + escaped_form(s.skip(1)));
            assert(e.skip(2) =~= escaped_form(s.skip(1)));
            if let UnescapeSpec::Fixable(t) = unescape_spec(e) {
                assert(seq!['\\'] + s.skip(1) =~= s);
            }
            if forall|i: int| 0 <= i < s.len() ==> s[i] != '#' && s[i] != '"' {
                assert(forall|i: int| 0 <= i < s.skip(1).len() ==> s.skip(1)[i] != '#' && s.skip(
                    1,
                )[i] != '"');
                assert(seq!['\\'] + s.skip(1) =~= s);
            }
        } else if s[0] == '"' {
            assert(e =~= seq!['\\', '"'] + escaped_form(s.skip(1)));
            assert(e.skip(2) =~= escaped_form(s.skip(1)));
        } else {
            assert(e =~= seq![s[0]] + escaped_form(s.skip(1)));
            assert(e.skip(1) =~= escaped_form(s.skip(1)));
            if let UnescapeSpec::Fixable(t) = unescape_spec(e) {
                assert(seq![s[0]] + s.skip(1) =~= s);
            }
            if forall|i: int| 0 <= i < s.len() ==> s[i] != '#' && s[i] != '"' {
                assert(forall|i: int| 0 <= i < s.skip(1).len() ==> s.skip(1)[i] != '#' && s.skip(
                    1,
                )[i] != '"');
                assert(seq![s[0]] + s.skip(1) =~= s);
            }
        }
    }
}

} // verus!
