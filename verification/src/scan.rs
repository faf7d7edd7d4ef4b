//! Verified text scanning: character classes, equality, prefixes, trimming
//! and top-level comma splitting.
//!
//! These are the primitives the codec and the composite parser are built on.
//! Splitting is deliberately flat: it has no bracket-depth tracking, so nested
//! composite literals are not recognised — a known limitation of the design.

use vstd::prelude::*;
use vstd::string::StrSliceExecFns;

verus! {

/// The Unicode `White_Space` set, as `char::is_whitespace` defines it.
pub open spec fn whitespace_char(c: char) -> bool {
    let u = c as u32;
    ||| u == 0x09
    ||| u == 0x0a
    ||| u == 0x0b
    ||| u == 0x0c
    ||| u == 0x0d
    ||| u == 0x20
    ||| u == 0x85
    ||| u == 0xa0
    ||| u == 0x1680
    ||| (0x2000 <= u && u <= 0x200a)
    ||| u == 0x2028
    ||| u == 0x2029
    ||| u == 0x202f
    ||| u == 0x205f
    ||| u == 0x3000
}

/// Which character set a trim pass strips from both ends.
#[derive(Debug, Clone, Copy, PartialEq, Eq)]
pub enum TrimSet {
    /// Whitespace characters.
    Whitespace,
    /// The array delimiters `[` and `]`.
    SquareBrackets,
    /// The tuple delimiters `(` and `)`.
    Parentheses,
}

pub open spec fn trim_set_spec(t: TrimSet) -> spec_fn(char) -> bool {
    match t {
        TrimSet::Whitespace => |c: char| whitespace_char(c),
        TrimSet::SquareBrackets => |c: char| c == '[' || c == ']',
        TrimSet::Parentheses => |c: char| c == '(' || c == ')',
    }
}

pub open spec fn trim_start_spec(s: Seq<char>, p: spec_fn(char) -> bool) -> Seq<char>
    decreases s.len(),
{
    if s.len() > 0 && p(s[0]) {
        trim_start_spec(s.drop_first(), p)
    } else {
        s
    }
}

pub open spec fn trim_end_spec(s: Seq<char>, p: spec_fn(char) -> bool) -> Seq<char>
    decreases s.len(),
{
    if s.len() > 0 && p(s[s.len() - 1]) {
        trim_end_spec(s.drop_last(), p)
    } else {
        s
    }
}

pub open spec fn trim_spec(s: Seq<char>, p: spec_fn(char) -> bool) -> Seq<char> {
    trim_end_spec(trim_start_spec(s, p), p)
}

/// `s` with leading and trailing whitespace removed.
pub open spec fn trimmed(s: Seq<char>) -> Seq<char> {
    trim_spec(s, trim_set_spec(TrimSet::Whitespace))
}

/// `s` with leading and trailing `[` / `]` removed.
pub open spec fn unbracketed(s: Seq<char>) -> Seq<char> {
    trim_spec(s, trim_set_spec(TrimSet::SquareBrackets))
}

/// `s` with leading and trailing `(` / `)` removed.
pub open spec fn unparenthesized(s: Seq<char>) -> Seq<char> {
    trim_spec(s, trim_set_spec(TrimSet::Parentheses))
}

/// `p` is a prefix of `s`.
pub open spec fn starts_with_spec(s: Seq<char>, p: Seq<char>) -> bool {
    p.len() <= s.len() && p == s.take(p.len() as int)
}

/// `s` split at every comma; always at least one part, commas appear in none.
pub open spec fn split_commas_spec(s: Seq<char>) -> Seq<Seq<char>>
    decreases s.len(),
{
    if s.len() == 0 {
        seq![Seq::<char>::empty()]
    } else if s[0] == ',' {
        seq![Seq::<char>::empty()] + split_commas_spec(s.drop_first())
    } else {
        let rest = split_commas_spec(s.drop_first());
        seq![seq![s[0]] + rest[0]] + rest.drop_first()
    }
}

proof fn lemma_split_commas_nonempty(s: Seq<char>)
    ensures
        split_commas_spec(s).len() >= 1,
    decreases s.len(),
{
    if s.len() > 0 {
        lemma_split_commas_nonempty(s.drop_first());
    }
}

proof fn lemma_split_no_comma(s: Seq<char>)
    requires
        forall|k: int| 0 <= k < s.len() ==> s[k] != ',',
    ensures
        split_commas_spec(s) == seq![s],
    decreases s.len(),
{
    if s.len() == 0 {
        assert(split_commas_spec(s) =~~= seq![s]);
    } else {
        lemma_split_no_comma(s.drop_first());
        let rest = split_commas_spec(s.drop_first());
        assert(rest[0] == s.drop_first());
        assert(seq![s[0]] + s.drop_first() =~= s);
        assert(split_commas_spec(s) =~~= seq![s]);
    }
}

proof fn lemma_split_at_comma(s: Seq<char>, k: int)
    requires
        0 <= k < s.len(),
        s[k] == ',',
        forall|t: int| 0 <= t < k ==> s[t] != ',',
    ensures
        split_commas_spec(s) == seq![s.take(k)] + split_commas_spec(s.skip(k + 1)),
    decreases k,
{
    if k == 0 {
        assert(s.take(0) =~= Seq::<char>::empty());
        assert(s.skip(1) =~= s.drop_first());
        assert(split_commas_spec(s) =~~= seq![s.take(0)] + split_commas_spec(s.skip(1)));
    } else {
        lemma_split_at_comma(s.drop_first(), k - 1);
        let rest = split_commas_spec(s.drop_first());
        let tail_split = split_commas_spec(s.drop_first().skip(k));
        lemma_split_commas_nonempty(s.drop_first().skip(k));
        assert(rest == seq![s.drop_first().take(k - 1)] + tail_split);
        assert(rest[0] == s.drop_first().take(k - 1));
        assert(seq![s[0]] + s.drop_first().take(k - 1) =~= s.take(k));
        assert(rest.drop_first() =~= tail_split);
        assert(s.drop_first().skip(k) =~= s.skip(k + 1));
        assert(split_commas_spec(s) =~~= seq![s.take(k)] + split_commas_spec(s.skip(k + 1)));
    }
}

/// Whether `c` belongs to the trim set `t`.
pub fn in_trim_set(c: char, t: TrimSet) -> (r: bool)
    ensures
        r == trim_set_spec(t)(c),
{
    match t {
        TrimSet::Whitespace => {
            let u = c as u32;
            u == 0x09 || u == 0x0a || u == 0x0b || u == 0x0c || u == 0x0d || u == 0x20
                || u == 0x85 || u == 0xa0 || u == 0x1680 || (0x2000 <= u && u <= 0x200a)
                || u == 0x2028 || u == 0x2029 || u == 0x202f || u == 0x205f || u == 0x3000
        },
        TrimSet::SquareBrackets => c == '[' || c == ']',
        TrimSet::Parentheses => c == '(' || c == ')',
    }
}

proof fn lemma_trim_start_at(s: Seq<char>, p: spec_fn(char) -> bool, i: int)
    requires
        0 <= i <= s.len(),
        forall|k: int| 0 <= k < i ==> p(s[k]),
        i < s.len() ==> !p(s[i]),
    ensures
        trim_start_spec(s, p) == s.skip(i),
    decreases i,
{
    if i == 0 {
        assert(s.skip(0) =~= s);
    } else {
        assert(p(s[0]));
        lemma_trim_start_at(s.drop_first(), p, i - 1);
        assert(s.drop_first().skip(i - 1) =~= s.skip(i));
    }
}

proof fn lemma_trim_end_at(s: Seq<char>, p: spec_fn(char) -> bool, j: int)
    requires
        0 <= j <= s.len(),
        forall|k: int| j <= k < s.len() ==> p(s[k]),
        j > 0 ==> !p(s[j - 1]),
    ensures
        trim_end_spec(s, p) == s.take(j),
    decreases s.len() - j,
{
    if j == s.len() {
        assert(s.take(j) =~= s);
    } else {
        assert(p(s[s.len() - 1]));
        lemma_trim_end_at(s.drop_last(), p, j);
        assert(s.drop_last().take(j) =~= s.take(j));
    }
}

/// Strip the characters of `t` from both ends of `s`.
pub fn trim_in_set<'a>(s: &'a str, t: TrimSet) -> (r: &'a str)
    ensures
        r@ == trim_spec(s@, trim_set_spec(t)),
{
    let n = s.unicode_len();
    let mut i: usize = 0;
    loop
        invariant
            0 <= i <= n,
            n == s@.len(),
            forall|k: int| 0 <= k < i ==> trim_set_spec(t)(s@[k]),
        ensures
            0 <= i <= n,
            forall|k: int| 0 <= k < i ==> trim_set_spec(t)(s@[k]),
            i < n ==> !trim_set_spec(t)(s@[i as int]),
        decreases n - i,
    {
        if i >= n {
            break;
        }
        if !in_trim_set(s.get_char(i), t) {
            break;
        }
        i += 1;
    }
    let mut j: usize = n;
    loop
        invariant
            i <= j <= n,
            n == s@.len(),
            forall|k: int| j <= k < n ==> trim_set_spec(t)(s@[k]),
        ensures
            i <= j <= n,
            forall|k: int| j <= k < n ==> trim_set_spec(t)(s@[k]),
            j > i ==> !trim_set_spec(t)(s@[j - 1]),
        decreases j,
    {
        if j <= i {
            break;
        }
        if !in_trim_set(s.get_char(j - 1), t) {
            break;
        }
        j -= 1;
    }
    proof {
        lemma_trim_start_at(s@, trim_set_spec(t), i as int);
        lemma_trim_end_at(s@.skip(i as int), trim_set_spec(t), j - i);
        assert(s@.skip(i as int).take(j - i) =~= s@.subrange(i as int, j as int));
    }
    s.substring_char(i, j)
}

/// Character-wise equality of two text slices.
pub fn str_equal(a: &str, b: &str) -> (r: bool)
    ensures
        r == (a@ == b@),
{
    let na = a.unicode_len();
    let nb = b.unicode_len();
    if na != nb {
        return false;
    }
    let mut i: usize = 0;
    while i < na
        invariant
            0 <= i <= na,
            na == a@.len(),
            na == b@.len(),
            forall|k: int| 0 <= k < i ==> a@[k] == b@[k],
        decreases na - i,
    {
        if a.get_char(i) != b.get_char(i) {
            return false;
        }
        i += 1;
    }
    proof {
        assert(a@ =~= b@);
    }
    true
}

/// Whether `p` is a prefix of `s`.
pub fn starts_with_text(s: &str, p: &str) -> (r: bool)
    ensures
        r == starts_with_spec(s@, p@),
{
    let np = p.unicode_len();
    let ns = s.unicode_len();
    if np > ns {
        return false;
    }
    let mut i: usize = 0;
    while i < np
        invariant
            0 <= i <= np,
            np == p@.len(),
            ns == s@.len(),
            np <= ns,
            forall|k: int| 0 <= k < i ==> p@[k] == s@[k],
        decreases np - i,
    {
        if s.get_char(i) != p.get_char(i) {
            proof {
                if p@ == s@.take(np as int) {
                    assert(p@[i as int] == s@.take(np as int)[i as int]);
                }
            }
            return false;
        }
        i += 1;
    }
    proof {
        assert(p@ =~= s@.take(np as int));
    }
    true
}

/// Whether `p` is a suffix of `s`.
pub open spec fn ends_with_spec(s: Seq<char>, p: Seq<char>) -> bool {
    p.len() <= s.len() && p == s.skip(s.len() - p.len())
}

/// Whether `p` is a suffix of `s`.
pub fn ends_with_text(s: &str, p: &str) -> (r: bool)
    ensures
        r == ends_with_spec(s@, p@),
{
    let np = p.unicode_len();
    let ns = s.unicode_len();
    if np > ns {
        return false;
    }
    let base = ns - np;
    let mut i: usize = 0;
    while i < np
        invariant
            0 <= i <= np,
            np == p@.len(),
            ns == s@.len(),
            base == ns - np,
            forall|k: int| 0 <= k < i ==> p@[k] == s@[base + k],
        decreases np - i,
    {
        if s.get_char(base + i) != p.get_char(i) {
            proof {
                if p@ == s@.skip(base as int) {
                    assert(p@[i as int] == s@.skip(base as int)[i as int]);
                }
            }
            return false;
        }
        i += 1;
    }
    proof {
        assert(p@ =~= s@.skip(base as int));
    }
    true
}

/// Split `s` at every comma, with no nesting awareness.
pub fn split_commas(s: &str) -> (parts: Vec<String>)
    ensures
        parts@.map_values(|t: String| t@) == split_commas_spec(s@),
{
    let n = s.unicode_len();
    let mut parts: Vec<String> = Vec::new();
    let mut start: usize = 0;
    let mut i: usize = 0;
    proof {
        assert(s@.skip(0) =~= s@);
        assert(parts@.map_values(|t: String| t@) =~= Seq::<Seq<char>>::empty());
    }
    while i < n
        invariant
            0 <= start <= i <= n,
            n == s@.len(),
            forall|k: int| start <= k < i ==> s@[k] != ',',
            split_commas_spec(s@) == parts@.map_values(|t: String| t@) + split_commas_spec(
                s@.skip(start as int),
            ),
        decreases n - i,
    {
        if s.get_char(i) == ',' {
            let part = s.substring_char(start, i);
            let ghost old_parts = parts@;
            parts.push(part.to_owned());
            proof {
                let tail = s@.skip(start as int);
                lemma_split_at_comma(tail, i - start);
                assert(tail.take(i - start) =~= s@.subrange(start as int, i as int));
                assert(tail.skip(i - start + 1) =~= s@.skip(i + 1));
                assert(parts@.map_values(|t: String| t@) =~= old_parts.map_values(
                    |t: String| t@,
                ).push(part@));
                assert(old_parts.map_values(|t: String| t@) + (seq![part@] + split_commas_spec(
                    s@.skip(i + 1),
                )) =~= parts@.map_values(|t: String| t@) + split_commas_spec(s@.skip(i + 1)));
            }
            start = i + 1;
        }
        i += 1;
    }
    let last = s.substring_char(start, n);
    let ghost old_parts = parts@;
    parts.push(last.to_owned());
    proof {
        let tail = s@.skip(start as int);
        lemma_split_no_comma(tail);
        assert(tail =~= s@.subrange(start as int, n as int));
        assert(parts@.map_values(|t: String| t@) =~= old_parts.map_values(|t: String| t@).push(
            last@,
        ));
        assert(old_parts.map_values(|t: String| t@) + seq![last@] =~= parts@.map_values(
            |t: String| t@,
        ));
    }
    parts
}

} // verus!
