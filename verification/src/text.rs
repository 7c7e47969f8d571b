//! Character classification and string scanning helpers shared by the
//! tokenizer, the validators and the text builders.

use vstd::prelude::*;

verus! {

/// Whitespace as trimmed from module parameter tokens: the ASCII blanks.
pub open spec fn is_space_char(c: char) -> bool {
    c == ' ' || c == '\t' || c == '\n' || c == '\r'
}

/// A quote character that may surround a parameter token.
pub open spec fn is_quote_char(c: char) -> bool {
    c == '"' || c == '\''
}

/// ASCII lower-casing of one character; anything outside `A`..`Z` is kept.
pub open spec fn lower_char(c: char) -> char {
    if 65 <= c as u32 && c as u32 <= 90 {
        ((c as u32 + 32) as u8) as char
    } else {
        c
    }
}

/// ASCII lower-casing of a whole sequence of characters.
pub open spec fn lower_of(s: Seq<char>) -> Seq<char> {
    s.map_values(|c: char| lower_char(c))
}

/// Executable ASCII blank test, equal to [`is_space_char`].
pub fn is_space(c: char) -> (r: bool)
    ensures
        r == is_space_char(c),
{
    c == ' ' || c == '\t' || c == '\n' || c == '\r'
}

/// Executable ASCII lower-casing, equal to [`lower_char`].
pub fn to_lower(c: char) -> (r: char)
    ensures
        r == lower_char(c),
{
    let u = c as u32;
    if 65 <= u && u <= 90 {
        ((u + 32) as u8) as char
    } else {
        c
    }
}

/// What remains after dropping leading ASCII blanks.
pub open spec fn ltrim_of(s: Seq<char>) -> Seq<char>
    decreases s.len(),
{
    if s.len() > 0 && is_space_char(s[0]) {
        ltrim_of(s.drop_first())
    } else {
        s
    }
}

/// What remains after dropping trailing ASCII blanks.
pub open spec fn rtrim_of(s: Seq<char>) -> Seq<char>
    decreases s.len(),
{
    if s.len() > 0 && is_space_char(s.last()) {
        rtrim_of(s.drop_last())
    } else {
        s
    }
}

/// What remains after dropping blanks on both ends.
pub open spec fn trim_of(s: Seq<char>) -> Seq<char> {
    rtrim_of(ltrim_of(s))
}

/// Bounds of the trimmed window `s[lo..hi]`: the returned pair `(a, b)`
/// delimits exactly `trim_of(s@[lo..hi])` within `s`.
pub fn trim_window(s: &str, lo: usize, hi: usize) -> (r: (usize, usize))
    requires
        lo <= hi <= s@.len(),
    ensures
        lo <= r.0 <= r.1 <= hi,
        s@.subrange(r.0 as int, r.1 as int) == trim_of(s@.subrange(lo as int, hi as int)),
{
    let mut a = lo;
    while a < hi && is_space(s.get_char(a))
        invariant
            lo <= a <= hi <= s@.len(),
            ltrim_of(s@.subrange(lo as int, hi as int)) == ltrim_of(
                s@.subrange(a as int, hi as int),
            ),
        decreases hi - a,
    {
        proof {
            let cur = s@.subrange(a as int, hi as int);
            assert(cur.drop_first() =~= s@.subrange(a as int + 1, hi as int));
        }
        a += 1;
    }
    proof {
        let cur = s@.subrange(a as int, hi as int);
        assert(ltrim_of(cur) == cur);
    }
    let mut b = hi;
    while b > a && is_space(s.get_char(b - 1))
        invariant
            lo <= a <= b <= hi <= s@.len(),
            ltrim_of(s@.subrange(lo as int, hi as int)) == s@.subrange(a as int, hi as int),
            rtrim_of(s@.subrange(a as int, hi as int)) == rtrim_of(
                s@.subrange(a as int, b as int),
            ),
        decreases b,
    {
        proof {
            let cur = s@.subrange(a as int, b as int);
            assert(cur.drop_last() =~= s@.subrange(a as int, b as int - 1));
        }
        b -= 1;
    }
    proof {
        let cur = s@.subrange(a as int, b as int);
        assert(rtrim_of(cur) == cur);
    }
    (a, b)
}

/// The pieces of `s` between occurrences of `sep`, in order. A sequence
/// with no separator yields one piece; every separator adds one piece, so
/// the result is never empty.
pub open spec fn split_on(s: Seq<char>, sep: char) -> Seq<Seq<char>>
    decreases s.len(),
{
    if s.len() == 0 {
        seq![Seq::<char>::empty()]
    } else {
        let prev = split_on(s.drop_last(), sep);
        if s.last() == sep {
            prev.push(Seq::<char>::empty())
        } else {
            prev.update(prev.len() - 1, prev.last().push(s.last()))
        }
    }
}

pub proof fn lemma_split_on_nonempty(s: Seq<char>, sep: char)
    ensures
        split_on(s, sep).len() >= 1,
    decreases s.len(),
{
    if s.len() > 0 {
        lemma_split_on_nonempty(s.drop_last(), sep);
    }
}

/// Splits a string into the pieces between occurrences of `sep`.
pub fn split_plain(s: &str, sep: char) -> (r: Vec<String>)
    ensures
        r.deep_view() == split_on(s@, sep),
{
    let n = s.unicode_len();
    let mut out: Vec<String> = Vec::new();
    let mut start: usize = 0;
    let mut i: usize = 0;
    proof {
        assert(s@.subrange(0, 0) =~= Seq::<char>::empty());
    }
    while i < n
        invariant
            start <= i <= n == s@.len(),
            split_on(s@.subrange(0, i as int), sep).drop_last() == out.deep_view(),
            split_on(s@.subrange(0, i as int), sep).last() == s@.subrange(
                start as int,
                i as int,
            ),
            split_on(s@.subrange(0, i as int), sep).len() >= 1,
        decreases n - i,
    {
        let ghost pref = s@.subrange(0, i as int);
        let ghost next = s@.subrange(0, i as int + 1);
        proof {
            assert(next.drop_last() =~= pref);
            lemma_split_on_nonempty(pref, sep);
        }
        let c = s.get_char(i);
        if c == sep {
            let piece = String::from_str(s.substring_char(start, i));
            out.push(piece);
            proof {
                assert(split_on(next, sep) == split_on(pref, sep).push(Seq::<char>::empty()));
                assert(split_on(next, sep).drop_last() =~= split_on(pref, sep));
                assert(split_on(pref, sep) =~= split_on(pref, sep).drop_last().push(
                    s@.subrange(start as int, i as int),
                ));
                assert(out.deep_view() =~= split_on(next, sep).drop_last());
            }
            start = i + 1;
            proof {
                assert(split_on(next, sep).last() =~= s@.subrange(start as int, i as int + 1));
            }
        } else {
            proof {
                let prev = split_on(pref, sep);
                let upd = prev.update(prev.len() - 1, prev.last().push(c));
                assert(split_on(next, sep) == upd);
                assert(upd.drop_last() =~= prev.drop_last());
                assert(upd.last() == prev.last().push(c));
                assert(prev.last().push(c) =~= s@.subrange(start as int, i as int + 1));
            }
        }
        i += 1;
    }
    let piece = String::from_str(s.substring_char(start, n));
    out.push(piece);
    proof {
        assert(s@.subrange(0, n as int) =~= s@);
        let full = split_on(s@, sep);
        assert(full =~= full.drop_last().push(s@.subrange(start as int, n as int)));
        assert(out.deep_view() =~= full);
    }
    out
}

/// Whether `s` begins with the prefix `p`.
pub open spec fn starts_with_of(s: Seq<char>, p: Seq<char>) -> bool {
    s.len() >= p.len() && s.subrange(0, p.len() as int) == p
}

/// Executable prefix test, equal to [`starts_with_of`].
pub fn str_starts_with(s: &str, p: &str) -> (r: bool)
    ensures
        r == starts_with_of(s@, p@),
{
    let ns = s.unicode_len();
    let np = p.unicode_len();
    if ns < np {
        return false;
    }
    let mut i: usize = 0;
    while i < np
        invariant
            np <= ns == s@.len(),
            np == p@.len(),
            i <= np,
            forall|j: int| 0 <= j < i ==> s@[j] == p@[j],
        decreases np - i,
    {
        if s.get_char(i) != p.get_char(i) {
            assert(s@.subrange(0, np as int)[i as int] != p@[i as int]);
            return false;
        }
        i += 1;
    }
    proof {
        assert(s@.subrange(0, np as int) =~= p@);
    }
    true
}

/// The position of the first token equal to `target`, if any.
pub open spec fn find_token(ts: Seq<Seq<char>>, target: Seq<char>) -> Option<int>
    decreases ts.len(),
{
    if ts.len() == 0 {
        None
    } else if ts[0] == target {
        Some(0int)
    } else {
        match find_token(ts.drop_first(), target) {
            Some(i) => Some(i + 1),
            None => None,
        }
    }
}

pub proof fn lemma_find_token(ts: Seq<Seq<char>>, target: Seq<char>)
    ensures
        match find_token(ts, target) {
            Some(i) => 0 <= i < ts.len() && ts[i] == target && forall|j: int|
                0 <= j < i ==> ts[j] != target,
            None => forall|j: int| 0 <= j < ts.len() ==> ts[j] != target,
        },
    decreases ts.len(),
{
    if ts.len() > 0 && ts[0] != target {
        let rest = ts.drop_first();
        lemma_find_token(rest, target);
        assert(forall|j: int| 1 <= j < ts.len() ==> ts[j] == rest[j - 1]);
        match find_token(rest, target) {
            Some(i) => {
                assert(ts[i + 1] == rest[i]);
                assert forall|j: int| 0 <= j < i + 1 implies ts[j] != target by {
                    if j >= 1 {
                        assert(ts[j] == rest[j - 1]);
                    }
                }
            },
            None => {
                assert forall|j: int| 0 <= j < ts.len() implies ts[j] != target by {
                    if j >= 1 {
                        assert(ts[j] == rest[j - 1]);
                    }
                }
            },
        }
    }
}

/// The position of the first token character-equal to `target`, if any.
pub fn position_of(tokens: &Vec<String>, target: &str) -> (r: Option<usize>)
    ensures
        match r {
            Some(i) => find_token(tokens.deep_view(), target@) == Some(i as int),
            None => find_token(tokens.deep_view(), target@) is None,
        },
{
    let ghost ts = tokens.deep_view();
    let mut i: usize = 0;
    while i < tokens.len()
        invariant
            i <= tokens.len() == ts.len(),
            ts == tokens.deep_view(),
            forall|j: int| 0 <= j < i ==> ts[j] != target@,
        decreases tokens.len() - i,
    {
        if str_eq(tokens[i].as_str(), target) {
            proof {
                assert(ts[i as int] == tokens[i as int]@);
                lemma_find_token(ts, target@);
                let k = find_token(ts, target@)->Some_0;
                assert(!(k < i));
                assert(!(k > i));
            }
            return Some(i);
        }
        i += 1;
    }
    proof {
        lemma_find_token(ts, target@);
    }
    None
}

/// Whether the window `s[lo..hi]`, lower-cased, equals `lit`.
pub fn window_lower_eq(s: &str, lo: usize, hi: usize, lit: &str) -> (r: bool)
    requires
        lo <= hi <= s@.len(),
    ensures
        r == (lower_of(s@.subrange(lo as int, hi as int)) == lit@),
{
    let ghost w = s@.subrange(lo as int, hi as int);
    let n = lit.unicode_len();
    if hi - lo != n {
        assert(lower_of(w).len() == w.len());
        return false;
    }
    let mut i: usize = 0;
    while i < n
        invariant
            lo <= hi <= s@.len(),
            w == s@.subrange(lo as int, hi as int),
            n == lit@.len(),
            n == hi - lo,
            i <= n,
            forall|j: int| 0 <= j < i ==> lower_of(w)[j] == lit@[j],
        decreases n - i,
    {
        let c = to_lower(s.get_char(lo + i));
        if c != lit.get_char(i) {
            assert(lower_of(w)[i as int] == lower_char(w[i as int]));
            return false;
        }
        assert(lower_of(w)[i as int] == lower_char(w[i as int]));
        i += 1;
    }
    proof {
        assert(lower_of(w) =~= lit@);
    }
    true
}

/// Character-exact string equality, stated over the views.
pub fn str_eq(a: &str, b: &str) -> (r: bool)
    ensures
        r == (a@ == b@),
{
    let na = a.unicode_len();
    let nb = b.unicode_len();
    if na != nb {
        assert(a@ != b@) by {
            assert(a@.len() != b@.len());
        }
        return false;
    }
    let mut i: usize = 0;
    while i < na
        invariant
            na == a@.len(),
            na == b@.len(),
            i <= na,
            forall|j: int| 0 <= j < i ==> a@[j] == b@[j],
        decreases na - i,
    {
        if a.get_char(i) != b.get_char(i) {
            return false;
        }
        i += 1;
    }
    proof {
        assert(a@ =~= b@);
    }
    true
}

} // verus!
