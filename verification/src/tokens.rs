//! Tokenizing a module's comma-separated parameter values and loose
//! boolean token parsing.

use vstd::prelude::*;
use crate::text::{
    is_quote_char, lower_of, split_on, trim_of, trim_window, window_lower_eq,
};

verus! {

/// One normalization pass over a raw token: trim blanks, strip one layer
/// of matching surrounding quotes, trim again.
pub open spec fn strip_quotes_of(s: Seq<char>) -> Seq<char> {
    if s.len() >= 2 && s[0] == s[s.len() - 1] && is_quote_char(s[0]) {
        s.subrange(1, s.len() - 1)
    } else {
        s
    }
}

/// The normalized form of one raw comma-separated token.
pub open spec fn norm_of(s: Seq<char>) -> Seq<char> {
    trim_of(strip_quotes_of(trim_of(s)))
}

/// The tokens of a comma-separated parameter value: the trimmed input is
/// split on commas, each piece is normalized, and empty pieces are dropped.
pub open spec fn split_param_csv_of(raw: Seq<char>) -> Seq<Seq<char>> {
    split_on(trim_of(raw), ',').map_values(|t: Seq<char>| norm_of(t)).filter(
        |t: Seq<char>| t.len() > 0,
    )
}

/// The loose boolean reading of a token: case-insensitive `1/y/yes/true/on`
/// for true, `0/n/no/false/off` for false, anything else unparsable.
pub open spec fn parse_bool_token_of(raw: Seq<char>) -> Option<bool> {
    let t = lower_of(trim_of(raw));
    if t == "1"@ || t == "y"@ || t == "yes"@ || t == "true"@ || t == "on"@ {
        Some(true)
    } else if t == "0"@ || t == "n"@ || t == "no"@ || t == "false"@ || t == "off"@ {
        Some(false)
    } else {
        None
    }
}

/// Bounds of the normalized form of the window `s[lo..hi]`.
fn normalize_window(s: &str, lo: usize, hi: usize) -> (r: (usize, usize))
    requires
        lo <= hi <= s@.len(),
    ensures
        lo <= r.0 <= r.1 <= hi,
        s@.subrange(r.0 as int, r.1 as int) == norm_of(s@.subrange(lo as int, hi as int)),
{
    let (a, b) = trim_window(s, lo, hi);
    let ghost trimmed = s@.subrange(a as int, b as int);
    let (c, d) = if b - a >= 2 {
        let first = s.get_char(a);
        let last = s.get_char(b - 1);
        if first == last && (first == '"' || first == '\'') {
            proof {
                assert(strip_quotes_of(trimmed) =~= s@.subrange(a as int + 1, b as int - 1));
            }
            (a + 1, b - 1)
        } else {
            proof {
                assert(strip_quotes_of(trimmed) == trimmed);
            }
            (a, b)
        }
    } else {
        proof {
            assert(strip_quotes_of(trimmed) == trimmed);
        }
        (a, b)
    };
    trim_window(s, c, d)
}

/// Normalizes one raw parameter token: trim, strip one layer of matching
/// surrounding quotes, trim again.
pub fn normalize_param_token(input: &str) -> (r: String)
    ensures
        r@ == norm_of(input@),
{
    let n = input.unicode_len();
    proof {
        assert(input@.subrange(0, n as int) =~= input@);
    }
    let (a, b) = normalize_window(input, 0, n);
    String::from_str(input.substring_char(a, b))
}

/// Splits a comma-separated parameter value into its normalized non-empty
/// tokens, one per configured slot.
pub fn split_param_csv(raw: &str) -> (r: Vec<String>)
    ensures
        r.deep_view() == split_param_csv_of(raw@),
{
    let n = raw.unicode_len();
    proof {
        assert(raw@.subrange(0, n as int) =~= raw@);
    }
    let (lo, hi) = trim_window(raw, 0, n);
    let ghost t = trim_of(raw@);
    let ghost fnorm = |p: Seq<char>| norm_of(p);
    let ghost fkeep = |p: Seq<char>| p.len() > 0;
    let mut out: Vec<String> = Vec::new();
    let mut start = lo;
    let mut i = lo;
    proof {
        assert(s_window(raw@, lo as int, lo as int) =~= Seq::<char>::empty());
    }
    while i < hi
        invariant
            lo <= start <= i <= hi <= raw@.len(),
            t == s_window(raw@, lo as int, hi as int),
            fnorm == (|p: Seq<char>| norm_of(p)),
            fkeep == (|p: Seq<char>| p.len() > 0),
            split_on(s_window(raw@, lo as int, i as int), ',').drop_last().map_values(fnorm).filter(fkeep)
                == out.deep_view(),
            split_on(s_window(raw@, lo as int, i as int), ',').last() == s_window(raw@, start as int, i as int),
            split_on(s_window(raw@, lo as int, i as int), ',').len() >= 1,
        decreases hi - i,
    {
        let ghost pref = s_window(raw@, lo as int, i as int);
        let ghost next = s_window(raw@, lo as int, i as int + 1);
        proof {
            assert(next.drop_last() =~= pref);
            crate::text::lemma_split_on_nonempty(pref, ',');
        }
        let c = raw.get_char(i);
        if c == ',' {
            let (a, b) = normalize_window(raw, start, i);
            proof {
                let prev = split_on(pref, ',');
                let full = split_on(next, ',');
                assert(full == prev.push(Seq::<char>::empty()));
                assert(full.drop_last() =~= prev);
                assert(prev =~= prev.drop_last().push(s_window(raw@, start as int, i as int)));
                lemma_map_filter_push(
                    prev.drop_last(),
                    s_window(raw@, start as int, i as int),
                    fnorm,
                    fkeep,
                );
            }
            if b > a {
                out.push(String::from_str(raw.substring_char(a, b)));
                proof {
                    assert(out.deep_view() =~= split_on(next, ',').drop_last().map_values(
                        fnorm,
                    ).filter(fkeep));
                }
            } else {
                proof {
                    assert(norm_of(s_window(raw@, start as int, i as int)).len() == 0);
                }
            }
            start = i + 1;
            proof {
                assert(split_on(next, ',').last() =~= s_window(raw@, start as int, i as int + 1));
            }
        } else {
            proof {
                let prev = split_on(pref, ',');
                let upd = prev.update(prev.len() - 1, prev.last().push(c));
                assert(split_on(next, ',') == upd);
                assert(upd.drop_last() =~= prev.drop_last());
                assert(upd.last() == prev.last().push(c));
                assert(prev.last().push(c) =~= s_window(raw@, start as int, i as int + 1));
            }
        }
        i += 1;
    }
    let (a, b) = normalize_window(raw, start, hi);
    proof {
        let full = split_on(t, ',');
        crate::text::lemma_split_on_nonempty(t, ',');
        assert(full =~= full.drop_last().push(s_window(raw@, start as int, hi as int)));
        lemma_map_filter_push(full.drop_last(), s_window(raw@, start as int, hi as int), fnorm, fkeep);
    }
    if b > a {
        out.push(String::from_str(raw.substring_char(a, b)));
        proof {
            assert(out.deep_view() =~= split_param_csv_of(raw@));
        }
    } else {
        proof {
            assert(norm_of(s_window(raw@, start as int, hi as int)).len() == 0);
            assert(out.deep_view() =~= split_param_csv_of(raw@));
        }
    }
    out
}

/// Shorthand for a window of a character sequence.
pub open spec fn s_window(s: Seq<char>, lo: int, hi: int) -> Seq<char> {
    s.subrange(lo, hi)
}

proof fn lemma_map_filter_push(
    xs: Seq<Seq<char>>,
    x: Seq<char>,
    fnorm: spec_fn(Seq<char>) -> Seq<char>,
    fkeep: spec_fn(Seq<char>) -> bool,
)
    requires
        fnorm == (|p: Seq<char>| norm_of(p)),
        fkeep == (|p: Seq<char>| p.len() > 0),
    ensures
        xs.push(x).map_values(fnorm).filter(fkeep) == if norm_of(x).len() > 0 {
            xs.map_values(fnorm).filter(fkeep).push(norm_of(x))
        } else {
            xs.map_values(fnorm).filter(fkeep)
        },
{
    reveal(Seq::filter);
    let mapped = xs.push(x).map_values(fnorm);
    assert(mapped =~= xs.map_values(fnorm).push(norm_of(x)));
    assert(mapped.drop_last() =~= xs.map_values(fnorm));
    assert(mapped.last() == norm_of(x));
}

/// Parses a loosely-typed boolean token: case-insensitive
/// `1/y/yes/true/on` and `0/n/no/false/off`; anything else fails.
pub fn parse_bool_token(raw: &str) -> (r: Option<bool>)
    ensures
        r == parse_bool_token_of(raw@),
{
    let n = raw.unicode_len();
    proof {
        assert(raw@.subrange(0, n as int) =~= raw@);
    }
    let (a, b) = trim_window(raw, 0, n);
    if window_lower_eq(raw, a, b, "1") || window_lower_eq(raw, a, b, "y") || window_lower_eq(
        raw,
        a,
        b,
        "yes",
    ) || window_lower_eq(raw, a, b, "true") || window_lower_eq(raw, a, b, "on") {
        Some(true)
    } else if window_lower_eq(raw, a, b, "0") || window_lower_eq(raw, a, b, "n")
        || window_lower_eq(raw, a, b, "no") || window_lower_eq(raw, a, b, "false")
        || window_lower_eq(raw, a, b, "off") {
        Some(false)
    } else {
        None
    }
}

} // verus!
