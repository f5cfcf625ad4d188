//! Repetition collapse: detecting an accidentally duplicated leading phrase
//! and keeping only its last occurrence onward.

use vstd::prelude::*;

verus! {

/// `p` is a prefix of `s`.
pub open spec fn is_prefix_of(p: Seq<char>, s: Seq<char>) -> bool {
    p.len() <= s.len() && s.take(p.len() as int) == p
}

/// The leading segment of length `idx` appears a second time immediately
/// after itself: `s[idx..]` begins with `s[..idx]`.
pub open spec fn rep_at(s: Seq<char>, idx: int) -> bool {
    1 <= idx < s.len() && is_prefix_of(s.take(idx), s.skip(idx))
}

/// Some leading segment of `s` is immediately duplicated.
pub open spec fn has_rep(s: Seq<char>) -> bool {
    exists|idx: int| rep_at(s, idx)
}

/// `idx` is the least position at which the leading segment duplicates:
/// the shortest repeated leading phrase has length `idx`.
pub open spec fn is_shortest_rep(s: Seq<char>, idx: int) -> bool {
    rep_at(s, idx) && forall|j: int| 1 <= j < idx ==> !rep_at(s, j)
}

/// A copy of `pred` begins at position `r` of `s` (positions start at 1 here:
/// position 0 trivially carries the leading copy itself).
pub open spec fn occurs_at(s: Seq<char>, pred: Seq<char>, r: int) -> bool {
    1 <= r < s.len() && is_prefix_of(pred, s.skip(r))
}

/// `r` is the last position of `s` at which a copy of `pred` begins.
pub open spec fn is_last_occurrence(s: Seq<char>, pred: Seq<char>, r: int) -> bool {
    occurs_at(s, pred, r) && forall|j: int| r < j < s.len() ==> !occurs_at(s, pred, j)
}

/// The repetition-collapse result: if some leading segment of `s` is
/// immediately duplicated, take the shortest such segment, find the last
/// position where a copy of it begins, and keep the text from there on;
/// otherwise nothing is collapsed.
pub open spec fn collapse_spec(s: Seq<char>) -> Option<Seq<char>> {
    if has_rep(s) {
        let idx = choose|idx: int| is_shortest_rep(s, idx);
        let r = choose|r: int| is_last_occurrence(s, s.take(idx), r);
        Some(s.skip(r))
    } else {
        None
    }
}

/// The least duplication position is unique.
proof fn lemma_shortest_rep_unique(s: Seq<char>, i: int, j: int)
    requires
        is_shortest_rep(s, i),
        is_shortest_rep(s, j),
    ensures
        i == j,
{
    if i < j {
        assert(!rep_at(s, i));
    } else if j < i {
        assert(!rep_at(s, j));
    }
}

/// The last occurrence position is unique.
proof fn lemma_last_occurrence_unique(s: Seq<char>, pred: Seq<char>, i: int, j: int)
    requires
        is_last_occurrence(s, pred, i),
        is_last_occurrence(s, pred, j),
    ensures
        i == j,
{
    if i < j {
        assert(!occurs_at(s, pred, j));
    } else if j < i {
        assert(!occurs_at(s, pred, i));
    }
}

/// Does a copy of the leading segment `s[..plen]` begin at `start`?
fn prefix_matches(chars: &Vec<char>, start: usize, plen: usize) -> (r: bool)
    requires
        1 <= start < chars@.len(),
        1 <= plen <= chars@.len(),
    ensures
        r == occurs_at(chars@, chars@.take(plen as int), start as int),
{
    let n = chars.len();
    if plen > n - start {
        assert(!is_prefix_of(chars@.take(plen as int), chars@.skip(start as int)));
        return false;
    }
    let mut k: usize = 0;
    while k < plen
        invariant
            n == chars@.len(),
            1 <= start < chars@.len(),
            plen <= chars@.len() - start,
            k <= plen,
            forall|m: int| 0 <= m < k ==> chars@[start + m] == #[trigger] chars@[m],
        decreases plen - k,
    {
        if chars[start + k] != chars[k] {
            assert(chars@.skip(start as int)[k as int] != chars@.take(plen as int)[k as int]);
            assert(!is_prefix_of(chars@.take(plen as int), chars@.skip(start as int)));
            return false;
        }
        k += 1;
    }
    proof {
        let s = chars@;
        assert forall|m: int| 0 <= m < plen implies s.skip(start as int).take(plen as int)[m] == s.take(
            plen as int,
        )[m] by {
            assert(s.skip(start as int)[m] == s[start + m]);
        }
        assert(s.skip(start as int).take(plen as int) =~= s.take(plen as int));
    }
    true
}

/// Collapses an accidentally duplicated leading phrase of `text`.
///
/// Scans for the shortest leading segment that repeats immediately after
/// itself; if one exists, returns the text from the last occurrence of that
/// segment to the end, discarding every earlier copy. Returns `None` when no
/// leading segment is duplicated (in particular on empty and one-character
/// input).
pub fn collapse_repetition(text: &str) -> (r: Option<String>)
    ensures
        match r {
            None => collapse_spec(text@) is None,
            Some(out) => collapse_spec(text@) == Some(out@) && out@ != text@,
        },
        r is None <==> !has_rep(text@),
{
    let n = text.unicode_len();
    let mut chars: Vec<char> = Vec::new();
    let mut i: usize = 0;
    while i < n
        invariant
            n == text@.len(),
            i <= n,
            chars@ == text@.take(i as int),
        decreases n - i,
    {
        chars.push(text.get_char(i));
        assert(chars@ =~= text@.take(i + 1));
        i += 1;
    }
    assert(chars@ =~= text@);

    let mut idx: usize = 1;
    while idx < n
        invariant
            n == text@.len(),
            chars@ == text@,
            1 <= idx,
            forall|j: int| 1 <= j < idx ==> !rep_at(text@, j),
        decreases n - idx,
    {
        if prefix_matches(&chars, idx, idx) {
            proof {
                assert(rep_at(text@, idx as int));
                assert(is_shortest_rep(text@, idx as int));
            }
            let ghost pred = text@.take(idx as int);
            let mut r_idx: usize = n - 1;
            loop
                invariant
                    n == text@.len(),
                    chars@ == text@,
                    is_shortest_rep(text@, idx as int),
                    pred == text@.take(idx as int),
                    idx <= r_idx < n,
                    forall|j: int| r_idx < j < n ==> !occurs_at(text@, pred, j),
                decreases r_idx,
            {
                if prefix_matches(&chars, r_idx, idx) {
                    proof {
                        assert(is_last_occurrence(text@, pred, r_idx as int));
                        let ci = choose|c: int| is_shortest_rep(text@, c);
                        lemma_shortest_rep_unique(text@, ci, idx as int);
                        let cr = choose|c: int| is_last_occurrence(text@, pred, c);
                        lemma_last_occurrence_unique(text@, pred, cr, r_idx as int);
                        assert(collapse_spec(text@) == Some(text@.skip(r_idx as int)));
                    }
                    let out = text.substring_char(r_idx, n).to_owned();
                    proof {
                        assert(out@ =~= text@.skip(r_idx as int));
                        // The result is strictly shorter than the input.
                        assert(out@.len() < text@.len());
                    }
                    return Some(out);
                }
                proof {
                    // Position `idx` itself carries a copy of `pred`, so the
                    // scan cannot pass below it without having matched.
                    assert(occurs_at(text@, pred, idx as int));
                    assert(r_idx != idx);
                }
                r_idx -= 1;
            }
        }
        idx += 1;
    }
    proof {
        if has_rep(text@) {
            let w = choose|j: int| rep_at(text@, j);
            assert(!rep_at(text@, w));
        }
    }
    None
}

} // verus!
