//! Fuzzy matching of window names: a case-insensitive edit distance, and
//! the choice of the best match among the windows of a tree.
use vstd::prelude::*;
use vstd::std_specs::iter::IteratorSpec;

verus! {

/// The smallest of three numbers.
pub open spec fn min3(a: nat, b: nat, c: nat) -> nat {
    if a <= b && a <= c {
        a
    } else if b <= c {
        b
    } else {
        c
    }
}

/// The Levenshtein distance: the fewest single-character insertions,
/// deletions and substitutions that turn `a` into `b`.
pub open spec fn edit_distance(a: Seq<char>, b: Seq<char>) -> nat
    decreases a.len() + b.len(),
{
    if a.len() == 0 {
        b.len()
    } else if b.len() == 0 {
        a.len()
    } else {
        min3(
            edit_distance(a.drop_last(), b) + 1,
            edit_distance(a, b.drop_last()) + 1,
            edit_distance(a.drop_last(), b.drop_last()) + if a.last() == b.last() {
                0nat
            } else {
                1nat
            },
        )
    }
}

/// What `str::to_lowercase` makes of a string.
pub uninterp spec fn lower_of(s: Seq<char>) -> Seq<char>;

/// Relies on `str::to_lowercase`: the result depends on the characters
/// alone.
#[verifier::external_body]
fn lowercase(s: &str) -> (r: String)
    ensures
        r@ == lower_of(s@),
{
    s.to_lowercase()
}

/// The characters of a string, in order.
pub fn chars_of(s: &str) -> (r: Vec<char>)
    ensures
        r@ == s@,
{
    broadcast use vstd::string::axiom_spec_iter, vstd::string::next_postcondition;

    let mut it = s.chars();
    let mut out: Vec<char> = Vec::new();
    loop
        invariant
            it.obeys_prophetic_iter_laws(),
            it.decrease() is Some,
            out@ + it.remaining() == s@,
        decreases it.decrease()->0,
    {
        let ghost before = it.remaining();
        match it.next() {
            Some(c) => {
                out.push(c);
                assert(out@ + it.remaining() =~= s@) by {
                    assert(before =~= seq![c] + before.drop_first());
                }
            },
            None => {
                assert(out@ =~= s@);
                return out;
            },
        }
    }
}

/// `x + 1`, or `usize::MAX` where that does not fit.
fn saturating_inc(x: usize) -> (r: usize)
    ensures
        r == if x < usize::MAX {
            x + 1
        } else {
            x as int
        },
{
    if x < usize::MAX {
        x + 1
    } else {
        x
    }
}

/// The Levenshtein distance between two strings, counted in characters.
pub fn levenshtein_distance(a: &str, b: &str) -> (r: usize)
    ensures
        r == edit_distance(a@, b@),
{
    let av = chars_of(a);
    let bv = chars_of(b);
    let n = av.len();
    let m = bv.len();
    let ghost sa = a@;
    let ghost sb = b@;
    // prev[j] is the distance between the first i characters of a and the
    // first j of b.
    let mut prev: Vec<usize> = Vec::new();
    proof {
        assert(sa.subrange(0, 0).len() == 0);
    }
    prev.push(0);
    let mut j: usize = 0;
    while j < m
        invariant
            m == sb.len(),
            bv@ == sb,
            0 <= j <= m,
            prev@.len() == j + 1,
            forall|k: int| 0 <= k <= j ==> prev@[k] == edit_distance(sa.subrange(0, 0), sb.subrange(0, k)),
            forall|k: int| 0 <= k <= j ==> prev@[k] == k,
        decreases m - j,
    {
        proof {
            assert(sa.subrange(0, 0).len() == 0);
        }
        prev.push(j + 1);
        j += 1;
    }
    let mut i: usize = 0;
    while i < n
        invariant
            n == sa.len(),
            m == sb.len(),
            av@ == sa,
            bv@ == sb,
            0 <= i <= n,
            prev@.len() == m + 1,
            forall|k: int|
                0 <= k <= m ==> prev@[k] == edit_distance(sa.subrange(0, i as int), sb.subrange(0, k)),
            forall|k: int| 0 <= k <= m ==> prev@[k] <= i || prev@[k] <= k,
        decreases n - i,
    {
        let ghost ai = sa.subrange(0, i as int);
        let ghost ai1 = sa.subrange(0, i as int + 1);
        proof {
            assert(ai1.drop_last() =~= ai);
            assert(ai1.last() == sa[i as int]);
            assert(sb.subrange(0, 0).len() == 0);
        }
        let mut cur: Vec<usize> = Vec::new();
        cur.push(i + 1);
        let ca = av[i];
        let mut j: usize = 0;
        while j < m
            invariant
                n == sa.len(),
                m == sb.len(),
                av@ == sa,
                bv@ == sb,
                0 <= i < n,
                ca == sa[i as int],
                ai == sa.subrange(0, i as int),
                ai1 == sa.subrange(0, i as int + 1),
                ai1.drop_last() == ai,
                ai1.last() == sa[i as int],
                prev@.len() == m + 1,
                forall|k: int| 0 <= k <= m ==> prev@[k] == edit_distance(ai, sb.subrange(0, k)),
                forall|k: int| 0 <= k <= m ==> prev@[k] <= i || prev@[k] <= k,
                0 <= j <= m,
                cur@.len() == j + 1,
                forall|k: int| 0 <= k <= j ==> cur@[k] == edit_distance(ai1, sb.subrange(0, k)),
                forall|k: int| 0 <= k <= j ==> cur@[k] <= i + 1 || cur@[k] <= k,
            decreases m - j,
        {
            let cost: usize = if ca == bv[j] {
                0
            } else {
                1
            };
            let del = saturating_inc(prev[j + 1]);
            let ins = saturating_inc(cur[j]);
            let sub = prev[j] + cost;
            let mut best = del;
            if ins < best {
                best = ins;
            }
            if sub < best {
                best = sub;
            }
            proof {
                let bj1 = sb.subrange(0, j as int + 1);
                assert(bj1.drop_last() =~= sb.subrange(0, j as int));
                assert(bj1.last() == sb[j as int]);
                assert(ai1.len() > 0 && bj1.len() > 0);
            }
            cur.push(best);
            j += 1;
        }
        prev = cur;
        i += 1;
    }
    proof {
        assert(sa.subrange(0, n as int) =~= sa);
        assert(sb.subrange(0, m as int) =~= sb);
    }
    prev[m]
}

/// The Levenshtein distance between two strings after both were lowered
/// in case.
pub fn compute_levensthein_distance_case_insensitive(a: &str, b: &str) -> (r: usize)
    ensures
        r == edit_distance(lower_of(a@), lower_of(b@)),
{
    let a = lowercase(a);
    let b = lowercase(b);
    levenshtein_distance(a.as_str(), b.as_str())
}

/// The best window found so far by a name search.
#[derive(Debug, PartialEq, Eq, Structural, Clone, Copy)]
pub struct BestMatch {
    pub window: u32,
    /// The case-insensitive edit distance of its name to the reference.
    pub distance: usize,
    /// Whether the names are equal up to case; the search then stops.
    pub perfect: bool,
}

/// The best match after considering a window named `name`: a window with
/// an empty name is passed over; one whose name matches the reference up
/// to case is a perfect match; otherwise it replaces the best so far when
/// it is strictly closer, so the first of equally close windows is kept.
pub open spec fn considered(best: Option<BestMatch>, window: u32, name: Seq<char>, reference: Seq<char>) -> Option<BestMatch> {
    let d = edit_distance(lower_of(name), lower_of(reference));
    if name.len() == 0 {
        best
    } else if d == 0 {
        Some(BestMatch { window, distance: 0, perfect: true })
    } else if best is None || d < best->Some_0.distance {
        Some(BestMatch { window, distance: d as usize, perfect: false })
    } else {
        best
    }
}

/// Considers the window `window`, named `name`, as a match for
/// `reference`.
pub fn match_candidate(best: Option<BestMatch>, window: u32, name: &str, reference: &str) -> (r: Option<BestMatch>)
    ensures
        r == considered(best, window, name@, reference@),
{
    if name.is_empty() {
        return best;
    }
    let d = compute_levensthein_distance_case_insensitive(name, reference);
    if d == 0 {
        Some(BestMatch { window, distance: 0, perfect: true })
    } else {
        match best {
            None => Some(BestMatch { window, distance: d, perfect: false }),
            Some(b) => {
                if d < b.distance {
                    Some(BestMatch { window, distance: d, perfect: false })
                } else {
                    best
                }
            },
        }
    }
}

} // verus!
