//! Byte-sequence search: the set of matches of the latest search, the scan
//! that fills it, and the jump to the nearest match.

use vstd::prelude::*;
use std::ops::Range;
use crate::state::{Direction, TermState};

verus! {

/// Whether `pattern` occurs in `text` at `start`.
pub open spec fn matches_at(pattern: Seq<u8>, text: Seq<u8>, start: int) -> bool {
    &&& 0 <= start
    &&& start + pattern.len() <= text.len()
    &&& text.subrange(start, start + pattern.len()) == pattern
}

/// The half-open ranges `(start, end)` of all occurrences of `pattern` in
/// `text`, overlapping ones included.
pub open spec fn all_matches(pattern: Seq<u8>, text: Seq<u8>) -> Set<(int, int)> {
    Set::new(|r: (int, int)| matches_at(pattern, text, r.0) && r.1 == r.0 + pattern.len())
}

/// The occurrences of `pattern` in `text` that start before `bound`.
pub open spec fn matches_before(pattern: Seq<u8>, text: Seq<u8>, bound: int) -> Set<(int, int)> {
    Set::new(
        |r: (int, int)| r.0 < bound && matches_at(pattern, text, r.0) && r.1 == r.0 + pattern.len(),
    )
}

/// Whether the half-open range `r` holds index `i`.
pub open spec fn holds(r: (int, int), i: int) -> bool {
    r.0 <= i < r.1
}

/// Whether some range of `found` holds index `i`.
pub open spec fn covered(found: Set<(int, int)>, i: int) -> bool {
    exists|r: (int, int)| found.contains(r) && holds(r, i)
}

/// Whether index `i` lies strictly on the `direction` side of `pos`.
pub open spec fn beyond(pos: usize, direction: Direction, i: usize) -> bool {
    match direction {
        Direction::Left => i < pos,
        Direction::Right => i > pos,
    }
}

/// The distance between two indices.
pub open spec fn distance(a: usize, b: usize) -> int {
    if a <= b {
        b - a
    } else {
        a - b
    }
}

/// Whether `i` is the candidate nearest to `pos` among those strictly on
/// the `direction` side of it.
pub open spec fn is_nearest(candidates: Set<usize>, pos: usize, direction: Direction, i: usize) -> bool {
    &&& candidates.contains(i)
    &&& beyond(pos, direction, i)
    &&& forall|j: usize|
        candidates.contains(j) && beyond(pos, direction, j) ==> distance(pos, i) <= distance(pos, j)
}

/// What a search for the nearest candidate owes: the nearest one where any
/// lies on that side, and `None` where none does.
pub open spec fn nearest_result(
    candidates: Set<usize>,
    pos: usize,
    direction: Direction,
    r: Option<usize>,
) -> bool {
    match r {
        Some(i) => is_nearest(candidates, pos, direction, i),
        None => forall|j: usize| candidates.contains(j) ==> !beyond(pos, direction, j),
    }
}

/// The candidate nearest to `pos` among those strictly on the `direction`
/// side of it, if there is one.
pub open spec fn nearest(candidates: Set<usize>, pos: usize, direction: Direction) -> Option<usize> {
    if exists|i: usize| is_nearest(candidates, pos, direction, i) {
        Some(choose|i: usize| is_nearest(candidates, pos, direction, i))
    } else {
        None
    }
}

/// A result that meets [`nearest_result`] is the nearest candidate.
pub proof fn lemma_nearest_result(
    candidates: Set<usize>,
    pos: usize,
    direction: Direction,
    r: Option<usize>,
)
    requires
        nearest_result(candidates, pos, direction, r),
    ensures
        r == nearest(candidates, pos, direction),
{
    match r {
        Some(i) => {
            let c = choose|c: usize| is_nearest(candidates, pos, direction, c);
            lemma_nearest_unique(candidates, pos, direction, i, c);
        },
        None => {},
    }
}

/// At most one candidate is the nearest.
pub proof fn lemma_nearest_unique(
    candidates: Set<usize>,
    pos: usize,
    direction: Direction,
    a: usize,
    b: usize,
)
    requires
        is_nearest(candidates, pos, direction, a),
        is_nearest(candidates, pos, direction, b),
    ensures
        a == b,
{
}

/// The better of the best candidate so far and a new one. Where `seen` is
/// the set searched so far, the result answers the search over `seen` with
/// `candidate` added.
pub fn nearer(best: Option<usize>, candidate: usize, pos: usize, direction: Direction) -> (r: Option<
    usize,
>)
    ensures
        forall|seen: Set<usize>|
            nearest_result(seen, pos, direction, best) ==> #[trigger] nearest_result(
                seen.insert(candidate),
                pos,
                direction,
                r,
            ),
{
    let on_side = match direction {
        Direction::Left => candidate < pos,
        Direction::Right => candidate > pos,
    };
    if !on_side {
        return best;
    }
    match best {
        None => Some(candidate),
        Some(b) => {
            let closer = match direction {
                Direction::Left => candidate > b,
                Direction::Right => candidate < b,
            };
            if closer {
                Some(candidate)
            } else {
                Some(b)
            }
        },
    }
}

/// The matches of one search: a set of half-open byte ranges.
pub struct MatchSet {
    ranges: Vec<Range<usize>>,
}

/// A range as a pair of integers.
pub open spec fn range_pair(r: Range<usize>) -> (int, int) {
    (r.start as int, r.end as int)
}

impl View for MatchSet {
    type V = Set<(int, int)>;

    closed spec fn view(&self) -> Set<(int, int)> {
        self.ranges@.map_values(|r: Range<usize>| range_pair(r)).to_set()
    }
}

impl MatchSet {
    /// No range is held twice.
    pub closed spec fn wf(&self) -> bool {
        self.ranges@.map_values(|r: Range<usize>| range_pair(r)).no_duplicates()
    }

    /// The starts of the ranges in the set.
    pub open spec fn starts(&self) -> Set<usize> {
        Set::new(|s: usize| exists|e: int| self@.contains((s as int, e)))
    }

    /// The empty set.
    pub fn new() -> (m: MatchSet)
        ensures
            m.wf(),
            m@ == Set::<(int, int)>::empty(),
    {
        let m = MatchSet { ranges: Vec::new() };
        assert(m.ranges@.map_values(|r: Range<usize>| range_pair(r)) =~= Seq::empty());
        assert(m@ =~= Set::<(int, int)>::empty());
        m
    }

    /// The number of ranges in the set.
    pub fn len(&self) -> (n: usize)
        requires
            self.wf(),
        ensures
            n == self@.len(),
            self@.finite(),
    {
        proof {
            self.ranges@.map_values(|r: Range<usize>| range_pair(r)).unique_seq_to_set();
        }
        self.ranges.len()
    }

    /// Whether the set holds `range`.
    pub fn contains(&self, range: &Range<usize>) -> (found: bool)
        ensures
            found == self@.contains(range_pair(*range)),
    {
        let ghost pairs = self.ranges@.map_values(|r: Range<usize>| range_pair(r));
        let mut i: usize = 0;
        while i < self.ranges.len()
            invariant
                i <= self.ranges.len(),
                pairs == self.ranges@.map_values(|r: Range<usize>| range_pair(r)),
                forall|k: int| 0 <= k < i ==> pairs[k] != range_pair(*range),
            decreases self.ranges.len() - i,
        {
            if self.ranges[i].start == range.start && self.ranges[i].end == range.end {
                assert(pairs[i as int] == range_pair(*range));
                return true;
            }
            i += 1;
        }
        false
    }

    /// Adds `range`; says whether it was new.
    pub fn insert(&mut self, range: Range<usize>) -> (added: bool)
        requires
            old(self).wf(),
        ensures
            final(self).wf(),
            final(self)@ == old(self)@.insert(range_pair(range)),
            added == !old(self)@.contains(range_pair(range)),
    {
        if self.contains(&range) {
            assert(self@.insert(range_pair(range)) =~= self@);
            false
        } else {
            self.push_new(range);
            true
        }
    }

    /// Adds a range that the set does not hold yet.
    fn push_new(&mut self, range: Range<usize>)
        requires
            old(self).wf(),
            !old(self)@.contains(range_pair(range)),
        ensures
            final(self).wf(),
            final(self)@ == old(self)@.insert(range_pair(range)),
    {
        let ghost before = self.ranges@.map_values(|r: Range<usize>| range_pair(r));
        self.ranges.push(range);
        proof {
            let after = self.ranges@.map_values(|r: Range<usize>| range_pair(r));
            assert(after =~= before.push(range_pair(range)));
            assert(after.no_duplicates()) by {
                assert forall|i: int, j: int|
                    0 <= i < after.len() && 0 <= j < after.len() && i != j implies after[i]
                    != after[j] by {
                    if i < before.len() && j < before.len() {
                        assert(before[i] != before[j]);
                    } else if i < before.len() {
                        assert(before.contains(before[i]));
                    } else {
                        assert(before.contains(before[j]));
                    }
                }
            }
            assert(after.to_set() =~= before.to_set().insert(range_pair(range))) by {
                assert forall|p: (int, int)| after.to_set().contains(p) implies before.to_set().insert(
                    range_pair(range),
                ).contains(p) by {
                    let i = choose|i: int| 0 <= i < after.len() && after[i] == p;
                    if i < before.len() {
                        assert(before[i] == p);
                    }
                }
                assert forall|p: (int, int)|
                    before.to_set().insert(range_pair(range)).contains(p) implies after.to_set().contains(
                    p,
                ) by {
                    if p == range_pair(range) {
                        assert(after[before.len() as int] == p);
                    } else {
                        let i = choose|i: int| 0 <= i < before.len() && before[i] == p;
                        assert(after[i] == p);
                    }
                }
            }
        }
    }

    /// Empties the set.
    pub fn clear(&mut self)
        ensures
            final(self).wf(),
            final(self)@ == Set::<(int, int)>::empty(),
    {
        self.ranges.clear();
        proof {
            assert(self.ranges@.map_values(|r: Range<usize>| range_pair(r)) =~= Seq::empty());
            assert(self@ =~= Set::<(int, int)>::empty());
        }
    }

    /// The ranges of the set, each once, in no particular order.
    pub fn to_vec(&self) -> (v: Vec<Range<usize>>)
        requires
            self.wf(),
        ensures
            v@.map_values(|r: Range<usize>| range_pair(r)).to_set() == self@,
            v@.map_values(|r: Range<usize>| range_pair(r)).no_duplicates(),
    {
        let mut v: Vec<Range<usize>> = Vec::new();
        let mut i: usize = 0;
        while i < self.ranges.len()
            invariant
                i <= self.ranges.len(),
                v@ == self.ranges@.take(i as int),
            decreases self.ranges.len() - i,
        {
            v.push(self.ranges[i].start..self.ranges[i].end);
            assert(v@ =~= self.ranges@.take(i + 1));
            i += 1;
        }
        assert(v@ =~= self.ranges@);
        v
    }

    /// Whether some range of the set holds index `i`.
    pub fn covers(&self, i: usize) -> (inside: bool)
        ensures
            inside == covered(self@, i as int),
    {
        let ghost pairs = self.ranges@.map_values(|r: Range<usize>| range_pair(r));
        let mut k: usize = 0;
        while k < self.ranges.len()
            invariant
                k <= self.ranges.len(),
                pairs == self.ranges@.map_values(|r: Range<usize>| range_pair(r)),
                forall|j: int| 0 <= j < k ==> !holds(#[trigger] pairs[j], i as int),
            decreases self.ranges.len() - k,
        {
            if self.ranges[k].start <= i && i < self.ranges[k].end {
                assert(pairs.contains(pairs[k as int]));
                assert(self@.contains(pairs[k as int]) && holds(pairs[k as int], i as int));
                return true;
            }
            k += 1;
        }
        proof {
            if covered(self@, i as int) {
                let r = choose|r: (int, int)| self@.contains(r) && holds(r, i as int);
                let j = choose|j: int| 0 <= j < pairs.len() && pairs[j] == r;
                assert(!holds(pairs[j], i as int));
            }
        }
        false
    }

    /// The start of the range that begins nearest to `pos` among those that
    /// begin strictly on the `direction` side of it.
    pub fn nearest_start(&self, pos: usize, direction: Direction) -> (r: Option<usize>)
        ensures
            nearest_result(self.starts(), pos, direction, r),
    {
        let ghost pairs = self.ranges@.map_values(|r: Range<usize>| range_pair(r));
        let mut best: Option<usize> = None;
        let mut i: usize = 0;
        let ghost mut seen: Set<usize> = Set::empty();
        while i < self.ranges.len()
            invariant
                i <= self.ranges.len(),
                pairs == self.ranges@.map_values(|r: Range<usize>| range_pair(r)),
                seen == Set::new(|s: usize| exists|k: int| 0 <= k < i && pairs[k].0 == s),
                nearest_result(seen, pos, direction, best),
            decreases self.ranges.len() - i,
        {
            let start = self.ranges[i].start;
            best = nearer(best, start, pos, direction);
            proof {
                let next = Set::new(|s: usize| exists|k: int| 0 <= k < i + 1 && pairs[k].0 == s);
                assert(pairs[i as int].0 == start);
                assert(next =~= seen.insert(start));
                seen = next;
            }
            i += 1;
        }
        proof {
            assert(seen =~= self.starts()) by {
                assert forall|s: usize| seen.contains(s) implies self.starts().contains(s) by {
                    let k = choose|k: int| 0 <= k < i && pairs[k].0 == s;
                    assert(pairs.contains(pairs[k]));
                    assert(self@.contains((s as int, pairs[k].1)));
                }
                assert forall|s: usize| self.starts().contains(s) implies seen.contains(s) by {
                    let e = choose|e: int| self@.contains((s as int, e));
                    let k = choose|k: int| 0 <= k < pairs.len() && pairs[k] == (s as int, e);
                    assert(pairs[k].0 == s);
                }
            }
        }
        best
    }
}

/// Finds every occurrence of `pattern` in `text` by a plain scan: at each
/// start position the bytes are compared one by one, and after a match the
/// scan goes on from the next position, so overlapping matches are found.
pub fn naive_search(pattern: &Vec<u8>, text: &Vec<u8>) -> (sequences: MatchSet)
    requires
        pattern.len() >= 1,
    ensures
        sequences.wf(),
        sequences@ == all_matches(pattern@, text@),
{
    let mut i: usize = 0;
    let mut j: usize = 0;
    let mut sequences = MatchSet::new();
    assert(sequences@ =~= matches_before(pattern@, text@, 0));
    loop
        invariant_except_break
            i <= pattern.len(),
            j + i <= text.len(),
            forall|k: int| 0 <= k < i ==> text[j + k] == pattern[k],
            sequences@ == matches_before(pattern@, text@, j as int),
        invariant
            pattern.len() >= 1,
            sequences.wf(),
        ensures
            sequences@ == all_matches(pattern@, text@),
        decreases text.len() - j, pattern.len() - i,
    {
        if i == pattern.len() {
            proof {
                assert(text@.subrange(j as int, j + i) =~= pattern@);
                assert(matches_at(pattern@, text@, j as int));
                assert(!matches_before(pattern@, text@, j as int).contains((j as int, j + i)));
                assert(matches_before(pattern@, text@, j + 1) =~= matches_before(
                    pattern@,
                    text@,
                    j as int,
                ).insert((j as int, j + i)));
            }
            sequences.push_new(j..j + i);
            i = 0;
            j += 1;
        }
        if j >= text.len() || i + j >= text.len() {
            proof {
                assert forall|r: (int, int)| all_matches(pattern@, text@).contains(r) implies r.0
                    < j by {
                    if r.0 == j {
                        assert(i < pattern.len());
                    }
                }
                assert(sequences@ =~= all_matches(pattern@, text@));
            }
            break;
        }
        if text[j + i] == pattern[i] {
            i += 1;
        } else {
            proof {
                assert(!matches_at(pattern@, text@, j as int)) by {
                    if matches_at(pattern@, text@, j as int) {
                        assert(text@.subrange(j as int, j + pattern.len())[i as int] == pattern@[i as int]);
                    }
                }
                assert(matches_before(pattern@, text@, j + 1) =~= matches_before(
                    pattern@,
                    text@,
                    j as int,
                ));
            }
            i = 0;
            j += 1;
        }
    }
    sequences
}

/// The start of the match nearest to `pos` among the matches that start
/// strictly on the `direction` side of it, if there is one.
pub fn get_index_of_closest_found(pos: usize, state: &TermState, direction: Direction) -> (r: Option<
    usize,
>)
    ensures
        nearest_result(found_starts(state@.found), pos, direction, r),
        r == nearest(found_starts(state@.found), pos, direction),
{
    let r = state.found_sequences.nearest_start(pos, direction);
    proof {
        assert(state.found_sequences.starts() =~= found_starts(state@.found));
        lemma_nearest_result(found_starts(state@.found), pos, direction, r);
    }
    r
}

/// The starts of a set of ranges.
pub open spec fn found_starts(found: Set<(int, int)>) -> Set<usize> {
    Set::new(|s: usize| exists|e: int| found.contains((s as int, e)))
}

} // verus!
