//! The edit overlay: the pending replacements and removals that lie over
//! the buffer until it is saved.

use vstd::prelude::*;
use crate::pattern::{lemma_nearest_result, nearer, nearest, nearest_result};
use crate::state::{Direction, TermState, TermStateView};

verus! {

broadcast use vstd::std_specs::hash::group_hash_axioms;

/// The state after byte `index` is replaced by `value`: the value is in the
/// buffer and the index is marked changed.
pub open spec fn mark_changed_view(v: TermStateView, index: usize, value: u8) -> TermStateView {
    TermStateView { bytes: v.bytes.update(index as int, value), changed: v.changed.insert(index), ..v }
}

/// The state after the removal mark of byte `index` is toggled: a removed
/// byte is live again; a live byte is marked removed and loses its changed
/// mark, since a byte is either replaced or removed.
pub open spec fn toggle_removed_view(v: TermStateView, index: usize) -> TermStateView {
    if v.removed.contains(index) {
        TermStateView { removed: v.removed.remove(index), ..v }
    } else {
        TermStateView { removed: v.removed.insert(index), changed: v.changed.remove(index), ..v }
    }
}

/// The bytes whose index is not in `removed`, in their order.
pub open spec fn compact(bytes: Seq<u8>, removed: Set<usize>) -> Seq<u8>
    decreases bytes.len(),
{
    if bytes.len() == 0 {
        Seq::empty()
    } else {
        let rest = compact(bytes.drop_last(), removed);
        if removed.contains((bytes.len() - 1) as usize) {
            rest
        } else {
            rest.push(bytes.last())
        }
    }
}

/// How many of the indices below `bound` are not in `removed`.
pub open spec fn kept_below(bound: nat, removed: Set<usize>) -> nat
    decreases bound,
{
    if bound == 0 {
        0
    } else {
        kept_below((bound - 1) as nat, removed) + if removed.contains((bound - 1) as usize) {
            0nat
        } else {
            1nat
        }
    }
}

/// The state after a save whose write succeeded: the buffer is compacted
/// and the overlay is empty.
pub open spec fn committed_view(v: TermStateView) -> TermStateView {
    TermStateView {
        bytes: compact(v.bytes, v.removed),
        removed: Set::empty(),
        changed: Set::empty(),
        ..v
    }
}

/// Replaces byte `index` by `value` and marks the index changed.
pub fn mark_changed(state: &mut TermState, index: usize, value: u8)
    requires
        index < old(state).bytes.len(),
    ensures
        final(state)@ == mark_changed_view(old(state)@, index, value),
        final(state)@.bytes[index as int] == value,
        final(state)@.changed.contains(index),
        final(state).found_sequences == old(state).found_sequences,
{
    state.bytes.set(index, value);
    state.bytes_changed.insert(index);
}

/// Toggles the removal mark of byte `index`.
pub fn toggle_removed(state: &mut TermState, index: usize)
    ensures
        final(state)@ == toggle_removed_view(old(state)@, index),
        final(state).found_sequences == old(state).found_sequences,
{
    if state.bytes_removed.contains(&index) {
        state.bytes_removed.remove(&index);
    } else {
        state.bytes_changed.remove(&index);
        state.bytes_removed.insert(index);
    }
}

/// The buffer as a save writes it: without the bytes marked removed.
pub fn commit(state: &TermState) -> (compacted: Vec<u8>)
    ensures
        compacted@ == compact(state@.bytes, state@.removed),
{
    let mut bytes_copy: Vec<u8> = Vec::with_capacity(state.bytes.len());
    let mut i: usize = 0;
    while i < state.bytes.len()
        invariant
            i <= state.bytes.len(),
            bytes_copy@ == compact(state.bytes@.take(i as int), state.bytes_removed@),
        decreases state.bytes.len() - i,
    {
        proof {
            assert(state.bytes@.take(i + 1).drop_last() =~= state.bytes@.take(i as int));
        }
        if !state.bytes_removed.contains(&i) {
            bytes_copy.push(state.bytes[i]);
        }
        i += 1;
    }
    proof {
        assert(state.bytes@.take(i as int) =~= state.bytes@);
    }
    bytes_copy
}

/// Makes the compacted buffer the buffer and empties the overlay, as after
/// a save whose write succeeded.
pub fn apply_commit(state: &mut TermState)
    ensures
        final(state)@ == committed_view(old(state)@),
        final(state).found_sequences == old(state).found_sequences,
{
    let compacted = commit(state);
    state.bytes = compacted;
    state.bytes_removed.clear();
    state.bytes_changed.clear();
}

/// The changed or removed index nearest to `pos` among those strictly on
/// the `direction` side of it, if there is one.
pub fn get_index_of_closest_change(pos: usize, state: &TermState, direction: Direction) -> (r: Option<
    usize,
>)
    ensures
        nearest_result(state@.changed.union(state@.removed), pos, direction, r),
        r == nearest(state@.changed.union(state@.removed), pos, direction),
{
    let mut closest_changed_index: Option<usize> = None;
    let ghost mut seen: Set<usize> = Set::empty();
    for i in it: state.bytes_changed.iter()
        invariant
            it.seq().unref().to_set() == state.bytes_changed@,
            seen == Set::new(|s: usize| exists|k: int| 0 <= k < it.index() && *it.seq()[k] == s),
            it.index() == it.seq().len() ==> seen == state.bytes_changed@,
            nearest_result(seen, pos, direction, closest_changed_index),
    {
        closest_changed_index = nearer(closest_changed_index, *i, pos, direction);
        proof {
            assert(*it.seq()[it.index()] == *i);
            let next = seen.insert(*i);
            assert(Set::new(|s: usize| exists|k: int| 0 <= k < it.index() + 1 && *it.seq()[k] == s)
                =~= next);
            if it.index() + 1 == it.seq().len() {
                let all = it.seq().unref();
                assert forall|s: usize| next.contains(s) implies all.to_set().contains(s) by {
                    let k = choose|k: int| 0 <= k < it.index() + 1 && *it.seq()[k] == s;
                    assert(all[k] == s);
                }
                assert forall|s: usize| all.to_set().contains(s) implies next.contains(s) by {
                    let k = choose|k: int| 0 <= k < all.len() && all[k] == s;
                    assert(*it.seq()[k] == s);
                }
                assert(next =~= all.to_set());
            }
            seen = next;
        }
    }
    let ghost changed = seen;
    for i in it: state.bytes_removed.iter()
        invariant
            changed == state.bytes_changed@,
            it.seq().unref().to_set() == state.bytes_removed@,
            seen == changed.union(
                Set::new(|s: usize| exists|k: int| 0 <= k < it.index() && *it.seq()[k] == s),
            ),
            it.index() == it.seq().len() ==> seen == changed.union(state.bytes_removed@),
            nearest_result(seen, pos, direction, closest_changed_index),
    {
        closest_changed_index = nearer(closest_changed_index, *i, pos, direction);
        proof {
            assert(*it.seq()[it.index()] == *i);
            let next = seen.insert(*i);
            let upto = Set::new(
                |s: usize| exists|k: int| 0 <= k < it.index() + 1 && *it.seq()[k] == s,
            );
            assert(changed.union(upto) =~= next);
            if it.index() + 1 == it.seq().len() {
                let all = it.seq().unref();
                assert forall|s: usize| upto.contains(s) implies all.to_set().contains(s) by {
                    let k = choose|k: int| 0 <= k < it.index() + 1 && *it.seq()[k] == s;
                    assert(all[k] == s);
                }
                assert forall|s: usize| all.to_set().contains(s) implies upto.contains(s) by {
                    let k = choose|k: int| 0 <= k < all.len() && all[k] == s;
                    assert(*it.seq()[k] == s);
                }
                assert(upto =~= all.to_set());
            }
            seen = next;
        }
    }
    proof {
        lemma_nearest_result(
            state@.changed.union(state@.removed),
            pos,
            direction,
            closest_changed_index,
        );
    }
    closest_changed_index
}

/// Toggling the removal mark of an index twice changes nothing, where the
/// index has no pending replacement.
pub proof fn lemma_toggle_removed_twice(v: TermStateView, index: usize)
    requires
        !v.changed.contains(index),
    ensures
        toggle_removed_view(toggle_removed_view(v, index), index) == v,
{
    let once = toggle_removed_view(v, index);
    let twice = toggle_removed_view(once, index);
    assert(twice.removed =~= v.removed);
    assert(twice.changed =~= v.changed);
}

/// After a toggle that marks an index removed, the index is not marked
/// changed: no index is both.
pub proof fn lemma_removal_wins(v: TermStateView, index: usize)
    requires
        !v.removed.contains(index),
    ensures
        toggle_removed_view(v, index).removed.contains(index),
        !toggle_removed_view(v, index).changed.contains(index),
{
}

/// The compacted buffer has one byte for each index that is kept, and the
/// byte of a kept index stands where as many bytes precede it as kept
/// indices precede the index.
pub proof fn lemma_compact_keeps(bytes: Seq<u8>, removed: Set<usize>, index: int)
    requires
        0 <= index < bytes.len(),
        !removed.contains(index as usize),
    ensures
        compact(bytes, removed).len() == kept_below(bytes.len(), removed),
        kept_below(index as nat, removed) < compact(bytes, removed).len(),
        compact(bytes, removed)[kept_below(index as nat, removed) as int] == bytes[index],
    decreases bytes.len(),
{
    lemma_compact_len(bytes, removed);
    let rest = bytes.drop_last();
    lemma_compact_len(rest, removed);
    if index < bytes.len() - 1 {
        lemma_compact_keeps(rest, removed, index);
    }
}

/// The compacted buffer has one byte for each index that is kept.
pub proof fn lemma_compact_len(bytes: Seq<u8>, removed: Set<usize>)
    ensures
        compact(bytes, removed).len() == kept_below(bytes.len(), removed),
        compact(bytes, removed).len() <= bytes.len(),
    decreases bytes.len(),
{
    if bytes.len() > 0 {
        lemma_compact_len(bytes.drop_last(), removed);
    }
}

} // verus!
