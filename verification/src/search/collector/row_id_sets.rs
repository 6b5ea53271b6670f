//! The compressed row-id sets of the `roaring` crate, as seen by the verifier.
//!
//! Both set types are opaque to the verifier. What a set holds is named by
//! [`bitmap_members`] and [`treemap_members`]; the specifications below state
//! what the methods used by this crate do to those members. None of them is
//! proved: they restate the documentation of `roaring`.

use roaring::RoaringBitmap;
use roaring::RoaringTreemap;
use vstd::prelude::*;

verus! {

/// The set of 32-bit integers of `roaring`, opaque to the verifier.
#[verifier::external_type_specification]
#[verifier::external_body]
pub struct ExRoaringBitmap(RoaringBitmap);

/// The set of 64-bit integers of `roaring`, opaque to the verifier.
#[verifier::external_type_specification]
#[verifier::external_body]
pub struct ExRoaringTreemap(RoaringTreemap);

/// The 32-bit row ids that a `RoaringBitmap` holds.
pub uninterp spec fn bitmap_members(set: RoaringBitmap) -> Set<u32>;

/// The 64-bit row ids that a `RoaringTreemap` holds.
pub uninterp spec fn treemap_members(set: RoaringTreemap) -> Set<u64>;

/// `RoaringBitmap::new` creates an empty set.
pub assume_specification[ RoaringBitmap::new ]() -> (set: RoaringBitmap)
    ensures
        bitmap_members(set) == Set::<u32>::empty(),
;

/// `RoaringBitmap::insert` adds `value` to the set and nothing else; it
/// returns `true` if the value was not already present.
pub assume_specification[ RoaringBitmap::insert ](set: &mut RoaringBitmap, value: u32) -> (added:
    bool)
    ensures
        bitmap_members(*final(set)) == bitmap_members(*old(set)).insert(value),
        added == !bitmap_members(*old(set)).contains(value),
;

/// `RoaringBitmap::contains` returns `true` if the set holds `value`.
pub assume_specification[ RoaringBitmap::contains ](set: &RoaringBitmap, value: u32) -> (found:
    bool)
    ensures
        found == bitmap_members(*set).contains(value),
;

/// Adds to `into` the members of `other`, with `RoaringBitmap`'s `|=`, the
/// union of two sets: afterwards `into` holds what either held.
#[verifier::external_body]
pub(crate) fn unite(into: &mut RoaringBitmap, other: &RoaringBitmap)
    ensures
        bitmap_members(*final(into)) == bitmap_members(*old(into)).union(bitmap_members(*other)),
{
    *into |= other;
}

/// `RoaringTreemap::new` creates an empty set.
pub assume_specification[ RoaringTreemap::new ]() -> (set: RoaringTreemap)
    ensures
        treemap_members(set) == Set::<u64>::empty(),
;

/// `RoaringTreemap::insert` adds `value` to the set and nothing else; it
/// returns `true` if the value was not already present.
pub assume_specification[ RoaringTreemap::insert ](set: &mut RoaringTreemap, value: u64) -> (added:
    bool)
    ensures
        treemap_members(*final(set)) == treemap_members(*old(set)).insert(value),
        added == !treemap_members(*old(set)).contains(value),
;

/// `RoaringTreemap::contains` returns `true` if the set holds `value`.
pub assume_specification[ RoaringTreemap::contains ](set: &RoaringTreemap, value: u64) -> (found:
    bool)
    ensures
        found == treemap_members(*set).contains(value),
;

/// Builds the 32-bit set that holds exactly the ids of `ids`.
pub fn bitmap_from_ids(ids: &Vec<u32>) -> (set: RoaringBitmap)
    ensures
        bitmap_members(set) == ids@.to_set(),
{
    let mut set = RoaringBitmap::new();
    let mut i: usize = 0;
    while i < ids.len()
        invariant
            i <= ids.len(),
            bitmap_members(set) == ids@.take(i as int).to_set(),
        decreases ids.len() - i,
    {
        let _ = set.insert(ids[i]);
        proof {
            assert(ids@.take(i + 1) == ids@.take(i as int).push(ids@[i as int]));
            lemma_push_to_set(ids@.take(i as int), ids@[i as int]);
        }
        i += 1;
    }
    proof {
        assert(ids@.take(ids.len() as int) == ids@);
    }
    set
}

/// Builds the 64-bit set that holds exactly the ids of `ids`.
pub fn treemap_from_ids(ids: &Vec<u64>) -> (set: RoaringTreemap)
    ensures
        treemap_members(set) == ids@.to_set(),
{
    let mut set = RoaringTreemap::new();
    let mut i: usize = 0;
    while i < ids.len()
        invariant
            i <= ids.len(),
            treemap_members(set) == ids@.take(i as int).to_set(),
        decreases ids.len() - i,
    {
        let _ = set.insert(ids[i]);
        proof {
            assert(ids@.take(i + 1) == ids@.take(i as int).push(ids@[i as int]));
            lemma_push_to_set(ids@.take(i as int), ids@[i as int]);
        }
        i += 1;
    }
    proof {
        assert(ids@.take(ids.len() as int) == ids@);
    }
    set
}

/// Pushing an element onto a sequence inserts it into the sequence's set.
proof fn lemma_push_to_set<T>(s: Seq<T>, x: T)
    ensures
        s.push(x).to_set() =~= s.to_set().insert(x),
{
    assert forall|y: T| s.push(x).to_set().contains(y) <==> s.to_set().insert(x).contains(y) by {
        if s.push(x).to_set().contains(y) {
            let k = choose|k: int| 0 <= k < s.push(x).len() && s.push(x)[k] == y;
            if k < s.len() {
                assert(s[k] == y);
            }
        }
        if s.to_set().insert(x).contains(y) {
            if y == x {
                assert(s.push(x)[s.len() as int] == x);
            } else {
                let k = choose|k: int| 0 <= k < s.len() && s[k] == y;
                assert(s.push(x)[k] == y);
            }
        }
    }
}

} // verus!
