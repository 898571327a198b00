//! A tracker of what has been visited, for finding a node that is visited
//! twice.

use vstd::prelude::*;
use fxhash::FxHashMap;
use crate::span::Span;
use crate::types::strs;

verus! {

/// `fxhash::FxHasher`, the hasher of the map of the visited keys. Nothing
/// is said of it.
#[verifier::external_type_specification]
#[verifier::external_body]
pub struct ExFxHasher(fxhash::FxHasher);

/// `std::hash::BuildHasherDefault`, which builds the hasher of the map of
/// the visited keys. Nothing is said of it.
#[verifier::external_type_specification]
#[verifier::external_body]
#[verifier::reject_recursive_types(H)]
pub struct ExBuildHasherDefault<H>(std::hash::BuildHasherDefault<H>);

/// The keys that the map holds.
pub uninterp spec fn visited_keys(m: FxHashMap<String, ()>) -> Set<Seq<char>>;

/// `FxHashMap::default`: a map that holds no key.
#[verifier::external_body]
fn visited_new() -> (m: FxHashMap<String, ()>)
    ensures
        visited_keys(m) == Set::<Seq<char>>::empty(),
{
    FxHashMap::default()
}

/// `HashMap::remove`: takes the key out of the map and says whether the map
/// held it.
#[verifier::external_body]
fn visited_take(m: &mut FxHashMap<String, ()>, key: &String) -> (found: bool)
    ensures
        found == visited_keys(*old(m)).contains(key@),
        visited_keys(*final(m)) == visited_keys(*old(m)).remove(key@),
{
    m.remove(key).is_some()
}

/// `HashMap::insert`: the map holds the key afterwards, and every key that
/// it held before.
#[verifier::external_body]
fn visited_put(m: &mut FxHashMap<String, ()>, key: String)
    ensures
        visited_keys(*final(m)) == visited_keys(*old(m)).insert(key@),
{
    m.insert(key, ());
}

/// `HashMap::contains_key`: whether the map holds the key.
#[verifier::external_body]
fn visited_has(m: &FxHashMap<String, ()>, key: &String) -> (found: bool)
    ensures
        found == visited_keys(*m).contains(key@),
{
    m.contains_key(key)
}

/// `HashMap::keys`: the keys of the map, each once, in no stated order.
#[verifier::external_body]
fn visited_names(m: &FxHashMap<String, ()>) -> (names: Vec<String>)
    ensures
        strs(names@).no_duplicates(),
        strs(names@).to_set() == visited_keys(*m),
{
    m.keys().cloned().collect()
}

/// The keys of the nodes that were visited.
pub struct DuplicateTracker {
    visited: FxHashMap<String, ()>,
}

impl DuplicateTracker {
    /// The keys of the nodes that were visited.
    pub closed spec fn keys(&self) -> Set<Seq<char>> {
        visited_keys(self.visited)
    }

    /// A tracker that has seen no node.
    pub fn new() -> (t: DuplicateTracker)
        ensures
            t.keys() == Set::<Seq<char>>::empty(),
    {
        DuplicateTracker { visited: visited_new() }
    }

    /// Whether a node with the key `key` was visited.
    pub fn contains(&self, key: &String) -> (b: bool)
        ensures
            b == self.keys().contains(key@),
    {
        visited_has(&self.visited, key)
    }

    /// Records the visit of the node at `span` whose key is `key`. A node
    /// without a place in the source is not recorded. A node is visited
    /// once: its key is not among the recorded ones.
    pub fn record(&mut self, span: Span, key: String)
        requires
            span.is_dummy() || !old(self).keys().contains(key@),
        ensures
            final(self).keys() == if span.is_dummy() {
                old(self).keys()
            } else {
                old(self).keys().insert(key@)
            },
    {
        if span.is_dummy() {
            return ;
        }
        self.insert(key);
    }

    /// Records the visit of the node at `span` whose key is `key`, unless
    /// a node with that key was visited already. The result says whether
    /// the node had not been visited before.
    pub fn try_record(&mut self, span: Span, key: String) -> (fresh: bool)
        ensures
            fresh == (span.is_dummy() || !old(self).keys().contains(key@)),
            final(self).keys() == if fresh && !span.is_dummy() {
                old(self).keys().insert(key@)
            } else {
                old(self).keys()
            },
    {
        if span.is_dummy() {
            return true;
        }
        if self.contains(&key) {
            return false;
        }
        self.record(span, key);
        true
    }

    fn insert(&mut self, key: String)
        requires
            !old(self).keys().contains(key@),
        ensures
            final(self).keys() == old(self).keys().insert(key@),
    {
        let found = visited_take(&mut self.visited, &key);
        assert(!found);
        assert(visited_keys(self.visited) =~= old(self).keys());
        visited_put(&mut self.visited, key);
    }

    /// Records every node that `other` has recorded. No node is visited by
    /// both.
    pub fn record_all(&mut self, other: DuplicateTracker)
        requires
            old(self).keys().disjoint(other.keys()),
        ensures
            final(self).keys() == old(self).keys().union(other.keys()),
    {
        let names = visited_names(&other.visited);
        let ghost all = strs(names@);
        let mut i: usize = 0;
        while i < names.len()
            invariant
                i <= names.len(),
                all == strs(names@),
                all.no_duplicates(),
                all.to_set() == other.keys(),
                old(self).keys().disjoint(other.keys()),
                self.keys() == old(self).keys().union(all.take(i as int).to_set()),
            decreases names.len() - i,
        {
            let ghost key = all[i as int];
            let ghost before = all.take(i as int);
            let ghost after = all.take(i + 1);
            assert(key == names@[i as int]@);
            assert(all.to_set().contains(key));
            assert(!before.to_set().contains(key)) by {
                if before.contains(key) {
                    let j = choose|j: int| 0 <= j < before.len() && before[j] == key;
                    assert(all[j] == all[i as int]);
                }
            }
            self.insert(names[i].clone());
            assert(after.to_set() =~= before.to_set().insert(key)) by {
                assert(after =~= before.push(key));
                assert forall|x: Seq<char>|
                    after.to_set().contains(x) <==> before.to_set().insert(key).contains(x) by {
                    if after.contains(x) {
                        let j = choose|j: int| 0 <= j < after.len() && after[j] == x;
                        if j < i {
                            assert(before[j] == x);
                        }
                    }
                    if before.contains(x) {
                        let j = choose|j: int| 0 <= j < before.len() && before[j] == x;
                        assert(after[j] == x);
                    }
                    if x == key {
                        assert(after[i as int] == x);
                    }
                }
            }
            assert(self.keys() =~= old(self).keys().union(all.take(i + 1).to_set()));
            i += 1;
        }
        assert(all.take(names.len() as int) =~= all);
    }

    /// Records every node that `other` has recorded, unless one of them
    /// was visited already. The result says whether none was.
    pub fn try_record_all(&mut self, other: DuplicateTracker) -> (fresh: bool)
        ensures
            fresh == old(self).keys().disjoint(other.keys()),
            final(self).keys() == if fresh {
                old(self).keys().union(other.keys())
            } else {
                old(self).keys()
            },
    {
        let names = visited_names(&other.visited);
        let ghost all = strs(names@);
        let mut i: usize = 0;
        while i < names.len()
            invariant
                i <= names.len(),
                all == strs(names@),
                all.to_set() == other.keys(),
                *self == *old(self),
                forall|j: int| 0 <= j < i ==> !self.keys().contains(#[trigger] all[j]),
            decreases names.len() - i,
        {
            assert(all[i as int] == names@[i as int]@);
            if self.contains(&names[i]) {
                assert(other.keys().contains(all[i as int]));
                return false;
            }
            i += 1;
        }
        assert(self.keys().disjoint(other.keys())) by {
            assert forall|x: Seq<char>| !(self.keys().contains(x) && other.keys().contains(x)) by {
                if other.keys().contains(x) {
                    let j = choose|j: int| 0 <= j < all.len() && all[j] == x;
                    assert(!self.keys().contains(all[j]));
                }
            }
        }
        self.record_all(other);
        true
    }
}

} // verus!
