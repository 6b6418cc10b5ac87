//! Maps and sets keyed by node id.
//!
//! The tables of the failover logic are small and are only ever asked for one id at a time, so they
//! are kept as a vector in which no id occurs twice.
use crate::text::same_text;
use vstd::prelude::*;

verus! {

/// A map from node id to `V`. Its view is the mathematical map.
#[derive(Debug)]
pub struct NodeMap<V> {
    entries: Vec<(String, V)>,
}

/// No id occurs twice.
spec fn distinct<V>(entries: Seq<(String, V)>) -> bool {
    forall|i: int, j: int|
        0 <= i < j < entries.len() ==> #[trigger] entries[i].0@ != #[trigger] entries[j].0@
}

spec fn has_id<V>(entries: Seq<(String, V)>, id: Seq<char>) -> bool {
    exists|i: int| 0 <= i < entries.len() && #[trigger] entries[i].0@ == id
}

spec fn position<V>(entries: Seq<(String, V)>, id: Seq<char>) -> int {
    choose|i: int| 0 <= i < entries.len() && #[trigger] entries[i].0@ == id
}

spec fn as_map<V>(entries: Seq<(String, V)>) -> Map<Seq<char>, V> {
    Map::new(|id: Seq<char>| has_id(entries, id), |id: Seq<char>| entries[position(entries, id)].1)
}

/// The index of `id`, or the length where it does not occur.
fn find<V>(entries: &Vec<(String, V)>, id: &str) -> (r: usize)
    ensures
        r <= entries@.len(),
        r < entries@.len() ==> entries@[r as int].0@ == id@,
        r == entries@.len() ==> !has_id(entries@, id@),
{
    let mut i: usize = 0;
    while i < entries.len()
        invariant
            i <= entries@.len(),
            forall|j: int| 0 <= j < i ==> #[trigger] entries@[j].0@ != id@,
        decreases entries@.len() - i,
    {
        if same_text(entries[i].0.as_str(), id) {
            return i;
        }
        i = i + 1;
    }
    i
}

impl<V> View for NodeMap<V> {
    type V = Map<Seq<char>, V>;

    closed spec fn view(&self) -> Map<Seq<char>, V> {
        as_map(self.entries@)
    }
}

impl<V> NodeMap<V> {
    #[verifier::type_invariant]
    spec fn well_formed(self) -> bool {
        distinct(self.entries@)
    }

    /// The empty map.
    pub fn new() -> (r: Self)
        ensures
            r@ == Map::<Seq<char>, V>::empty(),
    {
        let r = NodeMap { entries: Vec::new() };
        assert(r@ =~= Map::<Seq<char>, V>::empty());
        r
    }

    /// The value of `id`, if it has one.
    pub fn get(&self, id: &str) -> (r: Option<&V>)
        ensures
            match r {
                Some(value) => self@.contains_key(id@) && *value == self@[id@],
                None => !self@.contains_key(id@),
            },
    {
        proof {
            use_type_invariant(self);
        }
        let i: usize = find(&self.entries, id);
        if i < self.entries.len() {
            assert(self.entries@[i as int].0@ == id@);
            assert(position(self.entries@, id@) == i);
            Some(&self.entries[i].1)
        } else {
            None
        }
    }

    /// Gives `id` the value `value`, in place of the one it had.
    pub fn insert(&mut self, id: String, value: V)
        ensures
            final(self)@ == old(self)@.insert(id@, value),
    {
        proof {
            use_type_invariant(&*self);
        }
        let mut entries: Vec<(String, V)> = Vec::new();
        std::mem::swap(&mut entries, &mut self.entries);
        let ghost before = entries@;
        let ghost wanted = id@;
        let i: usize = find(&entries, id.as_str());
        if i < entries.len() {
            entries.set(i, (id, value));
        } else {
            entries.push((id, value));
        }
        proof {
            assert(entries@[i as int].0@ == wanted);
            assert(distinct(entries@));
            assert forall|key: Seq<char>| has_id(entries@, key) implies key == wanted || has_id(
                before,
                key,
            ) by {
                let k = position(entries@, key);
                if k != i {
                    assert(before[k].0@ == key);
                }
            }
            assert forall|key: Seq<char>| has_id(before, key) implies #[trigger] has_id(
                entries@,
                key,
            ) by {
                let k = position(before, key);
                assert(entries@[k].0@ == key);
            }
            assert(position(entries@, wanted) == i);
            assert forall|key: Seq<char>| key != wanted && has_id(before, key) implies as_map(
                entries@,
            )[key] == as_map(before)[key] by {
                let k = position(before, key);
                assert(entries@[k].0@ == key);
                assert(position(entries@, key) == k);
            }
            assert(as_map(entries@) =~= as_map(before).insert(wanted, value));
        }
        self.entries = entries;
    }
}

/// A set of node ids. Its view is the mathematical set.
#[derive(Debug)]
pub struct NodeSet {
    ids: NodeMap<()>,
}

impl View for NodeSet {
    type V = Set<Seq<char>>;

    closed spec fn view(&self) -> Set<Seq<char>> {
        self.ids@.dom()
    }
}

impl NodeSet {
    /// The empty set.
    pub fn new() -> (r: Self)
        ensures
            r@ == Set::<Seq<char>>::empty(),
    {
        let r = NodeSet { ids: NodeMap::new() };
        assert(r@ =~= Set::<Seq<char>>::empty());
        r
    }

    /// Whether `id` is in the set.
    pub fn contains(&self, id: &str) -> (r: bool)
        ensures
            r == self@.contains(id@),
    {
        self.ids.get(id).is_some()
    }

    /// Adds `id` to the set.
    pub fn insert(&mut self, id: String)
        ensures
            final(self)@ == old(self)@.insert(id@),
    {
        self.ids.insert(id, ());
        assert(self@ =~= old(self)@.insert(id@));
    }
}

} // verus!
