use vstd::prelude::*;
use crate::keys::LogicalKey;

verus! {

broadcast use vstd::seq_lib::group_seq_properties;

/// A set of held keys, kept as a vector without repeats.
pub struct KeySet {
    keys: Vec<LogicalKey>,
}

impl View for KeySet {
    type V = Set<LogicalKey>;

    open spec fn view(&self) -> Set<LogicalKey> {
        self.elems().to_set()
    }
}

impl KeySet {
    /// The keys in the order in which they are stored.
    pub closed spec fn elems(&self) -> Seq<LogicalKey> {
        self.keys@
    }

    pub open spec fn wf(&self) -> bool {
        self.elems().no_duplicates()
    }

    pub fn new() -> (r: KeySet)
        ensures
            r.wf(),
            r@ == Set::<LogicalKey>::empty(),
            r.elems().len() == 0,
    {
        let r = KeySet { keys: Vec::with_capacity(6) };
        assert(r@ =~= Set::<LogicalKey>::empty());
        r
    }

    /// Empties the set, keeping its storage.
    pub fn clear(&mut self)
        ensures
            final(self).wf(),
            final(self)@ == Set::<LogicalKey>::empty(),
            final(self).elems().len() == 0,
    {
        self.keys.clear();
        assert(self@ =~= Set::<LogicalKey>::empty());
    }

    pub fn len(&self) -> (r: usize)
        ensures
            r == self.elems().len(),
    {
        self.keys.len()
    }

    pub fn get(&self, i: usize) -> (r: LogicalKey)
        requires
            i < self.elems().len(),
        ensures
            r == self.elems()[i as int],
    {
        self.keys[i]
    }

    pub fn contains(&self, k: LogicalKey) -> (r: bool)
        ensures
            r == self@.contains(k),
    {
        let mut i: usize = 0;
        while i < self.keys.len()
            invariant
                i <= self.keys@.len(),
                forall|j: int| 0 <= j < i ==> self.keys@[j] != k,
            decreases self.keys@.len() - i,
        {
            if self.keys[i] == k {
                return true;
            }
            i = i + 1;
        }
        false
    }

    /// Adds `k`, unless it is already held.
    pub fn insert(&mut self, k: LogicalKey)
        requires
            old(self).wf(),
        ensures
            final(self).wf(),
            final(self)@ == old(self)@.insert(k),
    {
        if !self.contains(k) {
            proof {
                self.keys@.lemma_push_to_set_commute(k);
            }
            self.keys.push(k);
        } else {
            assert(self@ =~= old(self)@.insert(k));
        }
    }

    /// The keys, in storage order.
    pub fn to_vec(&self) -> (r: Vec<LogicalKey>)
        ensures
            r@ == self.elems(),
    {
        self.keys.clone()
    }
}

} // verus!
