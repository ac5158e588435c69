//! A table of records keyed by actor ID, in the order of first insertion.

use vstd::prelude::*;

verus! {

/// The dense number that an actor gets when it is first referenced.
pub type ActorID = u64;

/// Records by actor ID. No ID occurs twice; a record that is written again
/// keeps its place.
pub struct Table<A> {
    ids: Vec<ActorID>,
    records: Vec<A>,
}

impl<A> Table<A> {
    /// One record for each ID, and no ID twice.
    pub closed spec fn wf(&self) -> bool {
        &&& self.ids@.len() == self.records@.len()
        &&& forall|i: int, j: int|
            0 <= i < j < self.ids@.len() ==> self.ids@[i] != self.ids@[j]
    }

    /// The IDs in the order in which they were first written.
    pub closed spec fn order(&self) -> Seq<ActorID> {
        self.ids@
    }

    /// The records, each at the place of its ID in `order`.
    pub closed spec fn records(&self) -> Seq<A> {
        self.records@
    }

    /// The record of each ID that has one.
    pub open spec fn map(&self) -> Map<ActorID, A> {
        Map::new(
            |id: ActorID| self.order().contains(id),
            |id: ActorID| self.records()[self.order().index_of(id)],
        )
    }

    /// The table without records.
    pub fn new() -> (t: Table<A>)
        ensures
            t.wf(),
            t.order() == Seq::<ActorID>::empty(),
            t.records() == Seq::<A>::empty(),
            t.map() == Map::<ActorID, A>::empty(),
    {
        let t = Table { ids: Vec::new(), records: Vec::new() };
        assert(t.map() =~= Map::<ActorID, A>::empty());
        t
    }

    /// How many records there are.
    pub fn len(&self) -> (n: usize)
        requires
            self.wf(),
        ensures
            n == self.order().len(),
            n == self.records().len(),
    {
        self.ids.len()
    }

    /// The ID at place `i`.
    pub fn id_at(&self, i: usize) -> (id: ActorID)
        requires
            self.wf(),
            i < self.order().len(),
        ensures
            id == self.order()[i as int],
    {
        self.ids[i]
    }

    /// The record at place `i`.
    pub fn record_at(&self, i: usize) -> (a: &A)
        requires
            self.wf(),
            i < self.order().len(),
        ensures
            *a == self.records()[i as int],
            self.map().contains_key(self.order()[i as int]),
            *a == self.map()[self.order()[i as int]],
    {
        proof {
            self.lemma_place(i as int);
        }
        &self.records[i]
    }

    /// The place of an ID is the one place where it stands.
    pub proof fn lemma_place(&self, i: int)
        requires
            self.wf(),
            0 <= i < self.order().len(),
        ensures
            self.order().contains(self.order()[i]),
            self.order().index_of(self.order()[i]) == i,
            self.map().contains_key(self.order()[i]),
            self.map()[self.order()[i]] == self.records()[i],
    {
        let id = self.ids@[i];
        assert(self.ids@.contains(id));
        let k = self.ids@.index_of(id);
        assert(0 <= k < self.ids@.len() && self.ids@[k] == id);
        if k < i {
            assert(self.ids@[k] != self.ids@[i]);
        } else if i < k {
            assert(self.ids@[i] != self.ids@[k]);
        }
    }

    /// The place of `id`, if it has a record.
    fn find(&self, id: ActorID) -> (at: Option<usize>)
        requires
            self.wf(),
        ensures
            match at {
                Some(i) => i < self.ids@.len() && self.ids@[i as int] == id,
                None => !self.ids@.contains(id),
            },
    {
        let mut i: usize = 0;
        while i < self.ids.len()
            invariant
                i <= self.ids@.len(),
                forall|j: int| 0 <= j < i ==> self.ids@[j] != id,
            decreases self.ids@.len() - i,
        {
            if self.ids[i] == id {
                return Some(i);
            }
            i = i + 1;
        }
        None
    }

    /// The record of `id`, if it has one.
    pub fn get(&self, id: ActorID) -> (a: Option<&A>)
        requires
            self.wf(),
        ensures
            match a {
                Some(a) => self.map().contains_key(id) && *a == self.map()[id],
                None => !self.map().contains_key(id),
            },
    {
        match self.find(id) {
            Some(i) => {
                proof {
                    self.lemma_place(i as int);
                }
                Some(&self.records[i])
            },
            None => None,
        }
    }

    /// Writes the record of `id`: in place where it has one, else at the end.
    pub fn set(&mut self, id: ActorID, a: A)
        requires
            old(self).wf(),
        ensures
            final(self).wf(),
            final(self).map() == old(self).map().insert(id, a),
            final(self).order() == if old(self).map().contains_key(id) {
                old(self).order()
            } else {
                old(self).order().push(id)
            },
    {
        let ghost before = *self;
        match self.find(id) {
            Some(i) => {
                self.records.set(i, a);
                proof {
                    assert(self.wf());
                    assert forall|k: ActorID| #[trigger]
                        self.map().contains_key(k) implies self.map()[k] == before.map().insert(
                        id,
                        a,
                    )[k] by {
                        let p = self.ids@.index_of(k);
                        assert(0 <= p < self.ids@.len() && self.ids@[p] == k);
                        before.lemma_place(p);
                        self.lemma_place(p);
                    }
                    before.lemma_place(i as int);
                    assert(self.map() =~= before.map().insert(id, a));
                }
            },
            None => {
                self.ids.push(id);
                self.records.push(a);
                proof {
                    let n = before.ids@.len() as int;
                    assert(self.wf());
                    self.lemma_place(n);
                    assert forall|k: ActorID| #[trigger]
                        before.map().contains_key(k) implies self.map().contains_key(k)
                        && self.map()[k] == before.map()[k] by {
                        let p = before.ids@.index_of(k);
                        assert(0 <= p < n && before.ids@[p] == k);
                        before.lemma_place(p);
                        assert(self.ids@[p] == k);
                        self.lemma_place(p);
                    }
                    assert forall|k: ActorID| #[trigger]
                        self.map().contains_key(k) implies k == id || before.map().contains_key(
                        k,
                    ) by {
                        let p = self.ids@.index_of(k);
                        assert(0 <= p < self.ids@.len() && self.ids@[p] == k);
                        if p < n {
                            assert(before.ids@[p] == k);
                        }
                    }
                    assert(self.map() =~= before.map().insert(id, a));
                }
            },
        }
    }
}

} // verus!
