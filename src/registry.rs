use vstd::prelude::*;

verus! {

/// Identifier of a live editor instance. Identifiers come from a counter
/// that only grows and are never handed out twice.
pub type InstanceId = u64;

/// Table of live editor instances keyed by identifier. Identifiers are
/// assigned in increasing order and kept in that order.
pub struct InstanceRegistry<R> {
    entries: Vec<(InstanceId, R)>,
    next_id: InstanceId,
}

impl<R> InstanceRegistry<R> {
    /// The live records, oldest first, each with its identifier.
    pub closed spec fn entries(&self) -> Seq<(InstanceId, R)> {
        self.entries@
    }

    /// The identifier the next `create` will hand out.
    pub closed spec fn next_id(&self) -> InstanceId {
        self.next_id
    }

    /// The identifiers of the live records, oldest first.
    pub open spec fn ids(&self) -> Seq<InstanceId> {
        self.entries().map_values(|e: (InstanceId, R)| e.0)
    }

    /// Identifiers are strictly increasing and all below the counter.
    pub open spec fn wf(&self) -> bool {
        &&& forall|i: int, j: int|
            0 <= i < j < self.entries().len() ==> self.entries()[i].0 < self.entries()[j].0
        &&& forall|i: int| 0 <= i < self.entries().len() ==> self.entries()[i].0 < self.next_id()
    }

    /// Whether `id` names a live record.
    pub open spec fn holds(&self, id: InstanceId) -> bool {
        exists|i: int| 0 <= i < self.entries().len() && self.entries()[i].0 == id
    }

    /// An empty registry whose first identifier is 0.
    pub fn new() -> (r: Self)
        ensures
            r.wf(),
            r.entries() == Seq::<(InstanceId, R)>::empty(),
            r.next_id() == 0,
    {
        InstanceRegistry { entries: Vec::new(), next_id: 0 }
    }

    /// The identifier the next `create` will hand out.
    pub fn upcoming_id(&self) -> (r: InstanceId)
        ensures
            r == self.next_id(),
    {
        self.next_id
    }

    /// Number of live records.
    pub fn len(&self) -> (n: usize)
        ensures
            n == self.entries().len(),
    {
        self.entries.len()
    }

    /// Runs `build` to completion, then registers its record under a fresh
    /// identifier, which is returned. The identifier is larger than every one
    /// handed out before.
    pub fn create<F: FnOnce() -> R>(&mut self, build: F) -> (id: InstanceId)
        requires
            old(self).wf(),
            old(self).next_id() < InstanceId::MAX,
            call_requires(build, ()),
        ensures
            final(self).wf(),
            id == old(self).next_id(),
            final(self).next_id() == id + 1,
            forall|i: int| 0 <= i < old(self).entries().len() ==> old(self).entries()[i].0 < id,
            final(self).entries().len() == old(self).entries().len() + 1,
            final(self).entries().drop_last() == old(self).entries(),
            final(self).entries().last().0 == id,
            call_ensures(build, (), final(self).entries().last().1),
    {
        let record = build();
        let id = self.next_id;
        self.next_id = id + 1;
        self.entries.push((id, record));
        assert(self.entries().drop_last() =~= old(self).entries());
        id
    }

    /// Removes and returns the record registered under `id`; does nothing
    /// and returns `None` when no live record has that identifier.
    pub fn remove(&mut self, id: InstanceId) -> (r: Option<R>)
        requires
            old(self).wf(),
        ensures
            final(self).wf(),
            final(self).next_id() == old(self).next_id(),
            r.is_none() == !old(self).holds(id),
            r.is_none() ==> final(self).entries() == old(self).entries(),
            r.is_some() ==> exists|i: int|
                0 <= i < old(self).entries().len() && old(self).entries()[i].0 == id
                    && old(self).entries()[i].1 == r.unwrap() && final(self).entries()
                    == old(self).entries().remove(i),
    {
        let mut i: usize = 0;
        while i < self.entries.len()
            invariant
                i <= self.entries@.len(),
                self.entries@ == old(self).entries@,
                self.next_id == old(self).next_id,
                old(self).wf(),
                forall|j: int| 0 <= j < i ==> self.entries@[j].0 != id,
            decreases self.entries@.len() - i,
        {
            if self.entries[i].0 == id {
                let ghost k = i as int;
                let (_, record) = self.entries.remove(i);
                assert(self.entries() == old(self).entries().remove(k));
                assert forall|a: int, b: int|
                    0 <= a < b < self.entries().len() implies self.entries()[a].0
                    < self.entries()[b].0 by {
                    let ghost oa = if a < i { a } else { a + 1 };
                    let ghost ob = if b < i { b } else { b + 1 };
                    assert(old(self).entries()[oa] == self.entries()[a]);
                    assert(old(self).entries()[ob] == self.entries()[b]);
                }
                assert forall|a: int| 0 <= a < self.entries().len() implies self.entries()[a].0
                    < self.next_id() by {
                    let ghost oa = if a < i { a } else { a + 1 };
                    assert(old(self).entries()[oa] == self.entries()[a]);
                }
                assert(old(self).entries()[k].1 == record);
                return Some(record);
            }
            i = i + 1;
        }
        assert(!old(self).holds(id));
        assert(self.entries() == old(self).entries() && self.next_id() == old(self).next_id());
        None
    }

    /// Removes every record and returns how many there were. The identifier
    /// counter is kept, so later identifiers still increase.
    pub fn clear(&mut self) -> (count: usize)
        requires
            old(self).wf(),
        ensures
            final(self).wf(),
            count == old(self).entries().len(),
            final(self).entries().len() == 0,
            final(self).next_id() == old(self).next_id(),
    {
        let count = self.entries.len();
        self.entries.clear();
        count
    }

    /// The record registered under `id`, if it is live.
    pub fn get(&self, id: InstanceId) -> (r: Option<&R>)
        requires
            self.wf(),
        ensures
            r.is_none() == !self.holds(id),
            r.is_some() ==> exists|i: int|
                0 <= i < self.entries().len() && self.entries()[i].0 == id && self.entries()[i].1
                    == *r.unwrap(),
    {
        let mut i: usize = 0;
        while i < self.entries.len()
            invariant
                i <= self.entries@.len(),
                self.wf(),
                forall|j: int| 0 <= j < i ==> self.entries@[j].0 != id,
            decreases self.entries@.len() - i,
        {
            if self.entries[i].0 == id {
                assert(self.entries()[i as int].0 == id);
                return Some(&self.entries[i].1);
            }
            i = i + 1;
        }
        assert(!self.holds(id));
        None
    }
}

} // verus!
