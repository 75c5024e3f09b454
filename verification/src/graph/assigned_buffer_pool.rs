use std::collections::HashMap;
use vstd::prelude::*;

use crate::id::Id;

verus! {

broadcast use vstd::std_specs::hash::group_hash_axioms;

/// Buffers that are each assigned to a node, looked up by the node's id
pub struct AssignedBufferPool<Buffer> {
    assigned_buffers: HashMap<u64, Buffer>,
}

impl<Buffer> View for AssignedBufferPool<Buffer> {
    type V = Map<u64, Buffer>;

    /// The buffers, keyed by the raw value of the id they are assigned to
    closed spec fn view(&self) -> Map<u64, Buffer> {
        self.assigned_buffers@
    }
}

impl<Buffer> AssignedBufferPool<Buffer> {
    /// An empty pool with room for `num_buffers` buffers
    pub fn with_capacity(num_buffers: usize) -> (pool: Self)
        ensures
            pool@ == Map::<u64, Buffer>::empty(),
    {
        Self { assigned_buffers: HashMap::with_capacity(num_buffers) }
    }

    /// Take the buffer that is assigned to `id`, if there is one
    pub fn remove(&mut self, id: &Id) -> (buffer: Option<Buffer>)
        ensures
            final(self)@ == old(self)@.remove(id.value),
            old(self)@.contains_key(id.value) ==> buffer == Some(old(self)@[id.value]),
            !old(self)@.contains_key(id.value) ==> buffer.is_none(),
    {
        self.assigned_buffers.remove(&id.value)
    }

    /// Assign `buffer` to `id`, replacing any buffer that was assigned to it
    pub fn add(&mut self, buffer: Buffer, id: &Id)
        ensures
            final(self)@ == old(self)@.insert(id.value, buffer),
    {
        self.assigned_buffers.insert(id.value, buffer);
    }

    /// Whether no buffer is assigned
    pub fn is_empty(&self) -> (empty: bool)
        ensures
            self@.dom().finite(),
            empty == (self@.dom().len() == 0),
            empty == (self@ == Map::<u64, Buffer>::empty()),
    {
        let empty = self.assigned_buffers.is_empty();
        proof {
            if !empty {
                assert(self@.dom().len() != 0) by {
                    let k = choose|k: u64| self@.contains_key(k);
                    assert(self@.dom().contains(k));
                }
                assert(Map::<u64, Buffer>::empty().dom().len() == 0);
            } else {
                vstd::set_lib::lemma_set_empty_equivalency_len(self@.dom());
                assert(self@ =~= Map::<u64, Buffer>::empty());
            }
        }
        empty
    }

    /// Whether a buffer is assigned to `id`
    pub fn has(&self, id: &Id) -> (assigned: bool)
        ensures
            assigned == self@.contains_key(id.value),
    {
        self.assigned_buffers.contains_key(&id.value)
    }

    /// Take any one of the assigned buffers, with the id it was assigned to
    ///
    /// Which one is taken depends on the order in which the map is walked.
    pub fn remove_next(&mut self) -> (next: Option<(Id, Buffer)>)
        ensures
            old(self)@.dom().len() == 0 ==> next.is_none() && final(self)@ == old(self)@,
            old(self)@.dom().len() != 0 ==> match next {
                Some((id, buffer)) => {
                    &&& old(self)@.contains_key(id.value)
                    &&& buffer == old(self)@[id.value]
                    &&& final(self)@ == old(self)@.remove(id.value)
                },
                None => false,
            },
    {
        let mut first: Option<u64> = None;
        for key in iter: self.assigned_buffers.keys()
            invariant_except_break
                first.is_none(),
                iter.index() == 0,
            ensures
                first.is_some() ==> self@.contains_key(first.unwrap()),
                first.is_none() ==> iter.seq().len() == 0,
        {
            first = Some(*key);
            break;
        }
        let key: u64 = match first {
            Some(key) => key,
            None => {
                return None;
            },
        };
        let id = Id::from_raw(key);
        match self.remove(&id) {
            Some(buffer) => Some((id, buffer)),
            None => None,
        }
    }
}

/// The buffer that was last assigned to an id is the one taken back for it,
/// and taking it leaves every other assignment as it was; an id is free again
/// once its buffer is taken
pub proof fn law_assign_then_take<Buffer>(assigned: Map<u64, Buffer>, id: u64, buffer: Buffer)
    ensures
        assigned.insert(id, buffer).contains_key(id),
        assigned.insert(id, buffer)[id] == buffer,
        !assigned.insert(id, buffer).remove(id).contains_key(id),
        !assigned.contains_key(id) ==> assigned.insert(id, buffer).remove(id) == assigned,
        forall|other: u64| other != id ==> assigned.insert(id, buffer).remove(id).contains_key(other) == assigned.contains_key(other),
{
    if !assigned.contains_key(id) {
        assert(assigned.insert(id, buffer).remove(id) =~= assigned);
    }
}

} // verus!
