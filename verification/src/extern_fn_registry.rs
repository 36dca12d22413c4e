//! The pool of listener ids, each of which stands for one of a fixed number of callback
//! functions that can be handed to a SOME/IP application, and the transport that each id in use
//! belongs to.
use vstd::prelude::*;
use std::collections::{HashMap, HashSet};
use crate::status::{UCode, UStatus};

verus! {

broadcast use vstd::std_specs::hash::group_hash_axioms;

/// How many callback functions, and so listener ids, there are.
pub const EXTERN_FN_COUNT: usize = 10000;

/// The ids that are free, and the transport of each id in use; `T` is how a transport is held.
pub struct ExternFnRegistry<T> {
    free_listener_ids: HashSet<usize>,
    listener_id_transport: HashMap<usize, T>,
}

impl<T> ExternFnRegistry<T> {
    /// The ids that can be handed out.
    pub closed spec fn free_ids(&self) -> Set<usize> {
        self.free_listener_ids@
    }

    /// The transport recorded for each id.
    pub closed spec fn transports(&self) -> Map<usize, T> {
        self.listener_id_transport@
    }

    /// No id is both free and recorded with a transport.
    pub open spec fn wf(&self) -> bool {
        self.free_ids().disjoint(self.transports().dom())
    }

    /// Every id free, none recorded.
    pub fn new() -> (r: ExternFnRegistry<T>)
        ensures
            r.wf(),
            r.free_ids() == Set::new(|id: usize| id < EXTERN_FN_COUNT),
            r.transports() == Map::<usize, T>::empty(),
    {
        let mut free_listener_ids: HashSet<usize> = HashSet::new();
        let mut next: usize = 0;
        while next < EXTERN_FN_COUNT
            invariant
                next <= EXTERN_FN_COUNT,
                free_listener_ids@ == Set::new(|id: usize| id < next),
            decreases EXTERN_FN_COUNT - next,
        {
            free_listener_ids.insert(next);
            next = next + 1;
            assert(free_listener_ids@ =~= Set::new(|id: usize| id < next));
        }
        let r = ExternFnRegistry { free_listener_ids, listener_id_transport: HashMap::new() };
        assert(r.transports() =~= Map::<usize, T>::empty());
        r
    }

    /// Records the transport of an id; fails with already-exists, and changes nothing, when one
    /// is recorded.
    pub fn insert_listener_id_transport(&mut self, listener_id: usize, transport: T) -> (r: Result<(), UStatus>)
        ensures
            final(self).free_ids() == old(self).free_ids(),
            match r {
                Ok(()) => !old(self).transports().contains_key(listener_id)
                    && final(self).transports() == old(self).transports().insert(listener_id, transport),
                Err(e) => old(self).transports().contains_key(listener_id)
                    && final(self).transports() == old(self).transports() && e.code == UCode::ALREADY_EXISTS,
            },
    {
        if !self.listener_id_transport.contains_key(&listener_id) {
            self.listener_id_transport.insert(listener_id, transport);
            Ok(())
        } else {
            Err(UStatus::fail_with_code_and_number(UCode::ALREADY_EXISTS, "LISTENER_ID_TRANSPORT_MAPPING already contains listener_id: ", listener_id as u64, ""))
        }
    }

    /// Removes the transport of an id; fails with not-found, and changes nothing, when none is
    /// recorded.
    pub fn remove_listener_id_transport(&mut self, listener_id: usize) -> (r: Result<(), UStatus>)
        ensures
            final(self).free_ids() == old(self).free_ids(),
            final(self).transports() == old(self).transports().remove(listener_id),
            match r {
                Ok(()) => old(self).transports().contains_key(listener_id),
                Err(e) => !old(self).transports().contains_key(listener_id) && e.code == UCode::NOT_FOUND,
            },
    {
        if self.listener_id_transport.contains_key(&listener_id) {
            self.listener_id_transport.remove(&listener_id);
            Ok(())
        } else {
            assert(old(self).transports().remove(listener_id) =~= old(self).transports());
            Err(UStatus::fail_with_code_and_number(UCode::NOT_FOUND, "LISTENER_ID_TRANSPORT_MAPPING does not contain listener_id: ", listener_id as u64, ""))
        }
    }

    /// The transport recorded for an id, if any.
    pub fn get_listener_id_transport(&self, listener_id: usize) -> (r: Option<&T>)
        ensures
            match r {
                Some(t) => self.transports().contains_key(listener_id) && *t == self.transports()[listener_id],
                None => !self.transports().contains_key(listener_id),
            },
    {
        self.listener_id_transport.get(&listener_id)
    }

    /// Makes an id free again.
    pub fn free_listener_id(&mut self, listener_id: usize) -> (r: Result<(), UStatus>)
        ensures
            r is Ok,
            final(self).free_ids() == old(self).free_ids().insert(listener_id),
            final(self).transports() == old(self).transports(),
    {
        self.free_listener_ids.insert(listener_id);
        Ok(())
    }

    /// Takes a free id; which one is left to the order in which the set of free ids is walked.
    /// Fails with resource-exhausted, and changes nothing, when none is free.
    pub fn find_available_listener_id(&mut self) -> (r: Result<usize, UStatus>)
        ensures
            final(self).transports() == old(self).transports(),
            match r {
                Ok(id) => old(self).free_ids().contains(id) && final(self).free_ids() == old(self).free_ids().remove(id),
                Err(e) => old(self).free_ids().is_empty() && final(self).free_ids() == old(self).free_ids()
                    && e.code == UCode::RESOURCE_EXHAUSTED,
            },
    {
        let mut found: Option<usize> = None;
        for id in walk: self.free_listener_ids.iter()
            invariant_except_break
                found is None,
                walk.index() == 0,
            ensures
                found matches Some(id) ==> self.free_listener_ids@.contains(id),
                found is None ==> self.free_listener_ids@.is_empty(),
        {
            proof {
                assert(walk.seq().unref().contains(*id));
            }
            found = Some(*id);
            break;
        }
        match found {
            Some(id) => {
                self.free_listener_ids.remove(&id);
                Ok(id)
            },
            None => Err(UStatus::fail_with_code(UCode::RESOURCE_EXHAUSTED, "No more extern C fns available")),
        }
    }
}

} // verus!
