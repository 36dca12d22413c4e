//! The pool of subscription handler ids, each of which stands for one of a fixed number of
//! callbacks that report a subscription's readiness.
use vstd::prelude::*;
use std::collections::HashSet;
use crate::status::{UCode, UStatus};

verus! {

broadcast use vstd::std_specs::hash::group_hash_axioms;

/// How many subscription handlers there are.
pub const SUBSCRIPTION_HANDLER_COUNT: usize = 1000;

/// The subscription handler ids that are free.
pub struct InMemorySubscriptionHandlerRegistry {
    free_subscription_handler_ids: HashSet<usize>,
}

impl InMemorySubscriptionHandlerRegistry {
    /// The ids that can be handed out.
    pub closed spec fn free_ids(&self) -> Set<usize> {
        self.free_subscription_handler_ids@
    }

    /// Every id free.
    pub fn new() -> (r: InMemorySubscriptionHandlerRegistry)
        ensures
            r.free_ids() == Set::new(|id: usize| id < SUBSCRIPTION_HANDLER_COUNT),
    {
        let mut free_subscription_handler_ids: HashSet<usize> = HashSet::new();
        let mut next: usize = 0;
        while next < SUBSCRIPTION_HANDLER_COUNT
            invariant
                next <= SUBSCRIPTION_HANDLER_COUNT,
                free_subscription_handler_ids@ == Set::new(|id: usize| id < next),
            decreases SUBSCRIPTION_HANDLER_COUNT - next,
        {
            free_subscription_handler_ids.insert(next);
            next = next + 1;
            assert(free_subscription_handler_ids@ =~= Set::new(|id: usize| id < next));
        }
        InMemorySubscriptionHandlerRegistry { free_subscription_handler_ids }
    }

    /// Takes a free id; which one is left to the order in which the free ids are walked. Fails
    /// with resource-exhausted, and changes nothing, when none is free.
    pub fn allocate_subscription_handler(&mut self) -> (r: Result<usize, UStatus>)
        ensures
            match r {
                Ok(id) => old(self).free_ids().contains(id) && final(self).free_ids() == old(self).free_ids().remove(id),
                Err(e) => old(self).free_ids().is_empty() && final(self).free_ids() == old(self).free_ids()
                    && e.code == UCode::RESOURCE_EXHAUSTED,
            },
    {
        let mut found: Option<usize> = None;
        for id in walk: self.free_subscription_handler_ids.iter()
            invariant_except_break
                found is None,
                walk.index() == 0,
            ensures
                found matches Some(id) ==> self.free_subscription_handler_ids@.contains(id),
                found is None ==> self.free_subscription_handler_ids@.is_empty(),
        {
            proof {
                assert(walk.seq().unref().contains(*id));
            }
            found = Some(*id);
            break;
        }
        match found {
            Some(id) => {
                self.free_subscription_handler_ids.remove(&id);
                Ok(id)
            },
            None => Err(UStatus::fail_with_code(UCode::RESOURCE_EXHAUSTED, "No subscription readiness handlers available")),
        }
    }

    /// Makes an id free again.
    pub fn free_subscription_handler(&mut self, handler_id: usize)
        ensures
            final(self).free_ids() == old(self).free_ids().insert(handler_id),
    {
        self.free_subscription_handler_ids.insert(handler_id);
    }
}

/// Allocating a handler id and freeing it again leaves the free ids as they were.
pub proof fn lemma_free_undoes_allocate(before: Set<usize>, id: usize)
    requires
        before.contains(id),
    ensures
        before.remove(id).insert(id) == before,
{
    assert(before.remove(id).insert(id) =~= before);
}

} // verus!
