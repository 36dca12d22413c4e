//! Which client id each listener (or message handler) id was registered under, kept in both
//! directions.
use vstd::prelude::*;
use std::collections::{HashMap, HashSet};
use crate::ids::ClientId;

verus! {

broadcast use vstd::std_specs::hash::group_hash_axioms;

/// The ids registered under a client id, by the map from id to client id.
pub open spec fn ids_of_client(clients: Map<usize, ClientId>, client_id: ClientId) -> Set<usize> {
    Set::new(|id: usize| clients.contains_key(id) && clients[id] == client_id)
}

/// The ids of each client id, and the client id of each id.
pub struct ListenerClients {
    id_to_client: HashMap<usize, ClientId>,
    client_to_ids: HashMap<ClientId, HashSet<usize>>,
}

impl ListenerClients {
    /// The client id of each registered id.
    pub closed spec fn view(&self) -> Map<usize, ClientId> {
        self.id_to_client@
    }

    /// Whether the set kept for a client id holds an id.
    closed spec fn listed(&self, c: ClientId, id: usize) -> bool {
        self.client_to_ids@.contains_key(c) && self.client_to_ids@[c]@.contains(id)
    }

    /// The two directions agree, and each set of ids is finite.
    pub closed spec fn wf(&self) -> bool {
        &&& forall|c: ClientId, id: usize| #[trigger] self.listed(c, id)
                <==> (self.id_to_client@.contains_key(id) && self.id_to_client@[id] == c)
        &&& forall|c: ClientId| #[trigger] self.client_to_ids@.contains_key(c) ==> self.client_to_ids@[c]@.finite()
    }

    /// Nothing registered.
    pub fn new() -> (r: ListenerClients)
        ensures
            r.wf(),
            r.view() == Map::<usize, ClientId>::empty(),
    {
        ListenerClients { id_to_client: HashMap::new(), client_to_ids: HashMap::new() }
    }

    /// The client id of an id, if it is registered.
    pub fn client_of(&self, id: usize) -> (r: Option<ClientId>)
        ensures
            match r {
                Some(c) => self.view().contains_key(id) && self.view()[id] == c,
                None => !self.view().contains_key(id),
            },
    {
        match self.id_to_client.get(&id) {
            Some(c) => Some(*c),
            None => None,
        }
    }

    /// Registers an id under a client id. An id that is registered already stays as it was, and
    /// the pair of it and its registered client id comes back.
    pub fn insert(&mut self, id: usize, client_id: ClientId) -> (r: Option<(usize, ClientId)>)
        requires
            old(self).wf(),
        ensures
            final(self).wf(),
            match r {
                Some(pair) => old(self).view().contains_key(id) && pair == (id, old(self).view()[id])
                    && final(self).view() == old(self).view(),
                None => !old(self).view().contains_key(id)
                    && final(self).view() == old(self).view().insert(id, client_id),
            },
    {
        if self.id_to_client.contains_key(&id) {
            let existing = *self.id_to_client.get(&id).unwrap();
            return Some((id, existing));
        }
        match self.id_to_client.insert(id, client_id) {
            Some(previous) => {
                return Some((id, previous));
            },
            None => {},
        }
        let ghost before = if old(self).client_to_ids@.contains_key(client_id) {
            old(self).client_to_ids@[client_id]@
        } else {
            Set::<usize>::empty()
        };
        let mut ids = match self.client_to_ids.remove(&client_id) {
            Some(s) => s,
            None => HashSet::new(),
        };
        assert(ids@ == before);
        let newly_added = ids.insert(id);
        self.client_to_ids.insert(client_id, ids);
        assert(self.client_to_ids@[client_id]@ == before.insert(id));
        if !newly_added {
            proof {
                assert(old(self).listed(client_id, id));
                assert(false);
            }
            return Some((id, client_id));
        }
        proof {
            assert forall|c: ClientId, i: usize| #[trigger] self.listed(c, i)
                    <==> (self.id_to_client@.contains_key(i) && self.id_to_client@[i] == c) by {
                assert(old(self).listed(c, i) <==> (old(self).id_to_client@.contains_key(i) && old(self).id_to_client@[i] == c));
                if c == client_id {
                    assert(self.listed(c, i) == before.insert(id).contains(i));
                    assert(old(self).listed(c, i) == before.contains(i));
                }
            }
            assert forall|c: ClientId| #[trigger] self.client_to_ids@.contains_key(c) implies self.client_to_ids@[c]@.finite() by {
                if c != client_id {
                    assert(old(self).client_to_ids@.contains_key(c));
                }
            }
        }
        None
    }

    /// Removes the registration of an id and gives back its client id.
    pub fn remove(&mut self, id: usize) -> (r: Option<ClientId>)
        requires
            old(self).wf(),
        ensures
            final(self).wf(),
            match r {
                Some(c) => old(self).view().contains_key(id) && c == old(self).view()[id]
                    && final(self).view() == old(self).view().remove(id),
                None => !old(self).view().contains_key(id) && final(self).view() == old(self).view(),
            },
    {
        match self.id_to_client.remove(&id) {
            Some(client_id) => {
                let ghost before = if old(self).client_to_ids@.contains_key(client_id) {
                    old(self).client_to_ids@[client_id]@
                } else {
                    Set::<usize>::empty()
                };
                let mut ids = match self.client_to_ids.remove(&client_id) {
                    Some(s) => s,
                    None => HashSet::new(),
                };
                assert(ids@ == before);
                ids.remove(&id);
                self.client_to_ids.insert(client_id, ids);
                proof {
                    assert(self.client_to_ids@[client_id]@ == before.remove(id));
                    assert(before.finite());
                    assert(before.remove(id).finite());
                    assert forall|c: ClientId, i: usize| #[trigger] self.listed(c, i)
                            <==> (self.id_to_client@.contains_key(i) && self.id_to_client@[i] == c) by {
                        assert(old(self).listed(c, i) <==> (old(self).id_to_client@.contains_key(i) && old(self).id_to_client@[i] == c));
                        if c == client_id {
                            assert(self.listed(c, i) == before.remove(id).contains(i));
                            assert(old(self).listed(c, i) == before.contains(i));
                        }
                    }
                    assert forall|c: ClientId| #[trigger] self.client_to_ids@.contains_key(c) implies self.client_to_ids@[c]@.finite() by {
                        if c != client_id {
                            assert(old(self).client_to_ids@.contains_key(c));
                        }
                    }
                }
                Some(client_id)
            },
            None => {
                assert(self.id_to_client@ =~= old(self).id_to_client@);
                assert forall|c: ClientId, i: usize| #[trigger] self.listed(c, i)
                        <==> (self.id_to_client@.contains_key(i) && self.id_to_client@[i] == c) by {
                    assert(old(self).listed(c, i) <==> (old(self).id_to_client@.contains_key(i) && old(self).id_to_client@[i] == c));
                }
                None
            },
        }
    }

    /// How many ids are registered under a client id.
    pub fn count_for_client(&self, client_id: ClientId) -> (r: usize)
        requires
            self.wf(),
        ensures
            r == ids_of_client(self.view(), client_id).len(),
            ids_of_client(self.view(), client_id).finite(),
    {
        match self.client_to_ids.get(&client_id) {
            Some(ids) => {
                proof {
                    assert(ids@ =~= ids_of_client(self.view(), client_id)) by {
                        assert forall|i: usize| ids@.contains(i) == ids_of_client(self.view(), client_id).contains(i) by {
                            assert(self.listed(client_id, i) <==> (self.id_to_client@.contains_key(i) && self.id_to_client@[i] == client_id));
                        }
                    }
                }
                ids.len()
            },
            None => {
                proof {
                    assert(ids_of_client(self.view(), client_id) =~= Set::<usize>::empty()) by {
                        assert forall|i: usize| !ids_of_client(self.view(), client_id).contains(i) by {
                            assert(self.listed(client_id, i) <==> (self.id_to_client@.contains_key(i) && self.id_to_client@[i] == client_id));
                        }
                    }
                }
                0
            },
        }
    }
}

} // verus!
