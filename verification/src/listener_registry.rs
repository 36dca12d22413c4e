//! The listeners registered with a transport: the registration under each listener id, the client
//! id that serves each listener id, and the application name of each client id.
use vstd::prelude::*;
use crate::ids::ClientId;
use crate::status::{UCode, UStatus};
use crate::application_registry::{ApplicationName, ApplicationRegistry, one_to_one};
use crate::listener_config::{ListenerConfig, ListenerConfigView, ListenerKey, config_view, config_key};
use crate::bimaps::{
    ListenerConfigMap, listener_config_pairs, configs_new, configs_insert_no_overwrite,
    configs_get_by_left, configs_get_by_right, configs_remove_by_left, configs_left_values,
};
use crate::listener_clients::{ListenerClients, ids_of_client};

verus! {

/// Listener registrations, their client ids and the clients' application names.
pub struct ListenerRegistry {
    listener_id_and_listener_config: ListenerConfigMap,
    listener_clients: ListenerClients,
    client_and_app_name: ApplicationRegistry,
}

impl ListenerRegistry {
    /// The registration under each listener id.
    pub closed spec fn configs(&self) -> Map<usize, ListenerConfigView> {
        listener_config_pairs(self.listener_id_and_listener_config)
    }

    /// The client id of each listener id.
    pub closed spec fn clients(&self) -> Map<usize, ClientId> {
        self.listener_clients.view()
    }

    /// The application name of each client id.
    pub closed spec fn app_names(&self) -> Map<ClientId, Seq<char>> {
        self.client_and_app_name.view()
    }

    /// The registry's own invariant: no registration under two ids, and the two directions of
    /// the client table agree.
    pub closed spec fn wf(&self) -> bool {
        &&& self.listener_clients.wf()
        &&& one_to_one(self.configs())
    }

    /// Nothing registered.
    pub fn new() -> (r: ListenerRegistry)
        ensures
            r.wf(),
            r.configs() == Map::<usize, ListenerConfigView>::empty(),
            r.clients() == Map::<usize, ClientId>::empty(),
            r.app_names() == Map::<ClientId, Seq<char>>::empty(),
    {
        let r = ListenerRegistry {
            listener_id_and_listener_config: configs_new(),
            listener_clients: ListenerClients::new(),
            client_and_app_name: ApplicationRegistry::new(),
        };
        assert(r.configs() =~= Map::<usize, ListenerConfigView>::empty());
        r
    }

    /// Records the client id of a listener id. A listener id that has one keeps it, and the pair
    /// of it and that client id comes back.
    pub fn insert_listener_id_client_id(&mut self, listener_id: usize, client_id: ClientId) -> (r: Option<(usize, ClientId)>)
        requires
            old(self).wf(),
        ensures
            final(self).wf(),
            final(self).configs() == old(self).configs(),
            final(self).app_names() == old(self).app_names(),
            match r {
                Some(pair) => old(self).clients().contains_key(listener_id)
                    && pair == (listener_id, old(self).clients()[listener_id])
                    && final(self).clients() == old(self).clients(),
                None => !old(self).clients().contains_key(listener_id)
                    && final(self).clients() == old(self).clients().insert(listener_id, client_id),
            },
    {
        self.listener_clients.insert(listener_id, client_id)
    }

    /// Removes the registration under a listener id; fails with not-found when there is none.
    pub fn remove_listener_id_and_listener_config_based_on_listener_id(&mut self, listener_id: usize) -> (r: Result<(), UStatus>)
        requires
            old(self).wf(),
        ensures
            final(self).wf(),
            final(self).configs() == old(self).configs().remove(listener_id),
            final(self).clients() == old(self).clients(),
            final(self).app_names() == old(self).app_names(),
            match r {
                Ok(()) => old(self).configs().contains_key(listener_id),
                Err(e) => !old(self).configs().contains_key(listener_id) && e.code == UCode::NOT_FOUND,
            },
    {
        let removed = configs_remove_by_left(&mut self.listener_id_and_listener_config, listener_id);
        assert(one_to_one(self.configs())) by {
            let m = old(self).configs();
            assert(self.configs() == m.remove(listener_id));
        }
        if !removed {
            return Err(UStatus::fail_with_code_and_number(UCode::NOT_FOUND, "No listener_config for listener_id: ", listener_id as u64, ""));
        }
        Ok(())
    }

    /// Removes the client id of a listener id and gives it back.
    pub fn remove_client_id_based_on_listener_id(&mut self, listener_id: usize) -> (r: Option<ClientId>)
        requires
            old(self).wf(),
        ensures
            final(self).wf(),
            final(self).configs() == old(self).configs(),
            final(self).app_names() == old(self).app_names(),
            match r {
                Some(c) => old(self).clients().contains_key(listener_id) && c == old(self).clients()[listener_id]
                    && final(self).clients() == old(self).clients().remove(listener_id),
                None => !old(self).clients().contains_key(listener_id) && final(self).clients() == old(self).clients(),
            },
    {
        self.listener_clients.remove(listener_id)
    }

    /// Records a registration under a listener id; fails with already-exists, and changes
    /// nothing, when either is present.
    pub fn insert_listener_id_and_listener_config(&mut self, listener_id: usize, listener_config: ListenerConfig) -> (r: Result<(), UStatus>)
        requires
            old(self).wf(),
        ensures
            final(self).wf(),
            final(self).clients() == old(self).clients(),
            final(self).app_names() == old(self).app_names(),
            match r {
                Ok(()) => !old(self).configs().contains_key(listener_id)
                    && !old(self).configs().contains_value(config_view(listener_config))
                    && final(self).configs() == old(self).configs().insert(listener_id, config_view(listener_config)),
                Err(e) => (old(self).configs().contains_key(listener_id)
                    || old(self).configs().contains_value(config_view(listener_config)))
                    && final(self).configs() == old(self).configs() && e.code == UCode::ALREADY_EXISTS,
            },
    {
        let key = config_key(&listener_config);
        let inserted = configs_insert_no_overwrite(&mut self.listener_id_and_listener_config, listener_id, key);
        if !inserted {
            return Err(UStatus::fail_with_code(
                UCode::ALREADY_EXISTS,
                "Unable to set_listener_id_and_listener_config, one side or the other already exists",
            ));
        }
        proof {
            let m = old(self).configs();
            let v = config_view(listener_config);
            let after = m.insert(listener_id, v);
            assert forall|a: usize, b: usize| after.contains_key(a) && after.contains_key(b) && a != b implies after[a] != after[b] by {
                if a == listener_id {
                    assert(m.contains_key(b));
                } else if b == listener_id {
                    assert(m.contains_key(a));
                }
            }
        }
        Ok(())
    }

    /// Registers an application name for a client id; fails with already-exists, and changes
    /// nothing, when the client id or the name is registered.
    pub fn insert_client_and_app_name(&mut self, client_id: ClientId, app_name: ApplicationName) -> (r: Result<(), UStatus>)
        requires
            old(self).wf(),
        ensures
            final(self).wf(),
            final(self).configs() == old(self).configs(),
            final(self).clients() == old(self).clients(),
            match r {
                Ok(()) => !old(self).app_names().contains_key(client_id) && !old(self).app_names().contains_value(app_name@)
                    && final(self).app_names() == old(self).app_names().insert(client_id, app_name@),
                Err(e) => (old(self).app_names().contains_key(client_id) || old(self).app_names().contains_value(app_name@))
                    && final(self).app_names() == old(self).app_names() && e.code == UCode::ALREADY_EXISTS,
            },
    {
        self.client_and_app_name.insert_client_and_app_name(client_id, app_name)
    }

    /// Removes the application name of a client id and gives it back.
    pub fn remove_app_name_for_client_id(&mut self, client_id: ClientId) -> (r: Option<ApplicationName>)
        requires
            old(self).wf(),
        ensures
            final(self).wf(),
            final(self).configs() == old(self).configs(),
            final(self).clients() == old(self).clients(),
            match r {
                Some(name) => old(self).app_names().contains_key(client_id) && name@ == old(self).app_names()[client_id]
                    && final(self).app_names() == old(self).app_names().remove(client_id),
                None => !old(self).app_names().contains_key(client_id) && final(self).app_names() == old(self).app_names(),
            },
    {
        self.client_and_app_name.remove_app_name_for_client_id(client_id)
    }

    /// How many listener ids a client id serves.
    pub fn listener_count_for_client_id(&self, client_id: ClientId) -> (r: usize)
        requires
            self.wf(),
        ensures
            r == ids_of_client(self.clients(), client_id).len(),
            ids_of_client(self.clients(), client_id).finite(),
    {
        self.listener_clients.count_for_client(client_id)
    }

    /// The application name of a client id.
    pub fn get_app_name_for_client_id(&self, client_id: ClientId) -> (r: Option<ApplicationName>)
        ensures
            match r {
                Some(name) => self.app_names().contains_key(client_id) && name@ == self.app_names()[client_id],
                None => !self.app_names().contains_key(client_id),
            },
    {
        self.client_and_app_name.get_app_name_for_client_id(client_id)
    }

    /// The application name of the client id that serves a listener id.
    pub fn get_app_name_for_listener_id(&self, listener_id: usize) -> (r: Option<ApplicationName>)
        ensures
            match r {
                Some(name) => self.clients().contains_key(listener_id)
                    && self.app_names().contains_key(self.clients()[listener_id])
                    && name@ == self.app_names()[self.clients()[listener_id]],
                None => !self.clients().contains_key(listener_id)
                    || !self.app_names().contains_key(self.clients()[listener_id]),
            },
    {
        let client_id = match self.listener_clients.client_of(listener_id) {
            Some(c) => c,
            None => {
                return None;
            },
        };
        self.client_and_app_name.get_app_name_for_client_id(client_id)
    }

    /// The listener id under which a registration is recorded.
    pub fn get_listener_id_for_listener_config(&self, listener_config: ListenerConfig) -> (r: Option<usize>)
        ensures
            match r {
                Some(id) => self.configs().contains_key(id) && self.configs()[id] == config_view(listener_config),
                None => !self.configs().contains_value(config_view(listener_config)),
            },
    {
        let key = config_key(&listener_config);
        configs_get_by_right(&self.listener_id_and_listener_config, &key)
    }

    /// The listener of the registration under a listener id.
    pub fn get_listener_for_listener_id(&self, listener_id: usize) -> (r: Option<ListenerKey>)
        ensures
            match r {
                Some(listener) => self.configs().contains_key(listener_id) && listener == self.configs()[listener_id].2,
                None => !self.configs().contains_key(listener_id),
            },
    {
        match configs_get_by_left(&self.listener_id_and_listener_config, listener_id) {
            Some(key) => Some(key.2),
            None => None,
        }
    }

    /// Every listener id with a registration, each once.
    pub fn get_listener_ids(&self) -> (r: Vec<usize>)
        ensures
            r@.no_duplicates(),
            r@.to_set() == self.configs().dom(),
    {
        configs_left_values(&self.listener_id_and_listener_config)
    }
}

/// Recording a registration under a fresh listener id, when that registration is not yet
/// recorded, keeps the registrations one-to-one, makes that id the only one the registration is
/// found under, and removing the id again gives back the registrations as they were.
pub proof fn lemma_registration_round_trip(configs: Map<usize, ListenerConfigView>, listener_id: usize, config: ListenerConfigView)
    requires
        one_to_one(configs),
        !configs.contains_key(listener_id),
        !configs.contains_value(config),
    ensures
        one_to_one(configs.insert(listener_id, config)),
        forall|other: usize| #[trigger] configs.insert(listener_id, config).contains_key(other)
            && configs.insert(listener_id, config)[other] == config ==> other == listener_id,
        configs.insert(listener_id, config).remove(listener_id) == configs,
{
    let after = configs.insert(listener_id, config);
    assert forall|a: usize, b: usize| after.contains_key(a) && after.contains_key(b) && a != b implies after[a] != after[b] by {
        if a == listener_id {
            assert(configs.contains_key(b));
        } else if b == listener_id {
            assert(configs.contains_key(a));
        }
    }
    assert forall|other: usize| #[trigger] after.contains_key(other) && after[other] == config implies other == listener_id by {
        if other != listener_id {
            assert(configs.contains_key(other));
        }
    }
    assert(after.remove(listener_id) =~= configs);
}

} // verus!
