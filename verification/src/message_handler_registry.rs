//! Message handlers: each registration of a listener gets a free callback id from the shared
//! pool, recorded together with the client id of the SOME/IP application that serves it, and
//! gives it back when released. A failed grant leaves every table as it was.
use vstd::prelude::*;
use crate::ids::ClientId;
use crate::status::{UCode, UStatus};
use crate::application_registry::one_to_one;
use crate::listener_config::{
    ListenerConfig, ListenerConfigView, ListenerKey, config_view, config_key, config_of_key,
};
use crate::bimaps::{
    ListenerConfigMap, listener_config_pairs, configs_new, configs_insert_no_overwrite,
    configs_contains_left, configs_contains_right, configs_get_by_left, configs_get_by_right,
    configs_remove_by_left, configs_left_values,
};
use crate::listener_clients::{ListenerClients, ids_of_client};
use crate::extern_fn_registry::ExternFnRegistry;

verus! {

/// Why a message handler could not be granted.
#[derive(Clone, Debug, PartialEq, Eq)]
pub enum GetMessageHandlerError {
    /// The id that the pool handed out has a registration already.
    ListenerIdAlreadyExists(usize),
    /// The registration exists already; carries the id that the pool had handed out.
    ListenerConfigAlreadyExists(usize),
    /// Any other failure, with its status.
    OtherError(UStatus),
}

/// Why a registration could not be recorded under an id.
#[derive(Clone, Copy, Debug, PartialEq, Eq)]
pub enum MessageHandlerIdAndListenerConfigError {
    MessageHandlerIdAlreadyExists(usize),
    ListenerConfigAlreadyExists,
}

/// Whether a client id still serves message handlers after one was released.
#[derive(Clone, Copy, Debug, PartialEq, Eq)]
pub enum ClientUsage {
    ClientIdInUse,
    ClientIdNotInUse(ClientId),
}

/// The tables that granting and releasing message handlers reads and changes: the registration
/// and the client id of each handler id, and the shared pool's free ids and transports.
pub struct HandlerTables<T> {
    pub configs: Map<usize, ListenerConfigView>,
    pub clients: Map<usize, ClientId>,
    pub free: Set<usize>,
    pub transports: Map<usize, T>,
}

/// What the tables keep between calls: each registration under one id only, the same ids with a
/// registration and with a client id, each of them with a transport, none of them free.
pub open spec fn tables_wf<T>(t: HandlerTables<T>) -> bool {
    &&& one_to_one(t.configs)
    &&& t.configs.dom() == t.clients.dom()
    &&& t.configs.dom().subset_of(t.transports.dom())
    &&& t.free.disjoint(t.transports.dom())
}

/// What granting a message handler does. With no free id it fails with resource-exhausted; with
/// the registration present it fails with the id it was handed; otherwise a free id is taken and
/// recorded with the registration, the client id and the transport. A failure changes nothing.
pub open spec fn get_message_handler_post<T>(
    pre: HandlerTables<T>,
    client_id: ClientId,
    transport: T,
    config: ListenerConfigView,
    r: Result<usize, GetMessageHandlerError>,
    post: HandlerTables<T>,
) -> bool {
    if pre.free.is_empty() {
        &&& r matches Err(GetMessageHandlerError::OtherError(s)) && s.code == UCode::RESOURCE_EXHAUSTED
        &&& post == pre
    } else if pre.configs.contains_value(config) {
        &&& r matches Err(GetMessageHandlerError::ListenerConfigAlreadyExists(id)) && pre.free.contains(id)
        &&& post == pre
    } else {
        &&& r matches Ok(id) && pre.free.contains(id) && post == (HandlerTables {
            configs: pre.configs.insert(id, config),
            clients: pre.clients.insert(id, client_id),
            free: pre.free.remove(id),
            transports: pre.transports.insert(id, transport),
        })
    }
}

/// The handler id under which a registration is recorded.
pub open spec fn id_of_config(configs: Map<usize, ListenerConfigView>, config: ListenerConfigView) -> usize {
    choose|id: usize| configs.contains_key(id) && configs[id] == config
}

/// What releasing a registration does. An unknown registration fails with not-found and changes
/// nothing; otherwise its id becomes free and loses its registration, client id and transport,
/// and the answer says whether the client id still serves another handler.
pub open spec fn release_message_handler_post<T>(
    pre: HandlerTables<T>,
    config: ListenerConfigView,
    r: Result<ClientUsage, UStatus>,
    post: HandlerTables<T>,
) -> bool {
    if !pre.configs.contains_value(config) {
        &&& r matches Err(e) && e.code == UCode::NOT_FOUND
        &&& post == pre
    } else {
        let id = id_of_config(pre.configs, config);
        let client_id = pre.clients[id];
        &&& post == (HandlerTables {
            configs: pre.configs.remove(id),
            clients: pre.clients.remove(id),
            free: pre.free.insert(id),
            transports: pre.transports.remove(id),
        })
        &&& r == Ok::<ClientUsage, UStatus>(
            if ids_of_client(post.clients, client_id).is_empty() {
                ClientUsage::ClientIdNotInUse(client_id)
            } else {
                ClientUsage::ClientIdInUse
            },
        )
    }
}

/// The registration and the client id of each message handler id in use by one transport.
pub struct MessageHandlerRegistry {
    message_handler_id_and_listener_config: ListenerConfigMap,
    message_handler_clients: ListenerClients,
}

impl MessageHandlerRegistry {
    /// The registration of each handler id.
    pub closed spec fn configs(&self) -> Map<usize, ListenerConfigView> {
        listener_config_pairs(self.message_handler_id_and_listener_config)
    }

    /// The client id of each handler id.
    pub closed spec fn clients(&self) -> Map<usize, ClientId> {
        self.message_handler_clients.view()
    }

    /// The registry's own invariant.
    pub closed spec fn wf(&self) -> bool {
        &&& self.message_handler_clients.wf()
        &&& one_to_one(self.configs())
        &&& self.configs().dom() == self.clients().dom()
    }

    /// The registry's tables with those of the shared pool.
    pub open spec fn tables<T>(&self, pool: &ExternFnRegistry<T>) -> HandlerTables<T> {
        HandlerTables {
            configs: self.configs(),
            clients: self.clients(),
            free: pool.free_ids(),
            transports: pool.transports(),
        }
    }

    /// Nothing registered.
    pub fn new() -> (r: MessageHandlerRegistry)
        ensures
            r.wf(),
            r.configs() == Map::<usize, ListenerConfigView>::empty(),
            r.clients() == Map::<usize, ClientId>::empty(),
    {
        let r = MessageHandlerRegistry {
            message_handler_id_and_listener_config: configs_new(),
            message_handler_clients: ListenerClients::new(),
        };
        assert(r.configs() =~= Map::<usize, ListenerConfigView>::empty());
        r
    }

    /// Records a registration under an id; refuses, and changes nothing, when the id or the
    /// registration is present.
    fn insert_message_handler_id_and_listener_config(&mut self, message_handler_id: usize, listener_config: &ListenerConfig)
        -> (r: Result<(), MessageHandlerIdAndListenerConfigError>)
        requires
            one_to_one(old(self).configs()),
        ensures
            final(self).clients() == old(self).clients(),
            final(self).message_handler_clients == old(self).message_handler_clients,
            one_to_one(final(self).configs()),
            match r {
                Ok(()) => !old(self).configs().contains_key(message_handler_id)
                    && !old(self).configs().contains_value(config_view(*listener_config))
                    && final(self).configs() == old(self).configs().insert(message_handler_id, config_view(*listener_config)),
                Err(MessageHandlerIdAndListenerConfigError::MessageHandlerIdAlreadyExists(id)) =>
                    id == message_handler_id && old(self).configs().contains_key(message_handler_id)
                    && final(self).configs() == old(self).configs(),
                Err(MessageHandlerIdAndListenerConfigError::ListenerConfigAlreadyExists) =>
                    !old(self).configs().contains_key(message_handler_id)
                    && old(self).configs().contains_value(config_view(*listener_config))
                    && final(self).configs() == old(self).configs(),
            },
    {
        let key = config_key(listener_config);
        let inserted = configs_insert_no_overwrite(&mut self.message_handler_id_and_listener_config, message_handler_id, key);
        if !inserted {
            if configs_contains_left(&self.message_handler_id_and_listener_config, message_handler_id) {
                return Err(MessageHandlerIdAndListenerConfigError::MessageHandlerIdAlreadyExists(message_handler_id));
            }
            let key = config_key(listener_config);
            if configs_contains_right(&self.message_handler_id_and_listener_config, &key) {
                return Err(MessageHandlerIdAndListenerConfigError::ListenerConfigAlreadyExists);
            }
        } else {
            proof {
                lemma_one_to_one_insert(old(self).configs(), message_handler_id, config_view(*listener_config));
            }
        }
        Ok(())
    }

    /// Removes the registration under an id; fails with not-found when there is none.
    fn remove_message_handler_id_and_listener_config_based_on_message_handler_id(&mut self, message_handler_id: usize)
        -> (r: Result<(), UStatus>)
        requires
            one_to_one(old(self).configs()),
        ensures
            final(self).message_handler_clients == old(self).message_handler_clients,
            final(self).configs() == old(self).configs().remove(message_handler_id),
            one_to_one(final(self).configs()),
            match r {
                Ok(()) => old(self).configs().contains_key(message_handler_id),
                Err(e) => !old(self).configs().contains_key(message_handler_id) && e.code == UCode::NOT_FOUND,
            },
    {
        let removed = configs_remove_by_left(&mut self.message_handler_id_and_listener_config, message_handler_id);
        proof {
            lemma_one_to_one_remove(old(self).configs(), message_handler_id);
        }
        if !removed {
            return Err(UStatus::fail_with_code_and_number(UCode::NOT_FOUND, "No listener_config for listener_id: ", message_handler_id as u64, ""));
        }
        Ok(())
    }

    /// The handler id under which a registration is recorded.
    fn get_message_handler_id_for_listener_config(&self, listener_config: &ListenerConfig) -> (r: Option<usize>)
        ensures
            match r {
                Some(id) => self.configs().contains_key(id) && self.configs()[id] == config_view(*listener_config),
                None => !self.configs().contains_value(config_view(*listener_config)),
            },
    {
        let key = config_key(listener_config);
        configs_get_by_right(&self.message_handler_id_and_listener_config, &key)
    }

    /// The listener of the registration under a handler id.
    pub fn get_listener_for_message_handler_id(&self, message_handler_id: usize) -> (r: Option<ListenerKey>)
        ensures
            match r {
                Some(listener) => self.configs().contains_key(message_handler_id)
                    && listener == self.configs()[message_handler_id].2,
                None => !self.configs().contains_key(message_handler_id),
            },
    {
        match configs_get_by_left(&self.message_handler_id_and_listener_config, message_handler_id) {
            Some(key) => Some(key.2),
            None => None,
        }
    }

    /// The registration under a handler id.
    pub fn get_listener_config_for_message_handler_id(&self, message_handler_id: usize) -> (r: Option<ListenerConfig>)
        ensures
            match r {
                Some(c) => self.configs().contains_key(message_handler_id)
                    && config_view(c) == self.configs()[message_handler_id],
                None => !self.configs().contains_key(message_handler_id),
            },
    {
        match configs_get_by_left(&self.message_handler_id_and_listener_config, message_handler_id) {
            Some(key) => Some(config_of_key(&key)),
            None => None,
        }
    }

    /// Every handler id with a registration, each once.
    pub fn get_message_handler_ids(&self) -> (r: Vec<usize>)
        ensures
            r@.no_duplicates(),
            r@.to_set() == self.configs().dom(),
    {
        configs_left_values(&self.message_handler_id_and_listener_config)
    }

    /// Every registration, each once, in the order in which the handler ids are walked.
    pub fn get_all_listener_configs(&self) -> (r: Vec<ListenerConfig>)
        requires
            self.wf(),
        ensures
            r@.map_values(|c: ListenerConfig| config_view(c)).no_duplicates(),
            r@.map_values(|c: ListenerConfig| config_view(c)).to_set() == self.configs().values(),
    {
        let all_message_handler_ids = self.get_message_handler_ids();
        let mut listener_configs: Vec<ListenerConfig> = Vec::new();
        let mut k: usize = 0;
        while k < all_message_handler_ids.len()
            invariant
                self.wf(),
                k <= all_message_handler_ids.len(),
                all_message_handler_ids@.no_duplicates(),
                all_message_handler_ids@.to_set() == self.configs().dom(),
                listener_configs.len() == k,
                forall|i: int| 0 <= i < k ==> #[trigger] config_view(listener_configs@[i])
                    == self.configs()[all_message_handler_ids@[i]],
            decreases all_message_handler_ids.len() - k,
        {
            let message_handler_id = all_message_handler_ids[k];
            assert(all_message_handler_ids@.contains(message_handler_id));
            match self.get_listener_config_for_message_handler_id(message_handler_id) {
                Some(c) => {
                    listener_configs.push(c);
                },
                None => {
                    assert(false);
                },
            }
            k = k + 1;
        }
        proof {
            let views = listener_configs@.map_values(|c: ListenerConfig| config_view(c));
            let ids = all_message_handler_ids@;
            assert forall|i: int, j: int| 0 <= i < views.len() && 0 <= j < views.len() && i != j implies views[i] != views[j] by {
                assert(ids.contains(ids[i]));
                assert(ids.contains(ids[j]));
                assert(config_view(listener_configs@[i]) == self.configs()[ids[i]]);
                assert(config_view(listener_configs@[j]) == self.configs()[ids[j]]);
            }
            assert forall|v: ListenerConfigView| views.to_set().contains(v) == self.configs().values().contains(v) by {
                if views.to_set().contains(v) {
                    let i = choose|i: int| 0 <= i < views.len() && views[i] == v;
                    assert(config_view(listener_configs@[i]) == self.configs()[ids[i]]);
                    assert(ids.contains(ids[i]));
                }
                if self.configs().values().contains(v) {
                    let id = choose|id: usize| self.configs().contains_key(id) && self.configs()[id] == v;
                    assert(ids.to_set().contains(id));
                    let i = choose|i: int| 0 <= i < ids.len() && ids[i] == id;
                    assert(config_view(listener_configs@[i]) == self.configs()[ids[i]]);
                    assert(views[i] == v);
                }
            }
            assert(views.to_set() =~= self.configs().values());
        }
        listener_configs
    }

    /// How many handler ids a client id serves.
    fn message_handler_count_for_client_id(&self, client_id: ClientId) -> (r: usize)
        requires
            self.wf(),
        ensures
            r == ids_of_client(self.clients(), client_id).len(),
            ids_of_client(self.clients(), client_id).finite(),
    {
        self.message_handler_clients.count_for_client(client_id)
    }

    /// Grants a message handler for a registration served by a client id, taking a free id from
    /// the shared pool and recording the transport with it; see `get_message_handler_post`.
    pub fn get_message_handler<T>(
        &mut self,
        pool: &mut ExternFnRegistry<T>,
        client_id: ClientId,
        transport_storage: T,
        listener_config: ListenerConfig,
    ) -> (r: Result<usize, GetMessageHandlerError>)
        requires
            old(self).wf(),
            tables_wf(old(self).tables(&*old(pool))),
        ensures
            final(self).wf(),
            tables_wf(final(self).tables(&*final(pool))),
            get_message_handler_post(
                old(self).tables(&*old(pool)),
                client_id,
                transport_storage,
                config_view(listener_config),
                r,
                final(self).tables(&*final(pool)),
            ),
    {
        let ghost pre = old(self).tables(&*old(pool));
        let message_handler_id = match pool.find_available_listener_id() {
            Ok(id) => id,
            Err(_) => {
                let r = Err(GetMessageHandlerError::OtherError(
                    UStatus::fail_with_code(UCode::RESOURCE_EXHAUSTED, "No more available extern fns"),
                ));
                assert(self.tables(&*pool) == pre);
                return r;
            },
        };
        let ghost taken = pool.free_ids();

        match pool.insert_listener_id_transport(message_handler_id, transport_storage) {
            Ok(()) => {},
            Err(err) => {
                let _ = pool.free_listener_id(message_handler_id);
                assert(false);
                return Err(GetMessageHandlerError::OtherError(err));
            },
        }

        match self.message_handler_clients.insert(message_handler_id, client_id) {
            Some(_previous_entry) => {
                let _ = pool.free_listener_id(message_handler_id);
                let _ = pool.remove_listener_id_transport(message_handler_id);
                assert(false);
                return Err(GetMessageHandlerError::OtherError(
                    UStatus::fail_with_code(UCode::ALREADY_EXISTS, "We already had used that listener_id with a client_id"),
                ));
            },
            None => {},
        }

        match self.insert_message_handler_id_and_listener_config(message_handler_id, &listener_config) {
            Ok(()) => {},
            Err(err) => {
                let _ = pool.free_listener_id(message_handler_id);
                let _ = pool.remove_listener_id_transport(message_handler_id);
                let _ = self.message_handler_clients.remove(message_handler_id);
                proof {
                    assert(pool.free_ids() =~= pre.free);
                    assert(pool.transports() =~= pre.transports);
                    assert(self.clients() =~= pre.clients);
                }
                return Err(match err {
                    MessageHandlerIdAndListenerConfigError::MessageHandlerIdAlreadyExists(listener_id) =>
                        GetMessageHandlerError::ListenerIdAlreadyExists(listener_id),
                    MessageHandlerIdAndListenerConfigError::ListenerConfigAlreadyExists =>
                        GetMessageHandlerError::ListenerConfigAlreadyExists(message_handler_id),
                });
            },
        }
        proof {
            assert(self.configs().dom() =~= self.clients().dom());
        }
        Ok(message_handler_id)
    }

    /// Releases the message handler of a registration and gives its id back to the shared pool;
    /// see `release_message_handler_post`.
    pub fn release_message_handler<T>(&mut self, pool: &mut ExternFnRegistry<T>, listener_config: ListenerConfig)
        -> (r: Result<ClientUsage, UStatus>)
        requires
            old(self).wf(),
            tables_wf(old(self).tables(&*old(pool))),
        ensures
            final(self).wf(),
            tables_wf(final(self).tables(&*final(pool))),
            release_message_handler_post(
                old(self).tables(&*old(pool)),
                config_view(listener_config),
                r,
                final(self).tables(&*final(pool)),
            ),
    {
        let ghost pre = old(self).tables(&*old(pool));
        let message_handler_id = match self.get_message_handler_id_for_listener_config(&listener_config) {
            Some(id) => id,
            None => {
                return Err(UStatus::fail_with_code(UCode::NOT_FOUND, "No listener_id for listener_config"));
            },
        };
        proof {
            let chosen = id_of_config(pre.configs, config_view(listener_config));
            assert(pre.configs.contains_key(chosen) && pre.configs[chosen] == config_view(listener_config));
            assert(chosen == message_handler_id);
        }

        let _ = pool.free_listener_id(message_handler_id);
        let _ = pool.remove_listener_id_transport(message_handler_id);
        let _ = self.remove_message_handler_id_and_listener_config_based_on_message_handler_id(message_handler_id);

        let client_id = match self.message_handler_clients.remove(message_handler_id) {
            None => {
                assert(false);
                return Err(UStatus::fail_with_code(UCode::NOT_FOUND, "No client_id found to remove for listener_id"));
            },
            Some(client_id) => client_id,
        };
        proof {
            assert(self.configs().dom() =~= self.clients().dom());
        }

        if self.message_handler_count_for_client_id(client_id) == 0 {
            Ok(ClientUsage::ClientIdNotInUse(client_id))
        } else {
            Ok(ClientUsage::ClientIdInUse)
        }
    }
}

/// Granting a message handler for a registration and then releasing that registration leaves
/// the registry and the shared pool as they were; the release reports the client id as no longer
/// in use exactly when it served no handler before the grant.
pub proof fn lemma_release_undoes_get<T>(
    pre: HandlerTables<T>,
    mid: HandlerTables<T>,
    post: HandlerTables<T>,
    client_id: ClientId,
    transport: T,
    config: ListenerConfigView,
    id: usize,
    usage: Result<ClientUsage, UStatus>,
)
    requires
        tables_wf(pre),
        get_message_handler_post(pre, client_id, transport, config, Ok(id), mid),
        release_message_handler_post(mid, config, usage, post),
    ensures
        post == pre,
        usage == Ok::<ClientUsage, UStatus>(
            if ids_of_client(pre.clients, client_id).is_empty() {
                ClientUsage::ClientIdNotInUse(client_id)
            } else {
                ClientUsage::ClientIdInUse
            },
        ),
{
    assert(!pre.transports.contains_key(id));
    assert(!pre.configs.contains_key(id));
    assert(!pre.clients.contains_key(id));
    lemma_one_to_one_insert(pre.configs, id, config);
    assert(mid.configs.contains_key(id) && mid.configs[id] == config);
    let chosen = id_of_config(mid.configs, config);
    assert(chosen == id);
    assert(post.configs =~= pre.configs);
    assert(post.clients =~= pre.clients);
    assert(post.free =~= pre.free);
    assert(post.transports =~= pre.transports);
}

/// Granting a second message handler for a registration that has one fails, and changes nothing.
pub proof fn lemma_second_grant_refused<T>(
    pre: HandlerTables<T>,
    mid: HandlerTables<T>,
    post: HandlerTables<T>,
    client_id: ClientId,
    other_client_id: ClientId,
    transport: T,
    other_transport: T,
    config: ListenerConfigView,
    id: usize,
    second: Result<usize, GetMessageHandlerError>,
)
    requires
        get_message_handler_post(pre, client_id, transport, config, Ok(id), mid),
        get_message_handler_post(mid, other_client_id, other_transport, config, second, post),
    ensures
        second is Err,
        post == mid,
{
    assert(mid.configs.contains_key(id) && mid.configs[id] == config);
}

proof fn lemma_one_to_one_insert(m: Map<usize, ListenerConfigView>, id: usize, v: ListenerConfigView)
    requires
        one_to_one(m),
        !m.contains_value(v),
    ensures
        one_to_one(m.insert(id, v)),
{
    let after = m.insert(id, v);
    assert forall|a: usize, b: usize| after.contains_key(a) && after.contains_key(b) && a != b implies after[a] != after[b] by {
        if a == id {
            assert(m.contains_key(b));
        } else if b == id {
            assert(m.contains_key(a));
        }
    }
}

proof fn lemma_one_to_one_remove(m: Map<usize, ListenerConfigView>, id: usize)
    requires
        one_to_one(m),
    ensures
        one_to_one(m.remove(id)),
{
}

} // verus!
