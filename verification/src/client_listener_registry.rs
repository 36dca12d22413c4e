//! The tables of the SOME/IP client that tie listeners to callback ids: which ids are free, the
//! id of each registration, the listener, client id and authority names of each id, and the
//! application name of each client id; with the steps that registering and unregistering a
//! listener take on them.
use vstd::prelude::*;
use std::collections::{HashMap, HashSet};
use crate::ids::ClientId;
use crate::status::{UCode, UStatus};
use crate::uri::{UUri, any_uuri, clone_uri, wildcard_authority, WILDCARD_UE_VERSION_MAJOR, WILDCARD_RESOURCE_ID};
use crate::listener_config::{ListenerConfig, ListenerConfigKey, ListenerConfigView, ListenerKey,
    config_view, config_key, config_key_view};
use crate::determinations::RegistrationType;

verus! {

broadcast use vstd::std_specs::hash::group_hash_axioms;

/// How many callback ids the client has.
pub const CLIENT_EXTERN_FN_COUNT: usize = 1000;

/// Whether no two entries have the same registration.
pub open spec fn keys_unique(s: Seq<(ListenerConfigKey, usize)>) -> bool {
    forall|i: int, j: int| 0 <= i < s.len() && 0 <= j < s.len() && i != j
        ==> config_key_view(#[trigger] s[i].0) != config_key_view(#[trigger] s[j].0)
}

/// Whether an entry has the registration.
pub open spec fn has_key(s: Seq<(ListenerConfigKey, usize)>, k: ListenerConfigView) -> bool {
    exists|i: int| 0 <= i < s.len() && config_key_view(#[trigger] s[i].0) == k
}

/// The id of the entry with the registration.
pub open spec fn value_of(s: Seq<(ListenerConfigKey, usize)>, k: ListenerConfigView) -> usize {
    s[choose|i: int| 0 <= i < s.len() && config_key_view(#[trigger] s[i].0) == k].1
}

proof fn lemma_value_at(s: Seq<(ListenerConfigKey, usize)>, k: ListenerConfigView, j: int)
    requires
        keys_unique(s),
        0 <= j < s.len(),
        config_key_view(s[j].0) == k,
    ensures
        has_key(s, k),
        value_of(s, k) == s[j].1,
{
    let c = choose|i: int| 0 <= i < s.len() && config_key_view(#[trigger] s[i].0) == k;
    assert(0 <= c < s.len() && config_key_view(s[c].0) == k);
    if c != j {
        assert(config_key_view(s[c].0) != config_key_view(s[j].0));
    }
}

fn key_eq(a: &ListenerConfigKey, b: &ListenerConfigKey) -> (r: bool)
    ensures
        r == (config_key_view(*a) == config_key_view(*b)),
{
    let sources = a.0.0 == b.0.0 && a.0.1 == b.0.1 && a.0.2 == b.0.2 && a.0.3 == b.0.3;
    let sinks = match (&a.1, &b.1) {
        (None, None) => true,
        (Some(x), Some(y)) => x.0 == y.0 && x.1 == y.1 && x.2 == y.2 && x.3 == y.3,
        _ => false,
    };
    sources && sinks && a.2 == b.2
}

/// The id of each registration.
pub struct ConfigIdMap {
    entries: Vec<(ListenerConfigKey, usize)>,
}

impl ConfigIdMap {
    /// No registration twice.
    pub closed spec fn wf(&self) -> bool {
        keys_unique(self.entries@)
    }

    /// The id of each registration.
    pub closed spec fn view(&self) -> Map<ListenerConfigView, usize> {
        Map::new(|k: ListenerConfigView| has_key(self.entries@, k), |k: ListenerConfigView| value_of(self.entries@, k))
    }

    /// No registration.
    pub fn new() -> (r: ConfigIdMap)
        ensures
            r.wf(),
            r.view() == Map::<ListenerConfigView, usize>::empty(),
    {
        let r = ConfigIdMap { entries: Vec::new() };
        assert(r.view() =~= Map::<ListenerConfigView, usize>::empty());
        r
    }

    fn find(&self, key: &ListenerConfigKey) -> (r: Option<usize>)
        requires
            self.wf(),
        ensures
            match r {
                Some(i) => i < self.entries@.len() && config_key_view(self.entries@[i as int].0) == config_key_view(*key),
                None => !has_key(self.entries@, config_key_view(*key)),
            },
    {
        let mut i: usize = 0;
        while i < self.entries.len()
            invariant
                i <= self.entries@.len(),
                forall|j: int| 0 <= j < i ==> config_key_view(#[trigger] self.entries@[j].0) != config_key_view(*key),
            decreases self.entries@.len() - i,
        {
            if key_eq(&self.entries[i].0, key) {
                return Some(i);
            }
            i = i + 1;
        }
        None
    }

    /// The id of a registration.
    pub fn get(&self, key: &ListenerConfigKey) -> (r: Option<usize>)
        requires
            self.wf(),
        ensures
            match r {
                Some(id) => self.view().contains_key(config_key_view(*key)) && id == self.view()[config_key_view(*key)],
                None => !self.view().contains_key(config_key_view(*key)),
            },
    {
        match self.find(key) {
            Some(i) => {
                proof {
                    lemma_value_at(self.entries@, config_key_view(*key), i as int);
                }
                Some(self.entries[i].1)
            },
            None => None,
        }
    }

    /// Records the id of a registration, replacing and giving back an id recorded before.
    pub fn insert(&mut self, key: ListenerConfigKey, id: usize) -> (r: Option<usize>)
        requires
            old(self).wf(),
        ensures
            final(self).wf(),
            final(self).view() == old(self).view().insert(config_key_view(key), id),
            match r {
                Some(previous) => old(self).view().contains_key(config_key_view(key))
                    && previous == old(self).view()[config_key_view(key)],
                None => !old(self).view().contains_key(config_key_view(key)),
            },
    {
        let ghost k = config_key_view(key);
        let found = self.find(&key);
        let previous = match found {
            Some(i) => {
                proof {
                    lemma_value_at(old(self).entries@, k, i as int);
                }
                let removed = self.entries.remove(i);
                Some(removed.1)
            },
            None => None,
        };
        let ghost mid = self.entries@;
        self.entries.push((key, id));
        proof {
            let s = self.entries@;
            let o = old(self).entries@;
            assert forall|a: int, b: int| 0 <= a < s.len() && 0 <= b < s.len() && a != b
                implies config_key_view(#[trigger] s[a].0) != config_key_view(#[trigger] s[b].0) by {
                if a == s.len() - 1 || b == s.len() - 1 {
                    let other = if a == s.len() - 1 { b } else { a };
                    match found {
                        Some(i) => {
                            let oi = if other < i { other } else { other + 1 };
                            assert(s[other] == o[oi]);
                            assert(config_key_view(o[oi].0) != config_key_view(o[i as int].0));
                        },
                        None => {
                            assert(s[other] == o[other]);
                        },
                    }
                } else {
                    match found {
                        Some(i) => {
                            let oa = if a < i { a } else { a + 1 };
                            let ob = if b < i { b } else { b + 1 };
                            assert(s[a] == o[oa] && s[b] == o[ob]);
                        },
                        None => {
                            assert(s[a] == o[a] && s[b] == o[b]);
                        },
                    }
                }
            }
            assert forall|q: ListenerConfigView| #[trigger] has_key(s, q) == old(self).view().insert(k, id).contains_key(q) by {
                if q != k {
                    if has_key(s, q) {
                        let w = choose|w: int| 0 <= w < s.len() && config_key_view(#[trigger] s[w].0) == q;
                        if w < s.len() - 1 {
                            match found {
                                Some(i) => {
                                    let ow = if w < i { w } else { w + 1 };
                                    assert(s[w] == o[ow]);
                                },
                                None => {
                                    assert(s[w] == o[w]);
                                },
                            }
                        }
                    }
                    if has_key(o, q) {
                        let w = choose|w: int| 0 <= w < o.len() && config_key_view(#[trigger] o[w].0) == q;
                        match found {
                            Some(i) => {
                                assert(w != i);
                                let sw = if w < i { w } else { w - 1 };
                                assert(s[sw] == o[w]);
                            },
                            None => {
                                assert(s[w] == o[w]);
                            },
                        }
                    }
                } else {
                    assert(config_key_view(s[s.len() - 1].0) == k);
                }
            }
            assert forall|q: ListenerConfigView| #[trigger] has_key(s, q) implies value_of(s, q)
                == old(self).view().insert(k, id)[q] by {
                let w = choose|w: int| 0 <= w < s.len() && config_key_view(#[trigger] s[w].0) == q;
                lemma_value_at(s, q, w);
                if q == k {
                    lemma_value_at(s, q, s.len() - 1);
                } else {
                    assert(w < s.len() - 1) by {
                        if w == s.len() - 1 {
                            assert(config_key_view(s[w].0) == k);
                        }
                    }
                    match found {
                        Some(i) => {
                            let ow = if w < i { w } else { w + 1 };
                            assert(s[w] == o[ow]);
                            lemma_value_at(o, q, ow);
                        },
                        None => {
                            assert(s[w] == o[w]);
                            lemma_value_at(o, q, w);
                        },
                    }
                }
            }
            assert(self.view() =~= old(self).view().insert(k, id));
        }
        previous
    }

    /// Removes the id of a registration and gives it back.
    pub fn remove(&mut self, key: &ListenerConfigKey) -> (r: Option<usize>)
        requires
            old(self).wf(),
        ensures
            final(self).wf(),
            final(self).view() == old(self).view().remove(config_key_view(*key)),
            match r {
                Some(id) => old(self).view().contains_key(config_key_view(*key))
                    && id == old(self).view()[config_key_view(*key)],
                None => !old(self).view().contains_key(config_key_view(*key)),
            },
    {
        let ghost k = config_key_view(*key);
        match self.find(key) {
            Some(i) => {
                proof {
                    lemma_value_at(old(self).entries@, k, i as int);
                }
                let removed = self.entries.remove(i);
                proof {
                    let s = self.entries@;
                    let o = old(self).entries@;
                    assert forall|a: int, b: int| 0 <= a < s.len() && 0 <= b < s.len() && a != b
                        implies config_key_view(#[trigger] s[a].0) != config_key_view(#[trigger] s[b].0) by {
                        let oa = if a < i { a } else { a + 1 };
                        let ob = if b < i { b } else { b + 1 };
                        assert(s[a] == o[oa] && s[b] == o[ob]);
                    }
                    assert forall|q: ListenerConfigView| #[trigger] has_key(s, q) == old(self).view().remove(k).contains_key(q) by {
                        if has_key(s, q) {
                            let w = choose|w: int| 0 <= w < s.len() && config_key_view(#[trigger] s[w].0) == q;
                            let ow = if w < i { w } else { w + 1 };
                            assert(s[w] == o[ow]);
                            assert(ow != i);
                        }
                        if q != k && has_key(o, q) {
                            let w = choose|w: int| 0 <= w < o.len() && config_key_view(#[trigger] o[w].0) == q;
                            assert(w != i);
                            let sw = if w < i { w } else { w - 1 };
                            assert(s[sw] == o[w]);
                        }
                    }
                    assert forall|q: ListenerConfigView| #[trigger] has_key(s, q) implies value_of(s, q)
                        == old(self).view().remove(k)[q] by {
                        let w = choose|w: int| 0 <= w < s.len() && config_key_view(#[trigger] s[w].0) == q;
                        lemma_value_at(s, q, w);
                        let ow = if w < i { w } else { w + 1 };
                        assert(s[w] == o[ow]);
                        lemma_value_at(o, q, ow);
                    }
                    assert(self.view() =~= old(self).view().remove(k));
                }
                Some(removed.1)
            },
            None => {
                assert(self.view() =~= old(self).view().remove(k));
                None
            },
        }
    }
}

/// What registering a listener left for the caller to do: the callback id it was given and the
/// client id that serves it, and whether that client has no application yet.
#[derive(Clone, Copy, Debug, PartialEq, Eq)]
pub struct ClientRegistration {
    pub listener_id: usize,
    pub client_id: ClientId,
    pub needs_application: bool,
}

/// The client's tables of listeners and applications.
pub struct ClientListenerTables {
    free_listener_ids: HashSet<usize>,
    listener_id_map: ConfigIdMap,
    listener_registry: HashMap<usize, ListenerKey>,
    listener_client_id_mapping: HashMap<usize, ClientId>,
    client_id_app_mapping: HashMap<ClientId, String>,
    listener_id_authority_name: HashMap<usize, String>,
    listener_id_remote_authority_name: HashMap<usize, String>,
}

impl ClientListenerTables {
    /// The callback ids that are free.
    pub closed spec fn free_ids(&self) -> Set<usize> {
        self.free_listener_ids@
    }

    /// The callback id of each registration.
    pub closed spec fn ids(&self) -> Map<ListenerConfigView, usize> {
        self.listener_id_map.view()
    }

    /// The listener of each callback id.
    pub closed spec fn listeners(&self) -> Map<usize, ListenerKey> {
        self.listener_registry@
    }

    /// The client id of each callback id.
    pub closed spec fn listener_clients(&self) -> Map<usize, ClientId> {
        self.listener_client_id_mapping@
    }

    /// The application name of each client id.
    pub closed spec fn app_names(&self) -> Map<ClientId, Seq<char>> {
        self.client_id_app_mapping@.map_values(|name: String| name@)
    }

    /// The authority name of each callback id.
    pub closed spec fn authority_names(&self) -> Map<usize, Seq<char>> {
        self.listener_id_authority_name@.map_values(|name: String| name@)
    }

    /// The remote authority name of each callback id.
    pub closed spec fn remote_authority_names(&self) -> Map<usize, Seq<char>> {
        self.listener_id_remote_authority_name@.map_values(|name: String| name@)
    }

    /// The tables' own invariant.
    pub closed spec fn wf(&self) -> bool {
        self.listener_id_map.wf()
    }

    /// Every callback id free, nothing recorded.
    pub fn new() -> (r: ClientListenerTables)
        ensures
            r.wf(),
            r.free_ids() == Set::new(|id: usize| id < CLIENT_EXTERN_FN_COUNT),
            r.ids() == Map::<ListenerConfigView, usize>::empty(),
            r.listeners() == Map::<usize, ListenerKey>::empty(),
            r.listener_clients() == Map::<usize, ClientId>::empty(),
            r.app_names() == Map::<ClientId, Seq<char>>::empty(),
            r.authority_names() == Map::<usize, Seq<char>>::empty(),
            r.remote_authority_names() == Map::<usize, Seq<char>>::empty(),
    {
        let mut free_listener_ids: HashSet<usize> = HashSet::new();
        let mut next: usize = 0;
        while next < CLIENT_EXTERN_FN_COUNT
            invariant
                next <= CLIENT_EXTERN_FN_COUNT,
                free_listener_ids@ == Set::new(|id: usize| id < next),
            decreases CLIENT_EXTERN_FN_COUNT - next,
        {
            free_listener_ids.insert(next);
            next = next + 1;
            assert(free_listener_ids@ =~= Set::new(|id: usize| id < next));
        }
        let r = ClientListenerTables {
            free_listener_ids,
            listener_id_map: ConfigIdMap::new(),
            listener_registry: HashMap::new(),
            listener_client_id_mapping: HashMap::new(),
            client_id_app_mapping: HashMap::new(),
            listener_id_authority_name: HashMap::new(),
            listener_id_remote_authority_name: HashMap::new(),
        };
        assert(r.app_names() =~= Map::<ClientId, Seq<char>>::empty());
        assert(r.authority_names() =~= Map::<usize, Seq<char>>::empty());
        assert(r.remote_authority_names() =~= Map::<usize, Seq<char>>::empty());
        r
    }

    /// Takes a free callback id; which one is left to the order in which the free ids are walked.
    /// Fails with resource-exhausted, and changes nothing, when none is free.
    pub fn find_available_listener_id(&mut self) -> (r: Result<usize, UStatus>)
        ensures
            final(self).wf() == old(self).wf(),
            final(self).ids() == old(self).ids(),
            final(self).listeners() == old(self).listeners(),
            final(self).listener_clients() == old(self).listener_clients(),
            final(self).app_names() == old(self).app_names(),
            final(self).authority_names() == old(self).authority_names(),
            final(self).remote_authority_names() == old(self).remote_authority_names(),
            match r {
                Ok(id) => old(self).free_ids().contains(id) && final(self).free_ids() == old(self).free_ids().remove(id),
                Err(e) => old(self).free_ids().is_empty() && final(self).free_ids() == old(self).free_ids()
                    && e.code == UCode::RESOURCE_EXHAUSTED,
            },
    {
        let mut found: Option<usize> = None;
        for id in walk: self.free_listener_ids.iter()
            invariant_except_break
                found is None,
                walk.index() == 0,
            ensures
                found matches Some(id) ==> self.free_listener_ids@.contains(id),
                found is None ==> self.free_listener_ids@.is_empty(),
        {
            proof {
                assert(walk.seq().unref().contains(*id));
            }
            found = Some(*id);
            break;
        }
        match found {
            Some(id) => {
                self.free_listener_ids.remove(&id);
                Ok(id)
            },
            None => Err(UStatus::fail_with_code(UCode::RESOURCE_EXHAUSTED, "No more extern C fns available")),
        }
    }

    /// Makes a callback id free again, for a registration that exists already, and answers with
    /// the already-exists status that reports it.
    pub fn free_listener_id(&mut self, listener_id: usize) -> (r: UStatus)
        ensures
            r.code == UCode::ALREADY_EXISTS,
            final(self).free_ids() == old(self).free_ids().insert(listener_id),
            final(self).wf() == old(self).wf(),
            final(self).ids() == old(self).ids(),
            final(self).listeners() == old(self).listeners(),
            final(self).listener_clients() == old(self).listener_clients(),
            final(self).app_names() == old(self).app_names(),
    {
        self.free_listener_ids.insert(listener_id);
        UStatus::fail_with_code(UCode::ALREADY_EXISTS, "Already have registered with this source, sink and listener")
    }

    /// Records the callback id of a registration, then the authority and remote authority names
    /// of the id. Each step replaces what was recorded before; the first step that replaced
    /// something ends the insertion, and then the answer is false.
    pub fn insert_into_listener_id_map(
        &mut self,
        authority_name: &String,
        remote_authority_name: &String,
        key: &ListenerConfig,
        listener_id: usize,
    ) -> (r: bool)
        requires
            old(self).wf(),
        ensures
            final(self).wf(),
            final(self).free_ids() == old(self).free_ids(),
            final(self).listeners() == old(self).listeners(),
            final(self).listener_clients() == old(self).listener_clients(),
            final(self).app_names() == old(self).app_names(),
            final(self).ids() == old(self).ids().insert(config_view(*key), listener_id),
            if old(self).ids().contains_key(config_view(*key)) {
                &&& !r
                &&& final(self).authority_names() == old(self).authority_names()
                &&& final(self).remote_authority_names() == old(self).remote_authority_names()
            } else if old(self).authority_names().contains_key(listener_id) {
                &&& !r
                &&& final(self).authority_names() == old(self).authority_names().insert(listener_id, authority_name@)
                &&& final(self).remote_authority_names() == old(self).remote_authority_names()
            } else {
                &&& r == !old(self).remote_authority_names().contains_key(listener_id)
                &&& final(self).authority_names() == old(self).authority_names().insert(listener_id, authority_name@)
                &&& final(self).remote_authority_names() == old(self).remote_authority_names().insert(listener_id, remote_authority_name@)
            },
    {
        if self.listener_id_map.insert(config_key(key), listener_id).is_some() {
            return false;
        }
        let previous_authority = self.listener_id_authority_name.insert(listener_id, authority_name.clone());
        proof {
            assert(self.authority_names() =~= old(self).authority_names().insert(listener_id, authority_name@));
        }
        if previous_authority.is_some() {
            return false;
        }
        let previous_remote = self.listener_id_remote_authority_name.insert(listener_id, remote_authority_name.clone());
        proof {
            assert(self.remote_authority_names() =~= old(self).remote_authority_names().insert(listener_id, remote_authority_name@));
        }
        previous_remote.is_none()
    }

    /// The application name of a client id; fails with not-found when there is none.
    pub fn find_app_name(&self, client_id: ClientId) -> (r: Result<String, UStatus>)
        ensures
            match r {
                Ok(name) => self.app_names().contains_key(client_id) && name@ == self.app_names()[client_id],
                Err(e) => !self.app_names().contains_key(client_id) && e.code == UCode::NOT_FOUND,
            },
    {
        match self.client_id_app_mapping.get(&client_id) {
            Some(name) => Ok(name.clone()),
            None => Err(UStatus::fail_with_code_and_number(UCode::NOT_FOUND, "There was no app_name found for client_id: ", client_id as u64, "")),
        }
    }

    /// Records the application that was started for a client id under its name; fails with
    /// already-exists, and changes nothing, when the client id has an application.
    pub fn record_application(&mut self, client_id: ClientId, app_name: String) -> (r: Result<(), UStatus>)
        requires
            old(self).wf(),
        ensures
            final(self).wf(),
            final(self).free_ids() == old(self).free_ids(),
            final(self).ids() == old(self).ids(),
            final(self).listeners() == old(self).listeners(),
            final(self).listener_clients() == old(self).listener_clients(),
            final(self).authority_names() == old(self).authority_names(),
            final(self).remote_authority_names() == old(self).remote_authority_names(),
            match r {
                Ok(()) => !old(self).app_names().contains_key(client_id)
                    && final(self).app_names() == old(self).app_names().insert(client_id, app_name@),
                Err(e) => old(self).app_names().contains_key(client_id) && e.code == UCode::ALREADY_EXISTS
                    && final(self).app_names() == old(self).app_names(),
            },
    {
        if self.client_id_app_mapping.contains_key(&client_id) {
            return Err(UStatus::fail_with_code(UCode::ALREADY_EXISTS, "Application already exists for client_id"));
        }
        let ghost name = app_name@;
        self.client_id_app_mapping.insert(client_id, app_name);
        proof {
            assert(self.app_names() =~= old(self).app_names().insert(client_id, name));
        }
        Ok(())
    }

    /// The application name of the client id that serves a callback id.
    pub fn app_name_for_listener(&self, listener_id: usize) -> (r: Option<String>)
        ensures
            match r {
                Some(name) => self.listener_clients().contains_key(listener_id)
                    && self.app_names().contains_key(self.listener_clients()[listener_id])
                    && name@ == self.app_names()[self.listener_clients()[listener_id]],
                None => !self.listener_clients().contains_key(listener_id)
                    || !self.app_names().contains_key(self.listener_clients()[listener_id]),
            },
    {
        let client_id = match self.listener_client_id_mapping.get(&listener_id) {
            Some(c) => *c,
            None => {
                return None;
            },
        };
        match self.client_id_app_mapping.get(&client_id) {
            Some(name) => Some(name.clone()),
            None => None,
        }
    }

    /// The listener recorded under a callback id.
    pub fn listener_of(&self, listener_id: usize) -> (r: Option<ListenerKey>)
        ensures
            match r {
                Some(l) => self.listeners().contains_key(listener_id) && l == self.listeners()[listener_id],
                None => !self.listeners().contains_key(listener_id),
            },
    {
        match self.listener_registry.get(&listener_id) {
            Some(l) => Some(*l),
            None => None,
        }
    }

    /// Gives a listener's registration a callback id: takes a free id, records it for the
    /// registration, records the listener and the serving client id under it, and says whether
    /// that client has no application yet; once that application is started,
    /// `record_application` records its name. Fails with resource-exhausted, and changes nothing,
    /// when no id is free.
    pub fn register_listener_tables(&mut self, registration_type: RegistrationType, key: &ListenerConfig)
        -> (r: Result<ClientRegistration, UStatus>)
        requires
            old(self).wf(),
        ensures
            final(self).wf(),
            final(self).app_names() == old(self).app_names(),
            final(self).authority_names() == old(self).authority_names(),
            final(self).remote_authority_names() == old(self).remote_authority_names(),
            match r {
                Ok(reg) => {
                    &&& old(self).free_ids().contains(reg.listener_id)
                    &&& reg.client_id == registration_type.spec_client_id()
                    &&& reg.needs_application == !old(self).app_names().contains_key(reg.client_id)
                    &&& final(self).free_ids() == old(self).free_ids().remove(reg.listener_id)
                    &&& final(self).ids() == old(self).ids().insert(config_view(*key), reg.listener_id)
                    &&& final(self).listeners() == old(self).listeners().insert(reg.listener_id, key.2)
                    &&& final(self).listener_clients() == old(self).listener_clients().insert(reg.listener_id, reg.client_id)
                },
                Err(e) => {
                    &&& e.code == UCode::RESOURCE_EXHAUSTED && old(self).free_ids().is_empty()
                    &&& final(self).free_ids() == old(self).free_ids()
                    &&& final(self).ids() == old(self).ids()
                    &&& final(self).listeners() == old(self).listeners()
                    &&& final(self).listener_clients() == old(self).listener_clients()
                },
            },
    {
        let listener_id = self.find_available_listener_id()?;
        self.listener_id_map.insert(config_key(key), listener_id);
        self.listener_registry.insert(listener_id, key.2);
        let client_id = registration_type.client_id();
        let needs_application = !self.client_id_app_mapping.contains_key(&client_id);
        assert(needs_application == !self.app_names().contains_key(client_id));
        self.listener_client_id_mapping.insert(listener_id, client_id);
        Ok(ClientRegistration { listener_id, client_id, needs_application })
    }

    /// Gives the point-to-point listener's registration for one application a callback id: takes
    /// a free id, records it for the registration and the listener under it, and records the
    /// application's client id under it when the application was started. Fails with
    /// resource-exhausted, and changes nothing, when no id is free.
    pub fn register_point_to_point_app(&mut self, key: &ListenerConfig, app_client_id: ClientId, app_started: bool)
        -> (r: Result<usize, UStatus>)
        requires
            old(self).wf(),
        ensures
            final(self).wf(),
            final(self).app_names() == old(self).app_names(),
            final(self).authority_names() == old(self).authority_names(),
            final(self).remote_authority_names() == old(self).remote_authority_names(),
            match r {
                Ok(id) => {
                    &&& old(self).free_ids().contains(id)
                    &&& final(self).free_ids() == old(self).free_ids().remove(id)
                    &&& final(self).ids() == old(self).ids().insert(config_view(*key), id)
                    &&& final(self).listeners() == old(self).listeners().insert(id, key.2)
                    &&& final(self).listener_clients() == if app_started {
                        old(self).listener_clients().insert(id, app_client_id)
                    } else {
                        old(self).listener_clients()
                    }
                },
                Err(e) => {
                    &&& e.code == UCode::RESOURCE_EXHAUSTED && old(self).free_ids().is_empty()
                    &&& final(self).free_ids() == old(self).free_ids()
                    &&& final(self).ids() == old(self).ids()
                    &&& final(self).listeners() == old(self).listeners()
                    &&& final(self).listener_clients() == old(self).listener_clients()
                },
            },
    {
        let listener_id = self.find_available_listener_id()?;
        self.listener_id_map.insert(config_key(key), listener_id);
        self.listener_registry.insert(listener_id, key.2);
        if app_started {
            self.listener_client_id_mapping.insert(listener_id, app_client_id);
        }
        Ok(listener_id)
    }

    /// Unregisters a listener's registration served by a client id: its callback id becomes free
    /// and loses its listener and client id, and the client id loses its application name. Fails
    /// with internal, and changes nothing, when the registration has no callback id.
    pub fn unregister_listener_tables(&mut self, key: &ListenerConfig, client_id: ClientId) -> (r: Result<usize, UStatus>)
        requires
            old(self).wf(),
        ensures
            final(self).wf(),
            final(self).authority_names() == old(self).authority_names(),
            final(self).remote_authority_names() == old(self).remote_authority_names(),
            match r {
                Ok(id) => {
                    &&& old(self).ids().contains_key(config_view(*key)) && id == old(self).ids()[config_view(*key)]
                    &&& final(self).ids() == old(self).ids().remove(config_view(*key))
                    &&& final(self).listeners() == old(self).listeners().remove(id)
                    &&& final(self).free_ids() == old(self).free_ids().insert(id)
                    &&& final(self).app_names() == old(self).app_names().remove(client_id)
                    &&& final(self).listener_clients() == old(self).listener_clients().remove(id)
                },
                Err(e) => {
                    &&& e.code == UCode::INTERNAL && !old(self).ids().contains_key(config_view(*key))
                    &&& final(self).ids() == old(self).ids()
                    &&& final(self).listeners() == old(self).listeners()
                    &&& final(self).free_ids() == old(self).free_ids()
                    &&& final(self).app_names() == old(self).app_names()
                    &&& final(self).listener_clients() == old(self).listener_clients()
                },
            },
    {
        let k = config_key(key);
        let listener_id = match self.listener_id_map.get(&k) {
            Some(id) => id,
            None => {
                return Err(UStatus::fail_with_code(UCode::INTERNAL, "Listener not found"));
            },
        };
        self.listener_id_map.remove(&k);
        self.listener_registry.remove(&listener_id);
        self.free_listener_ids.insert(listener_id);
        self.client_id_app_mapping.remove(&client_id);
        self.listener_client_id_mapping.remove(&listener_id);
        proof {
            assert(self.app_names() =~= old(self).app_names().remove(client_id));
        }
        Ok(listener_id)
    }
}

impl ClientListenerTables {
    /// Sending a request while a point-to-point listener is registered registers that listener
    /// for the response: a callback id is taken and recorded for the request's source, sink and
    /// the listener, and the listener under it. The response comes from the request's sink to
    /// its source; a request without a sink then fails with invalid-argument, with the id
    /// recorded; otherwise the request's client id is recorded under the id, and the response's
    /// source and sink come back with it. With no free id it fails with resource-exhausted and
    /// changes nothing. Without a point-to-point listener, or for anything but a request, nothing
    /// happens.
    pub fn register_returning_response(
        &mut self,
        point_to_point_listener: Option<ListenerKey>,
        message_type: RegistrationType,
        msg_source: &UUri,
        msg_sink: &Option<UUri>,
    ) -> (r: Result<Option<(UUri, UUri, usize)>, UStatus>)
        requires
            old(self).wf(),
        ensures
            final(self).wf(),
            final(self).app_names() == old(self).app_names(),
            final(self).authority_names() == old(self).authority_names(),
            final(self).remote_authority_names() == old(self).remote_authority_names(),
            match (point_to_point_listener, message_type) {
                (Some(listener), RegistrationType::Request(client_id)) => match r {
                    Err(e) => if e.code == UCode::RESOURCE_EXHAUSTED {
                        &&& old(self).free_ids().is_empty()
                        &&& final(self).free_ids() == old(self).free_ids()
                        &&& final(self).ids() == old(self).ids()
                        &&& final(self).listeners() == old(self).listeners()
                        &&& final(self).listener_clients() == old(self).listener_clients()
                    } else {
                        &&& e.code == UCode::INVALID_ARGUMENT && msg_sink is None
                        &&& exists|id: usize| {
                            &&& old(self).free_ids().contains(id)
                            &&& final(self).free_ids() == old(self).free_ids().remove(id)
                            &&& final(self).ids() == old(self).ids().insert(config_view((*msg_source, *msg_sink, listener)), id)
                            &&& final(self).listeners() == old(self).listeners().insert(id, listener)
                        }
                        &&& final(self).listener_clients() == old(self).listener_clients()
                    },
                    Ok(None) => false,
                    Ok(Some((source, sink, id))) => {
                        &&& *msg_sink == Some(source) && sink == *msg_source
                        &&& old(self).free_ids().contains(id)
                        &&& final(self).free_ids() == old(self).free_ids().remove(id)
                        &&& final(self).ids() == old(self).ids().insert(config_view((*msg_source, *msg_sink, listener)), id)
                        &&& final(self).listeners() == old(self).listeners().insert(id, listener)
                        &&& final(self).listener_clients() == old(self).listener_clients().insert(id, client_id)
                    },
                },
                _ => {
                    &&& r == Ok::<Option<(UUri, UUri, usize)>, UStatus>(None)
                    &&& final(self).free_ids() == old(self).free_ids()
                    &&& final(self).ids() == old(self).ids()
                    &&& final(self).listeners() == old(self).listeners()
                    &&& final(self).listener_clients() == old(self).listener_clients()
                },
            },
    {
        let listener = match point_to_point_listener {
            Some(l) => l,
            None => {
                return Ok(None);
            },
        };
        let client_id = match message_type {
            RegistrationType::Request(c) => c,
            _ => {
                return Ok(None);
            },
        };
        let listener_id = self.find_available_listener_id()?;
        let sink_copy = match msg_sink {
            Some(s) => Some(clone_uri(s)),
            None => None,
        };
        let key: ListenerConfig = (clone_uri(msg_source), sink_copy, listener);
        self.listener_id_map.insert(config_key(&key), listener_id);
        self.listener_registry.insert(listener_id, listener);
        let src = match msg_sink {
            Some(s) => clone_uri(s),
            None => {
                return Err(UStatus::fail_with_code(UCode::INVALID_ARGUMENT, "Request message doesn't have a sink"));
            },
        };
        let sink = clone_uri(msg_source);
        self.listener_client_id_mapping.insert(listener_id, client_id);
        Ok(Some((src, sink, listener_id)))
    }
}

/// Checks that a listener may unregister as the point-to-point listener: with none registered it
/// fails with already-exists, with another one registered with invalid-argument.
pub fn check_point_to_point_listener(slot: &Option<ListenerKey>, listener: ListenerKey) -> (r: Result<(), UStatus>)
    ensures
        match *slot {
            None => r matches Err(e) && e.code == UCode::ALREADY_EXISTS,
            Some(l) => if l == listener { r is Ok } else { r matches Err(e) && e.code == UCode::INVALID_ARGUMENT },
        },
{
    match slot {
        None => Err(UStatus::fail_with_code(UCode::ALREADY_EXISTS, "No point-to-point listener found, we can't unregister it")),
        Some(l) => if *l == listener {
            Ok(())
        } else {
            Err(UStatus::fail_with_code(UCode::INVALID_ARGUMENT, "listener provided doesn't match registered point_to_point_listener"))
        },
    }
}

/// The registration under which the point-to-point listener hears one application: any source,
/// and as sink every version and resource of the application's client id under the local
/// authority.
pub fn point_to_point_config(local_authority: &String, app_client_id: ClientId, listener: ListenerKey) -> (r: ListenerConfig)
    ensures
        r.0.authority_name@ == wildcard_authority() && r.0.ue_id == 0xFFFF && r.0.ue_version_major == 0xFF
            && r.0.resource_id == 0xFFFF,
        r.1 matches Some(sink) && sink.authority_name@ == local_authority@ && sink.ue_id == app_client_id
            && sink.ue_version_major == WILDCARD_UE_VERSION_MAJOR && sink.resource_id == WILDCARD_RESOURCE_ID,
        r.2 == listener,
{
    let sink = UUri {
        authority_name: local_authority.clone(),
        ue_id: app_client_id as u32,
        ue_version_major: WILDCARD_UE_VERSION_MAJOR,
        resource_id: WILDCARD_RESOURCE_ID,
    };
    (any_uuri(), Some(sink), listener)
}

/// A listener whose registration succeeded can be unregistered: once the registration has its
/// callback id, and its client an application name (recorded when the registration said the
/// client had none), the client's name is found and the registration's callback id with it.
pub proof fn lemma_registered_listener_can_be_unregistered(
    pre: ClientListenerTables,
    mid: ClientListenerTables,
    post: ClientListenerTables,
    key: ListenerConfigView,
    reg: ClientRegistration,
    app_name: Seq<char>,
)
    requires
        mid.ids() == pre.ids().insert(key, reg.listener_id),
        mid.app_names() == pre.app_names(),
        reg.needs_application == !pre.app_names().contains_key(reg.client_id),
        post.ids() == mid.ids(),
        post.app_names() == if reg.needs_application {
            mid.app_names().insert(reg.client_id, app_name)
        } else {
            mid.app_names()
        },
    ensures
        post.app_names().contains_key(reg.client_id),
        post.ids().contains_key(key),
        post.ids()[key] == reg.listener_id,
{
}

} // verus!
