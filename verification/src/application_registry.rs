//! The SOME/IP applications that run, one per client id, with their names.
use vstd::prelude::*;
use bimap::BiHashMap;
use crate::ids::ClientId;
use crate::status::{UCode, UStatus};
use crate::bimaps::{app_name_pairs, app_names_new, app_names_get_by_left, app_names_insert_no_overwrite, app_names_remove_by_left};

verus! {

/// The name of a SOME/IP application.
pub type ApplicationName = String;

/// Which client id runs under which application name; neither repeats.
pub struct ApplicationRegistry {
    client_and_app_name: BiHashMap<ClientId, ApplicationName>,
}

/// A map that pairs no two keys with the same value.
pub open spec fn one_to_one<K, V>(m: Map<K, V>) -> bool {
    forall|a: K, b: K| m.contains_key(a) && m.contains_key(b) && a != b ==> m[a] != m[b]
}

impl ApplicationRegistry {
    /// The application name of each client id.
    pub closed spec fn view(&self) -> Map<ClientId, Seq<char>> {
        app_name_pairs(self.client_and_app_name)
    }

    /// An empty registry.
    pub fn new() -> (r: ApplicationRegistry)
        ensures
            r.view() == Map::<ClientId, Seq<char>>::empty(),
    {
        ApplicationRegistry { client_and_app_name: app_names_new() }
    }

    /// The application name of a client id, if one is registered.
    pub fn get_app_name_for_client_id(&self, client_id: ClientId) -> (r: Option<ApplicationName>)
        ensures
            match r {
                Some(name) => self.view().contains_key(client_id) && name@ == self.view()[client_id],
                None => !self.view().contains_key(client_id),
            },
    {
        app_names_get_by_left(&self.client_and_app_name, client_id)
    }

    /// Registers an application name for a client id; fails with already-exists, and changes
    /// nothing, when the client id or the name is registered.
    pub fn insert_client_and_app_name(&mut self, client_id: ClientId, app_name: ApplicationName) -> (r: Result<(), UStatus>)
        ensures
            match r {
                Ok(()) => !old(self).view().contains_key(client_id) && !old(self).view().contains_value(app_name@)
                    && final(self).view() == old(self).view().insert(client_id, app_name@),
                Err(e) => (old(self).view().contains_key(client_id) || old(self).view().contains_value(app_name@))
                    && final(self).view() == old(self).view() && e.code == UCode::ALREADY_EXISTS,
            },
    {
        if app_names_insert_no_overwrite(&mut self.client_and_app_name, client_id, app_name) {
            Ok(())
        } else {
            Err(UStatus::fail_with_code(UCode::ALREADY_EXISTS, "Already exists that pair of client_id and app_name"))
        }
    }

    /// Removes the registration of a client id and gives back its application name.
    pub fn remove_app_name_for_client_id(&mut self, client_id: ClientId) -> (r: Option<ApplicationName>)
        ensures
            match r {
                Some(name) => old(self).view().contains_key(client_id) && name@ == old(self).view()[client_id]
                    && final(self).view() == old(self).view().remove(client_id),
                None => !old(self).view().contains_key(client_id) && final(self).view() == old(self).view(),
            },
    {
        app_names_remove_by_left(&mut self.client_and_app_name, client_id)
    }
}

/// Registration keeps the registry one-to-one: no two clients share an application name.
pub proof fn lemma_app_names_stay_one_to_one(before: Map<ClientId, Seq<char>>, client_id: ClientId, name: Seq<char>)
    requires
        one_to_one(before),
        !before.contains_key(client_id),
        !before.contains_value(name),
    ensures
        one_to_one(before.insert(client_id, name)),
{
    let after = before.insert(client_id, name);
    assert forall|a: ClientId, b: ClientId| after.contains_key(a) && after.contains_key(b) && a != b implies after[a] != after[b] by {
        if a == client_id {
            assert(before.contains_key(b));
        } else if b == client_id {
            assert(before.contains_key(a));
        }
    }
}

} // verus!
