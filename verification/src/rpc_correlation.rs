//! Correlation of uProtocol request ids with SOME/IP request ids, so that a response can be
//! matched to the request it answers.
use vstd::prelude::*;
use std::collections::HashMap;
use crate::ids::{ClientId, SessionId, SomeIpRequestId};
use crate::status::{UCode, UStatus};
use crate::uuid::{UUID, uuid_number, lemma_uuid_number_injective};
use crate::determinations::{SessionIdTracking, next_session, next_session_from, retrieve_session_id, retrieve_session_id_from,
    can_count_session};

verus! {

broadcast use vstd::std_specs::hash::group_hash_axioms;

/// The uProtocol request id of a message.
pub type UProtocolReqId = UUID;

/// The map from uProtocol request ids that a table keyed by their 128-bit numbers stands for.
pub open spec fn by_uuid(table: Map<u128, SomeIpRequestId>) -> Map<UUID, SomeIpRequestId> {
    Map::new(
        |id: UUID| table.contains_key(uuid_number(id) as u128),
        |id: UUID| table[uuid_number(id) as u128],
    )
}

proof fn lemma_by_uuid_insert(table: Map<u128, SomeIpRequestId>, id: UUID, v: SomeIpRequestId)
    ensures
        by_uuid(table.insert(uuid_number(id) as u128, v)) == by_uuid(table).insert(id, v),
{
    assert forall|other: UUID| #[trigger] by_uuid(table.insert(uuid_number(id) as u128, v)).contains_key(other)
        == by_uuid(table).insert(id, v).contains_key(other) by {
        if uuid_number(other) as u128 == uuid_number(id) as u128 {
            lemma_uuid_number_injective(other, id);
        }
    }
    assert forall|other: UUID| #[trigger] by_uuid(table.insert(uuid_number(id) as u128, v)).contains_key(other)
        implies by_uuid(table.insert(uuid_number(id) as u128, v))[other] == by_uuid(table).insert(id, v)[other] by {
        if uuid_number(other) as u128 == uuid_number(id) as u128 {
            lemma_uuid_number_injective(other, id);
        }
    }
    assert(by_uuid(table.insert(uuid_number(id) as u128, v)) =~= by_uuid(table).insert(id, v));
}

proof fn lemma_by_uuid_remove(table: Map<u128, SomeIpRequestId>, id: UUID)
    ensures
        by_uuid(table.remove(uuid_number(id) as u128)) == by_uuid(table).remove(id),
{
    assert forall|other: UUID| #[trigger] by_uuid(table.remove(uuid_number(id) as u128)).contains_key(other)
        == by_uuid(table).remove(id).contains_key(other) by {
        if uuid_number(other) as u128 == uuid_number(id) as u128 {
            lemma_uuid_number_injective(other, id);
        }
    }
    assert(by_uuid(table.remove(uuid_number(id) as u128)) =~= by_uuid(table).remove(id));
}

/// Records, per uProtocol request id, the SOME/IP request id of a request that arrived from
/// SOME/IP and awaits its response.
pub struct InMemoryRpcCorrelationRegistry {
    me_request_correlation: HashMap<u128, SomeIpRequestId>,
}

impl InMemoryRpcCorrelationRegistry {
    /// The SOME/IP request id recorded for each uProtocol request id.
    pub closed spec fn me_correlation(&self) -> Map<UUID, SomeIpRequestId> {
        by_uuid(self.me_request_correlation@)
    }

    /// A registry with nothing recorded.
    pub fn new() -> (r: InMemoryRpcCorrelationRegistry)
        ensures
            r.me_correlation() == Map::<UUID, SomeIpRequestId>::empty(),
    {
        let r = InMemoryRpcCorrelationRegistry { me_request_correlation: HashMap::new() };
        assert(r.me_correlation() =~= Map::<UUID, SomeIpRequestId>::empty());
        r
    }

    /// Records the SOME/IP request id for a uProtocol request id; fails with already-exists, and
    /// changes nothing, when that uProtocol request id is recorded.
    pub fn insert_me_request_correlation(&mut self, uprotocol_req_id: UProtocolReqId, someip_request_id: SomeIpRequestId) -> (r: Result<(), UStatus>)
        ensures
            match r {
                Ok(()) => !old(self).me_correlation().contains_key(uprotocol_req_id) && final(self).me_correlation()
                    == old(self).me_correlation().insert(uprotocol_req_id, someip_request_id),
                Err(e) => old(self).me_correlation().contains_key(uprotocol_req_id) && final(self).me_correlation()
                    == old(self).me_correlation() && e.code == UCode::ALREADY_EXISTS,
            },
    {
        let key = uprotocol_req_id.to_u128();
        if self.me_request_correlation.contains_key(&key) {
            return Err(UStatus::fail_with_code(UCode::ALREADY_EXISTS, "ME_REQUEST_CORRELATION: Already exists therefore rejecting"));
        }
        self.me_request_correlation.insert(key, someip_request_id);
        proof {
            lemma_by_uuid_insert(old(self).me_request_correlation@, uprotocol_req_id, someip_request_id);
        }
        Ok(())
    }

    /// Removes and gives back the SOME/IP request id recorded for a uProtocol request id; fails with
    /// not-found, and changes nothing, when none is recorded.
    pub fn remove_me_request_correlation(&mut self, uprotocol_req_id: &UProtocolReqId) -> (r: Result<SomeIpRequestId, UStatus>)
        ensures
            match r {
                Ok(v) => old(self).me_correlation().contains_key(*uprotocol_req_id) && v == old(self).me_correlation()[*uprotocol_req_id]
                    && final(self).me_correlation() == old(self).me_correlation().remove(*uprotocol_req_id),
                Err(e) => !old(self).me_correlation().contains_key(*uprotocol_req_id) && final(self).me_correlation()
                    == old(self).me_correlation() && e.code == UCode::NOT_FOUND,
            },
    {
        let key = uprotocol_req_id.to_u128();
        match self.me_request_correlation.remove(&key) {
            Some(v) => {
                proof {
                    lemma_by_uuid_remove(old(self).me_request_correlation@, *uprotocol_req_id);
                }
                Ok(v)
            },
            None => Err(UStatus::fail_with_code(UCode::NOT_FOUND, "Corresponding SOME/IP Request ID not found for this native request_id")),
        }
    }
}

/// Request and response correlation in both directions, with the session numbering of clients.
pub struct RpcCorrelation2 {
    ue_request_correlation: HashMap<SomeIpRequestId, UUID>,
    me_request_correlation: HashMap<u128, SomeIpRequestId>,
    client_id_session_id_tracking: SessionIdTracking,
}

impl RpcCorrelation2 {
    /// For requests sent to SOME/IP: the uProtocol request id recorded per SOME/IP request id.
    pub closed spec fn ue_correlation(&self) -> Map<SomeIpRequestId, UUID> {
        self.ue_request_correlation@
    }

    /// For requests that arrived from SOME/IP: the SOME/IP request id per uProtocol request id.
    pub closed spec fn me_correlation(&self) -> Map<UUID, SomeIpRequestId> {
        by_uuid(self.me_request_correlation@)
    }

    /// The session number that each client's next request gets.
    pub closed spec fn sessions(&self) -> Map<ClientId, SessionId> {
        self.client_id_session_id_tracking.view()
    }

    /// Nothing recorded, no client seen.
    pub fn new() -> (r: RpcCorrelation2)
        ensures
            r.ue_correlation() == Map::<SomeIpRequestId, UUID>::empty(),
            r.me_correlation() == Map::<UUID, SomeIpRequestId>::empty(),
            r.sessions() == Map::<ClientId, SessionId>::empty(),
    {
        let r = RpcCorrelation2 {
            ue_request_correlation: HashMap::new(),
            me_request_correlation: HashMap::new(),
            client_id_session_id_tracking: SessionIdTracking::new(),
        };
        assert(r.me_correlation() =~= Map::<UUID, SomeIpRequestId>::empty());
        r
    }

    /// Hands out the next session number of a client, starting at one.
    pub fn retrieve_session_id(&mut self, client_id: ClientId) -> (r: SessionId)
        requires
            next_session(old(self).sessions(), client_id) < u16::MAX,
        ensures
            r == next_session(old(self).sessions(), client_id),
            final(self).sessions() == old(self).sessions().insert(client_id, (r + 1) as SessionId),
            final(self).ue_correlation() == old(self).ue_correlation(),
            final(self).me_correlation() == old(self).me_correlation(),
    {
        retrieve_session_id(&mut self.client_id_session_id_tracking, client_id)
    }

    /// Whether a client's session count can go up once more, starting at `first`.
    pub fn can_count_session(&self, client_id: ClientId, first: SessionId) -> (r: bool)
        ensures
            r == (next_session_from(self.sessions(), client_id, first) < u16::MAX),
    {
        can_count_session(&self.client_id_session_id_tracking, client_id, first)
    }

    /// Hands out the next session number of a client, starting at `first`.
    pub(crate) fn retrieve_session_id_from(&mut self, client_id: ClientId, first: SessionId) -> (r: SessionId)
        requires
            next_session_from(old(self).sessions(), client_id, first) < u16::MAX,
        ensures
            r == next_session_from(old(self).sessions(), client_id, first),
            final(self).sessions() == old(self).sessions().insert(client_id, (r + 1) as SessionId),
            final(self).ue_correlation() == old(self).ue_correlation(),
            final(self).me_correlation() == old(self).me_correlation(),
    {
        retrieve_session_id_from(&mut self.client_id_session_id_tracking, client_id, first)
    }

    /// Records the uProtocol request id of a request sent under a SOME/IP request id; fails with
    /// already-exists, and changes nothing, when that SOME/IP request id is recorded.
    pub fn insert_ue_request_correlation(&mut self, app_request_id: SomeIpRequestId, req_id: &UUID) -> (r: Result<(), UStatus>)
        ensures
            match r {
                Ok(()) => !old(self).ue_correlation().contains_key(app_request_id) && final(self).ue_correlation()
                    == old(self).ue_correlation().insert(app_request_id, *req_id),
                Err(e) => old(self).ue_correlation().contains_key(app_request_id) && final(self).ue_correlation()
                    == old(self).ue_correlation() && e.code == UCode::ALREADY_EXISTS,
            },
            final(self).me_correlation() == old(self).me_correlation(),
            final(self).sessions() == old(self).sessions(),
    {
        if self.ue_request_correlation.contains_key(&app_request_id) {
            return Err(UStatus::fail_with_code_and_number(UCode::ALREADY_EXISTS, "Already exists same request with id: ", app_request_id as u64, ", therefore rejecting"));
        }
        self.ue_request_correlation.insert(app_request_id, *req_id);
        Ok(())
    }

    /// Removes and gives back the uProtocol request id recorded for a SOME/IP request id; fails
    /// with not-found, and changes nothing, when none is recorded.
    pub fn remove_ue_request_correlation(&mut self, request_id: SomeIpRequestId) -> (r: Result<UUID, UStatus>)
        ensures
            match r {
                Ok(v) => old(self).ue_correlation().contains_key(request_id) && v == old(self).ue_correlation()[request_id]
                    && final(self).ue_correlation() == old(self).ue_correlation().remove(request_id),
                Err(e) => !old(self).ue_correlation().contains_key(request_id) && final(self).ue_correlation()
                    == old(self).ue_correlation() && e.code == UCode::NOT_FOUND,
            },
            final(self).me_correlation() == old(self).me_correlation(),
            final(self).sessions() == old(self).sessions(),
    {
        match self.ue_request_correlation.remove(&request_id) {
            Some(v) => Ok(v),
            None => Err(UStatus::fail_with_code_and_number(UCode::NOT_FOUND, "Corresponding reqid not found for this SOME/IP RESPONSE: ", request_id as u64, "")),
        }
    }

    /// Records the SOME/IP request id of a request that arrived under a uProtocol request id;
    /// fails with already-exists, and changes nothing, when that uProtocol request id is recorded.
    pub fn insert_me_request_correlation(&mut self, req_id: UUID, request_id: SomeIpRequestId) -> (r: Result<(), UStatus>)
        ensures
            match r {
                Ok(()) => !old(self).me_correlation().contains_key(req_id) && final(self).me_correlation()
                    == old(self).me_correlation().insert(req_id, request_id),
                Err(e) => old(self).me_correlation().contains_key(req_id) && final(self).me_correlation()
                    == old(self).me_correlation() && e.code == UCode::ALREADY_EXISTS,
            },
            final(self).ue_correlation() == old(self).ue_correlation(),
            final(self).sessions() == old(self).sessions(),
    {
        let key = req_id.to_u128();
        if self.me_request_correlation.contains_key(&key) {
            return Err(UStatus::fail_with_code(UCode::ALREADY_EXISTS, "Already exists same MT_REQUEST with this id, therefore rejecting"));
        }
        self.me_request_correlation.insert(key, request_id);
        proof {
            lemma_by_uuid_insert(old(self).me_request_correlation@, req_id, request_id);
        }
        Ok(())
    }

    /// Removes and gives back the SOME/IP request id recorded for a uProtocol request id; fails
    /// with not-found, and changes nothing, when none is recorded.
    pub fn remove_me_request_correlation(&mut self, req_id: &UUID) -> (r: Result<SomeIpRequestId, UStatus>)
        ensures
            match r {
                Ok(v) => old(self).me_correlation().contains_key(*req_id) && v == old(self).me_correlation()[*req_id]
                    && final(self).me_correlation() == old(self).me_correlation().remove(*req_id),
                Err(e) => !old(self).me_correlation().contains_key(*req_id) && final(self).me_correlation()
                    == old(self).me_correlation() && e.code == UCode::NOT_FOUND,
            },
            final(self).ue_correlation() == old(self).ue_correlation(),
            final(self).sessions() == old(self).sessions(),
    {
        let key = req_id.to_u128();
        match self.me_request_correlation.remove(&key) {
            Some(v) => {
                proof {
                    lemma_by_uuid_remove(old(self).me_request_correlation@, *req_id);
                }
                Ok(v)
            },
            None => Err(UStatus::fail_with_code(UCode::NOT_FOUND, "Corresponding SOME/IP Request ID not found for this Request UMessage's reqid")),
        }
    }
}

/// A correlation recorded under a fresh key is given back by the removal of that key, and the
/// removal leaves the table as it was before the recording.
pub proof fn lemma_correlation_round_trip<K, V>(table: Map<K, V>, key: K, value: V)
    requires
        !table.contains_key(key),
    ensures
        table.insert(key, value).contains_key(key),
        table.insert(key, value)[key] == value,
        table.insert(key, value).remove(key) == table,
{
    assert(table.insert(key, value).remove(key) =~= table);
}

} // verus!
