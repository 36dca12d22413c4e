//! Registration types that carry the SOME/IP client that serves them, the point-to-point test on
//! SOME/IP message types, session numbering and application names.
use vstd::prelude::*;
use std::collections::HashMap;
use crate::ids::{ClientId, SessionId};
use crate::status::UStatus;
use crate::uri::{UUri, is_wildcard_authority, wildcard_authority, WILDCARD_UE_ID, WILDCARD_UE_VERSION_MAJOR, WILDCARD_RESOURCE_ID};
use crate::determine_message_type::has_wildcard_ids;

verus! {

broadcast use vstd::std_specs::hash::group_hash_axioms;

/// A kind of registration, with the client id of the SOME/IP application that serves it.
#[derive(Clone, Copy, Debug, PartialEq, Eq, Structural)]
pub enum RegistrationType {
    Publish(ClientId),
    Request(ClientId),
    Response(ClientId),
    AllPointToPoint(ClientId),
}

impl RegistrationType {
    /// The client id that the registration is served by.
    pub open spec fn spec_client_id(&self) -> ClientId {
        match *self {
            RegistrationType::Publish(c) => c,
            RegistrationType::Request(c) => c,
            RegistrationType::Response(c) => c,
            RegistrationType::AllPointToPoint(c) => c,
        }
    }

    /// The client id that the registration is served by.
    #[verifier::when_used_as_spec(spec_client_id)]
    pub fn client_id(&self) -> (r: ClientId)
        ensures
            r == self.spec_client_id(),
    {
        match self {
            RegistrationType::Publish(c) => *c,
            RegistrationType::Request(c) => *c,
            RegistrationType::Response(c) => *c,
            RegistrationType::AllPointToPoint(c) => *c,
        }
    }
}

/// The client id that a uEntity id stands for: its lower 16 bits.
pub open spec fn client_of(ue_id: u32) -> ClientId {
    (ue_id as int % 0x1_0000) as ClientId
}

/// The registration that the filters ask for: with no sink, publications served under the
/// source's entity; with a source that names a concrete authority and wildcards otherwise, and a
/// sink that is all wildcards, every point-to-point message under the wildcard client; with a sink
/// whose resource id is zero, responses served under the source's entity; otherwise requests
/// served under the sink's entity.
pub open spec fn registration_of(source_filter: UUri, sink_filter: Option<UUri>) -> RegistrationType {
    match sink_filter {
        None => RegistrationType::Publish(client_of(source_filter.ue_id)),
        Some(sink) => if source_filter.authority_name@ != wildcard_authority() && has_wildcard_ids(source_filter)
            && sink.authority_name@ == wildcard_authority() && has_wildcard_ids(sink) {
            RegistrationType::AllPointToPoint(0xFFFF)
        } else if sink.resource_id == 0 {
            RegistrationType::Response(client_of(source_filter.ue_id))
        } else {
            RegistrationType::Request(client_of(sink.ue_id))
        },
    }
}

fn client_id_of(ue_id: u32) -> (r: ClientId)
    ensures
        r == client_of(ue_id),
{
    assert((ue_id & 0xFFFF) as u16 == ue_id % 0x1_0000) by (bit_vector);
    (ue_id & 0xFFFF) as u16
}

/// Infers the type of registration that the filters ask for; it always succeeds.
pub fn determine_registration_type(source_filter: &UUri, sink_filter: &Option<UUri>) -> (r: Result<
    RegistrationType,
    UStatus,
>)
    ensures
        r == Ok::<RegistrationType, UStatus>(registration_of(*source_filter, *sink_filter)),
{
    match sink_filter {
        Some(sink_filter) => {
            let streamer_use_case = !is_wildcard_authority(&source_filter.authority_name)
                && source_filter.ue_id == WILDCARD_UE_ID && source_filter.ue_version_major == WILDCARD_UE_VERSION_MAJOR
                && source_filter.resource_id == WILDCARD_RESOURCE_ID && is_wildcard_authority(&sink_filter.authority_name)
                && sink_filter.ue_id == WILDCARD_UE_ID && sink_filter.ue_version_major == WILDCARD_UE_VERSION_MAJOR
                && sink_filter.resource_id == WILDCARD_RESOURCE_ID;
            if streamer_use_case {
                return Ok(RegistrationType::AllPointToPoint(0xFFFF));
            }
            if sink_filter.resource_id == 0 {
                Ok(RegistrationType::Response(client_id_of(source_filter.ue_id)))
            } else {
                Ok(RegistrationType::Request(client_id_of(sink_filter.ue_id)))
            }
        },
        None => Ok(RegistrationType::Publish(client_id_of(source_filter.ue_id))),
    }
}

/// The SOME/IP message types.
#[allow(non_camel_case_types)]
#[derive(Clone, Copy, Debug, PartialEq, Eq, Structural)]
pub enum SomeIpMessageType {
    MT_REQUEST,
    MT_REQUEST_NO_RETURN,
    MT_NOTIFICATION,
    MT_REQUEST_ACK,
    MT_REQUEST_NO_RETURN_ACK,
    MT_NOTIFICATION_ACK,
    MT_RESPONSE,
    MT_ERROR,
    MT_RESPONSE_ACK,
    MT_ERROR_ACK,
    MT_UNKNOWN,
}

/// Whether a SOME/IP message of this type is point-to-point: a request, a response or an error.
pub fn is_point_to_point_message(message_type: SomeIpMessageType) -> (r: bool)
    ensures
        r == (message_type == SomeIpMessageType::MT_REQUEST || message_type == SomeIpMessageType::MT_RESPONSE
            || message_type == SomeIpMessageType::MT_ERROR),
{
    match message_type {
        SomeIpMessageType::MT_REQUEST | SomeIpMessageType::MT_RESPONSE | SomeIpMessageType::MT_ERROR => true,
        _ => false,
    }
}

/// The session numbers handed out so far, per client.
pub struct SessionIdTracking {
    tracking: HashMap<ClientId, SessionId>,
}

/// The session number that the next request of a client gets, where a client not seen before
/// starts at `first`.
pub open spec fn next_session_from(tracking: Map<ClientId, SessionId>, client_id: ClientId, first: SessionId) -> SessionId {
    if tracking.contains_key(client_id) {
        tracking[client_id]
    } else {
        first
    }
}

/// The session number that the next request of a client gets: one for a client not seen before.
pub open spec fn next_session(tracking: Map<ClientId, SessionId>, client_id: ClientId) -> SessionId {
    next_session_from(tracking, client_id, 1)
}

impl SessionIdTracking {
    /// For each client seen so far, the session number that its next request gets.
    pub closed spec fn view(&self) -> Map<ClientId, SessionId> {
        self.tracking@
    }

    /// No client seen yet.
    pub fn new() -> (r: SessionIdTracking)
        ensures
            r.view() == Map::<ClientId, SessionId>::empty(),
    {
        SessionIdTracking { tracking: HashMap::new() }
    }
}

/// Whether a client's session count can go up once more, where a client not seen before starts
/// at `first`: its next number has not reached the largest `u16`.
pub fn can_count_session(tracking: &SessionIdTracking, client_id: ClientId, first: SessionId) -> (r: bool)
    ensures
        r == (next_session_from(tracking.view(), client_id, first) < u16::MAX),
{
    let current = match tracking.tracking.get(&client_id) {
        Some(s) => *s,
        None => first,
    };
    current < u16::MAX
}

/// Hands out the next session number of a client, where a client not seen before starts at
/// `first`, and counts it up by one. The number must not have reached the largest `u16`, where
/// the count would overflow.
pub(crate) fn retrieve_session_id_from(tracking: &mut SessionIdTracking, client_id: ClientId, first: SessionId) -> (r: SessionId)
    requires
        next_session_from(old(tracking).view(), client_id, first) < u16::MAX,
    ensures
        r == next_session_from(old(tracking).view(), client_id, first),
        final(tracking).view() == old(tracking).view().insert(client_id, (r + 1) as SessionId),
{
    let current = match tracking.tracking.get(&client_id) {
        Some(s) => *s,
        None => first,
    };
    tracking.tracking.insert(client_id, current + 1);
    current
}

/// Hands out the next session number of a client: the first is one, and each call counts up by
/// one. The number must not have reached the largest `u16`, where the count would overflow.
pub fn retrieve_session_id(tracking: &mut SessionIdTracking, client_id: ClientId) -> (r: SessionId)
    requires
        next_session(old(tracking).view(), client_id) < u16::MAX,
    ensures
        r == next_session(old(tracking).view(), client_id),
        final(tracking).view() == old(tracking).view().insert(client_id, (r + 1) as SessionId),
{
    retrieve_session_id_from(tracking, client_id, 1)
}

/// A client's session numbers count up by one from call to call.
pub proof fn lemma_sessions_count_up(tracking: Map<ClientId, SessionId>, client_id: ClientId)
    requires
        next_session(tracking, client_id) < u16::MAX,
    ensures
        next_session(tracking.insert(client_id, (next_session(tracking, client_id) + 1) as SessionId), client_id)
            == next_session(tracking, client_id) + 1,
{
}

/// The client that serves a registration: a publication listener's is the lower 16 bits of the
/// source filter's uEntity id, a response listener's (sink resource zero) likewise of the source
/// filter's, and a request listener's (sink naming a method) of the sink filter's.
pub proof fn lemma_registration_client(source_filter: UUri, sink_filter: Option<UUri>)
    ensures
        sink_filter is None ==> (registration_of(source_filter, sink_filter) matches RegistrationType::Publish(c)
            && c as int == source_filter.ue_id as int % 0x1_0000),
        (sink_filter is Some && sink_filter.unwrap().resource_id == 0) ==> (
            registration_of(source_filter, sink_filter) matches RegistrationType::Response(c)
            && c as int == source_filter.ue_id as int % 0x1_0000),
        (sink_filter is Some && sink_filter.unwrap().resource_id != 0
            && sink_filter.unwrap().resource_id != WILDCARD_RESOURCE_ID) ==> (
            registration_of(source_filter, sink_filter) matches RegistrationType::Request(c)
            && c as int == sink_filter.unwrap().ue_id as int % 0x1_0000),
{
}

} // verus!
