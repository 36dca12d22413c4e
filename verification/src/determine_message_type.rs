//! What kind of registration a pair of source and sink filters asks for.
use vstd::prelude::*;
use crate::status::UStatus;
use crate::uri::{UUri, is_wildcard_authority, wildcard_authority, WILDCARD_UE_ID, WILDCARD_UE_VERSION_MAJOR, WILDCARD_RESOURCE_ID};

verus! {

/// The kinds of listener registration.
#[derive(Clone, Copy, Debug, PartialEq, Eq, Structural)]
pub enum RegistrationType {
    Publish,
    Request,
    Response,
    AllPointToPoint,
}

/// Whether a filter has the wildcard in its uEntity id, version and resource id.
pub open spec fn has_wildcard_ids(filter: UUri) -> bool {
    &&& filter.ue_id == WILDCARD_UE_ID
    &&& filter.ue_version_major == WILDCARD_UE_VERSION_MAJOR
    &&& filter.resource_id == WILDCARD_RESOURCE_ID
}

/// The registration that the filters ask for: with no sink, publications; with a sink that names a
/// concrete authority and wildcards otherwise, and a source that is all wildcards, every
/// point-to-point message (the streamer's case); with a sink whose resource id is zero, responses;
/// with any other sink, requests.
pub open spec fn registration_type_of(source_filter: UUri, sink_filter: Option<UUri>) -> RegistrationType {
    match sink_filter {
        None => RegistrationType::Publish,
        Some(sink) => if sink.authority_name@ != wildcard_authority() && has_wildcard_ids(sink)
            && source_filter.authority_name@ == wildcard_authority() && has_wildcard_ids(source_filter) {
            RegistrationType::AllPointToPoint
        } else if sink.resource_id == 0 {
            RegistrationType::Response
        } else {
            RegistrationType::Request
        },
    }
}

/// Determines the [RegistrationType] of a source and sink filter; it always succeeds.
pub fn determine_type(source_filter: &UUri, sink_filter: &Option<UUri>) -> (r: Result<RegistrationType, UStatus>)
    ensures
        r == Ok::<RegistrationType, UStatus>(registration_type_of(*source_filter, *sink_filter)),
{
    match sink_filter {
        Some(sink_filter) => {
            let sink_auth_name_condition_met = !is_wildcard_authority(&sink_filter.authority_name);
            let sink_ue_id_condition_met = sink_filter.ue_id == WILDCARD_UE_ID;
            let sink_ue_version_major_condition_met = sink_filter.ue_version_major == WILDCARD_UE_VERSION_MAJOR;
            let sink_resource_id_condition_met = sink_filter.resource_id == WILDCARD_RESOURCE_ID;
            let source_auth_name_condition_met = is_wildcard_authority(&source_filter.authority_name);
            let source_ue_id_condition_met = source_filter.ue_id == WILDCARD_UE_ID;
            let source_ue_version_major_condition_met = source_filter.ue_version_major == WILDCARD_UE_VERSION_MAJOR;
            let source_resource_id_condition_met = source_filter.resource_id == WILDCARD_RESOURCE_ID;
            let streamer_use_case = sink_auth_name_condition_met && sink_ue_id_condition_met
                && sink_ue_version_major_condition_met && sink_resource_id_condition_met
                && source_auth_name_condition_met && source_ue_id_condition_met
                && source_ue_version_major_condition_met && source_resource_id_condition_met;
            if streamer_use_case {
                return Ok(RegistrationType::AllPointToPoint);
            }
            if sink_filter.resource_id == 0 {
                Ok(RegistrationType::Response)
            } else {
                Ok(RegistrationType::Request)
            }
        },
        None => Ok(RegistrationType::Publish),
    }
}

} // verus!
