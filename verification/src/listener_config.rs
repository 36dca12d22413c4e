//! What a listener is registered with: a source filter, an optional sink filter and the listener
//! itself, and the plain key under which the registries find such a registration again.
use vstd::prelude::*;
use crate::uri::{UUri, UriView, uri_view};

verus! {

/// Identifies a listener: two registrations carry the same key exactly when they were made with
/// the same listener.
pub type ListenerKey = u64;

/// A registration: source filter, optional sink filter, listener.
pub type ListenerConfig = (UUri, Option<UUri>, ListenerKey);

/// The stored form of a URI: authority name, uEntity id, major version, resource id.
pub type UriKey = (String, u32, u32, u32);

/// The stored form of a registration.
pub type ListenerConfigKey = (UriKey, Option<UriKey>, ListenerKey);

/// A registration as a plain value.
pub type ListenerConfigView = (UriView, Option<UriView>, ListenerKey);

/// The plain value of a stored URI.
pub open spec fn uri_key_view(k: UriKey) -> UriView {
    (k.0@, k.1, k.2, k.3)
}

/// A registration as a plain value.
pub open spec fn config_view(c: ListenerConfig) -> ListenerConfigView {
    (
        uri_view(c.0),
        match c.1 {
            Some(sink) => Some(uri_view(sink)),
            None => None,
        },
        c.2,
    )
}

/// The plain value of a stored registration.
pub open spec fn config_key_view(k: ListenerConfigKey) -> ListenerConfigView {
    (
        uri_key_view(k.0),
        match k.1 {
            Some(sink) => Some(uri_key_view(sink)),
            None => None,
        },
        k.2,
    )
}

fn uri_key(u: &UUri) -> (r: UriKey)
    ensures
        uri_key_view(r) == uri_view(*u),
{
    (u.authority_name.clone(), u.ue_id, u.ue_version_major, u.resource_id)
}

/// The stored form of a registration.
pub fn config_key(c: &ListenerConfig) -> (r: ListenerConfigKey)
    ensures
        config_key_view(r) == config_view(*c),
{
    let sink = match &c.1 {
        Some(s) => Some(uri_key(s)),
        None => None,
    };
    (uri_key(&c.0), sink, c.2)
}

fn uri_of_key(k: &UriKey) -> (r: UUri)
    ensures
        uri_view(r) == uri_key_view(*k),
{
    UUri { authority_name: k.0.clone(), ue_id: k.1, ue_version_major: k.2, resource_id: k.3 }
}

/// The registration that a stored form stands for.
pub fn config_of_key(k: &ListenerConfigKey) -> (r: ListenerConfig)
    ensures
        config_view(r) == config_key_view(*k),
{
    let sink = match &k.1 {
        Some(s) => Some(uri_of_key(s)),
        None => None,
    };
    (uri_of_key(&k.0), sink, k.2)
}

} // verus!
