//! uProtocol URIs: the parts that filters and routing read, and the textual form.
use vstd::prelude::*;
use vstd::string::*;

verus! {

/// The parts of a uProtocol URI that routing reads.
#[derive(Clone, Debug, PartialEq, Eq, Hash)]
pub struct UUri {
    pub authority_name: String,
    pub ue_id: u32,
    pub ue_version_major: u32,
    pub resource_id: u32,
}

/// A URI as a plain value: authority name, uEntity id, major version, resource id.
pub type UriView = (Seq<char>, u32, u32, u32);

/// A URI as a plain value.
pub open spec fn uri_view(u: UUri) -> UriView {
    (u.authority_name@, u.ue_id, u.ue_version_major, u.resource_id)
}

/// What `up_rust` parses a text into, as a plain value, or nothing where it refuses the text.
/// Its parser takes pages to state; the outcome depends on the text alone.
pub uninterp spec fn uri_of_text(text: Seq<char>) -> Option<UriView>;

/// Whether `up_rust` accepts the text as a uProtocol URI.
pub open spec fn valid_uri_text(text: Seq<char>) -> bool {
    uri_of_text(text) is Some
}

/// Calls `up_rust::UUri::try_from(&str)` and hands back the parts of the URI it parsed. The
/// contract names the outcome and claims nothing about which texts parse or what they parse to.
#[verifier::external_body]
pub(crate) fn parse_uri(text: &str) -> (r: Option<UUri>)
    ensures
        match r {
            Some(u) => uri_of_text(text@) == Some(uri_view(u)),
            None => uri_of_text(text@) is None,
        },
{
    match up_rust::UUri::try_from(text) {
        Ok(u) => Some(UUri {
            authority_name: u.authority_name,
            ue_id: u.ue_id,
            ue_version_major: u.ue_version_major,
            resource_id: u.resource_id,
        }),
        Err(_) => None,
    }
}

/// The authority name that `up_rust` makes of a text when it builds a URI from parts, or nothing
/// where it refuses the text. Its rules take pages to state; the outcome depends on the text alone.
pub uninterp spec fn authority_from_parts(authority: Seq<char>) -> Option<Seq<char>>;

/// Calls `up_rust::UUri::try_from_parts`, which checks the authority and takes the other parts
/// as given, and hands back the parts of the URI it built.
#[verifier::external_body]
fn uri_try_from_parts(authority: &str, entity_id: u32, entity_version: u8, resource_id: u16) -> (r: Option<UUri>)
    ensures
        match r {
            Some(u) => authority_from_parts(authority@) == Some(u.authority_name@) && u.ue_id == entity_id
                && u.ue_version_major == entity_version && u.resource_id == resource_id,
            None => authority_from_parts(authority@) is None,
        },
{
    match up_rust::UUri::try_from_parts(authority, entity_id, entity_version, resource_id) {
        Ok(u) => Some(UUri {
            authority_name: u.authority_name,
            ue_id: u.ue_id,
            ue_version_major: u.ue_version_major,
            resource_id: u.resource_id,
        }),
        Err(_) => None,
    }
}

/// The URI of every version and resource of one uEntity under one authority. The authority must
/// be one that `up_rust` accepts.
pub fn any_uuri_fixed_authority_id(authority_name: &String, ue_id: u32) -> (r: UUri)
    requires
        authority_from_parts(authority_name@) is Some,
    ensures
        Some(r.authority_name@) == authority_from_parts(authority_name@),
        r.ue_id == ue_id,
        r.ue_version_major == WILDCARD_UE_VERSION_MAJOR,
        r.resource_id == WILDCARD_RESOURCE_ID,
{
    match uri_try_from_parts(authority_name.as_str(), ue_id, 0xFF, 0xFFFF) {
        Some(u) => u,
        None => {
            assert(false);
            any_uuri()
        },
    }
}

/// The URI of every version and resource of one uEntity under one authority, or nothing where
/// `up_rust` refuses the authority.
pub fn try_any_uuri_fixed_authority_id(authority_name: &String, ue_id: u32) -> (r: Option<UUri>)
    ensures
        match r {
            Some(u) => Some(u.authority_name@) == authority_from_parts(authority_name@) && u.ue_id == ue_id
                && u.ue_version_major == WILDCARD_UE_VERSION_MAJOR && u.resource_id == WILDCARD_RESOURCE_ID,
            None => authority_from_parts(authority_name@) is None,
        },
{
    match uri_try_from_parts(authority_name.as_str(), ue_id, 0xFF, 0xFFFF) {
        Some(_) => Some(any_uuri_fixed_authority_id(authority_name, ue_id)),
        None => None,
    }
}

/// The raw uEntity identifier of a URI, put together again from its instance and type ids.
pub fn uuri_ue_id(uri: &UUri) -> (r: u32)
    ensures
        r == uri.ue_id,
{
    let raw = uri.ue_id;
    let instance = raw >> 16;
    let entity_type = raw & 0xFFFF;
    let ue_id = (instance << 16) | entity_type;
    assert(((raw >> 16) << 16) | (raw & 0xFFFF) == raw) by (bit_vector);
    ue_id
}

/// A copy of a URI.
pub fn clone_uri(u: &UUri) -> (r: UUri)
    ensures
        r == *u,
{
    UUri {
        authority_name: u.authority_name.clone(),
        ue_id: u.ue_id,
        ue_version_major: u.ue_version_major,
        resource_id: u.resource_id,
    }
}

/// The authority name that matches any authority.
pub open spec fn wildcard_authority() -> Seq<char> {
    seq!['*']
}

/// The uEntity id that matches any instance of any service.
pub const WILDCARD_UE_ID: u32 = 0x0000_FFFF;

/// The major version that matches any version.
pub const WILDCARD_UE_VERSION_MAJOR: u32 = 0xFF;

/// The resource id that matches any resource.
pub const WILDCARD_RESOURCE_ID: u32 = 0xFFFF;

/// Whether an authority name is the wildcard `*`.
pub fn is_wildcard_authority(name: &String) -> (r: bool)
    ensures
        r == (name@ == wildcard_authority()),
{
    let text = name.as_str();
    if text.unicode_len() != 1 {
        return false;
    }
    let c = text.get_char(0);
    if c == '*' {
        assert(text@ =~= wildcard_authority());
        true
    } else {
        false
    }
}

/// The URI whose every part is the wildcard.
pub fn any_uuri() -> (r: UUri)
    ensures
        r.authority_name@ == wildcard_authority(),
        r.ue_id == WILDCARD_UE_ID,
        r.ue_version_major == WILDCARD_UE_VERSION_MAJOR,
        r.resource_id == WILDCARD_RESOURCE_ID,
{
    let authority_name = String::from_str("*");
    proof {
        reveal_strlit("*");
    }
    assert(authority_name@ =~= wildcard_authority());
    UUri {
        authority_name,
        ue_id: WILDCARD_UE_ID,
        ue_version_major: WILDCARD_UE_VERSION_MAJOR,
        resource_id: WILDCARD_RESOURCE_ID,
    }
}

} // verus!
