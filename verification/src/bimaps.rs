//! The two-way maps of the `bimap` crate that the registries keep, declared to Verus, with the
//! methods that the registries call.
use vstd::prelude::*;
use bimap::BiHashMap;
use crate::listener_config::{ListenerConfigKey, ListenerConfigView, config_key_view};

verus! {

#[verifier::external_type_specification]
#[verifier::external_body]
#[verifier::reject_recursive_types(L)]
#[verifier::reject_recursive_types(R)]
#[verifier::reject_recursive_types(LS)]
#[verifier::reject_recursive_types(RS)]
pub struct ExBiHashMap<L, R, LS, RS>(BiHashMap<L, R, LS, RS>);

/// The map from client id to application name.
pub type AppNameMap = BiHashMap<u16, String>;

/// What a client-id-to-application-name map holds: each left value with its right value.
pub uninterp spec fn app_name_pairs(m: AppNameMap) -> Map<u16, Seq<char>>;

/// Calls `BiHashMap::new`: an empty map.
#[verifier::external_body]
pub(crate) fn app_names_new() -> (r: AppNameMap)
    ensures
        app_name_pairs(r).dom().is_empty(),
{
    BiHashMap::new()
}

/// Calls `BiHashMap::get_by_left` and clones what it finds: the right value paired with `left`.
#[verifier::external_body]
pub(crate) fn app_names_get_by_left(m: &AppNameMap, left: u16) -> (r: Option<String>)
    ensures
        match r {
            Some(right) => app_name_pairs(*m).contains_key(left) && right@ == app_name_pairs(*m)[left],
            None => !app_name_pairs(*m).contains_key(left),
        },
{
    m.get_by_left(&left).cloned()
}

/// Calls `BiHashMap::insert_no_overwrite`: by its source, when either value is present it refuses
/// and leaves the map unchanged; otherwise it adds the pair.
#[verifier::external_body]
pub(crate) fn app_names_insert_no_overwrite(m: &mut AppNameMap, left: u16, right: String) -> (r: bool)
    ensures
        r == !(app_name_pairs(*old(m)).contains_key(left) || app_name_pairs(*old(m)).contains_value(right@)),
        r ==> app_name_pairs(*final(m)) == app_name_pairs(*old(m)).insert(left, right@),
        !r ==> app_name_pairs(*final(m)) == app_name_pairs(*old(m)),
{
    m.insert_no_overwrite(left, right).is_ok()
}

/// Calls `BiHashMap::remove_by_left`: removes the pair with `left` and gives back its right value.
#[verifier::external_body]
pub(crate) fn app_names_remove_by_left(m: &mut AppNameMap, left: u16) -> (r: Option<String>)
    ensures
        match r {
            Some(right) => app_name_pairs(*old(m)).contains_key(left) && right@ == app_name_pairs(*old(m))[left]
                && app_name_pairs(*final(m)) == app_name_pairs(*old(m)).remove(left),
            None => !app_name_pairs(*old(m)).contains_key(left) && app_name_pairs(*final(m)) == app_name_pairs(*old(m)),
        },
{
    m.remove_by_left(&left).map(|pair| pair.1)
}

/// The map from listener id to registration.
pub type ListenerConfigMap = BiHashMap<usize, ListenerConfigKey>;

/// What a listener-id-to-registration map holds: each left value with its right value.
pub uninterp spec fn listener_config_pairs(m: ListenerConfigMap) -> Map<usize, ListenerConfigView>;

/// Calls `BiHashMap::new`: an empty map.
#[verifier::external_body]
pub(crate) fn configs_new() -> (r: ListenerConfigMap)
    ensures
        listener_config_pairs(r).dom().is_empty(),
{
    BiHashMap::new()
}

/// Calls `BiHashMap::insert_no_overwrite`: by its source, when either value is present it refuses
/// and leaves the map unchanged; otherwise it adds the pair.
#[verifier::external_body]
pub(crate) fn configs_insert_no_overwrite(m: &mut ListenerConfigMap, left: usize, right: ListenerConfigKey) -> (r: bool)
    ensures
        r == !(listener_config_pairs(*old(m)).contains_key(left)
            || listener_config_pairs(*old(m)).contains_value(config_key_view(right))),
        r ==> listener_config_pairs(*final(m)) == listener_config_pairs(*old(m)).insert(left, config_key_view(right)),
        !r ==> listener_config_pairs(*final(m)) == listener_config_pairs(*old(m)),
{
    m.insert_no_overwrite(left, right).is_ok()
}

/// Calls `BiHashMap::contains_left`: whether a pair has that left value.
#[verifier::external_body]
pub(crate) fn configs_contains_left(m: &ListenerConfigMap, left: usize) -> (r: bool)
    ensures
        r == listener_config_pairs(*m).contains_key(left),
{
    m.contains_left(&left)
}

/// Calls `BiHashMap::contains_right`: whether a pair has that right value.
#[verifier::external_body]
pub(crate) fn configs_contains_right(m: &ListenerConfigMap, right: &ListenerConfigKey) -> (r: bool)
    ensures
        r == listener_config_pairs(*m).contains_value(config_key_view(*right)),
{
    m.contains_right(right)
}

/// Calls `BiHashMap::get_by_left` and clones what it finds: the right value paired with `left`.
#[verifier::external_body]
pub(crate) fn configs_get_by_left(m: &ListenerConfigMap, left: usize) -> (r: Option<ListenerConfigKey>)
    ensures
        match r {
            Some(right) => listener_config_pairs(*m).contains_key(left)
                && config_key_view(right) == listener_config_pairs(*m)[left],
            None => !listener_config_pairs(*m).contains_key(left),
        },
{
    m.get_by_left(&left).cloned()
}

/// Calls `BiHashMap::get_by_right`: the left value paired with `right`.
#[verifier::external_body]
pub(crate) fn configs_get_by_right(m: &ListenerConfigMap, right: &ListenerConfigKey) -> (r: Option<usize>)
    ensures
        match r {
            Some(left) => listener_config_pairs(*m).contains_key(left)
                && listener_config_pairs(*m)[left] == config_key_view(*right),
            None => !listener_config_pairs(*m).contains_value(config_key_view(*right)),
        },
{
    m.get_by_right(right).copied()
}

/// Calls `BiHashMap::remove_by_left`: removes the pair with `left`, if there is one, and reports
/// whether there was.
#[verifier::external_body]
pub(crate) fn configs_remove_by_left(m: &mut ListenerConfigMap, left: usize) -> (r: bool)
    ensures
        r == listener_config_pairs(*old(m)).contains_key(left),
        listener_config_pairs(*final(m)) == listener_config_pairs(*old(m)).remove(left),
{
    m.remove_by_left(&left).is_some()
}

/// Calls `BiHashMap::left_values` and collects them: every left value once, in the map's own
/// order, which its source leaves unspecified.
#[verifier::external_body]
pub(crate) fn configs_left_values(m: &ListenerConfigMap) -> (r: Vec<usize>)
    ensures
        r@.no_duplicates(),
        r@.to_set() == listener_config_pairs(*m).dom(),
{
    m.left_values().copied().collect()
}

} // verus!
