//! The SOME/IP services and events that have been offered or requested.
use vstd::prelude::*;
use std::collections::HashSet;
use crate::ids::{ServiceId, InstanceId, MethodId, EventId};

verus! {

broadcast use vstd::std_specs::hash::group_hash_axioms;

/// A service, instance and method (or event) id.
pub type ServiceTriple = (ServiceId, InstanceId, u16);

/// The 64-bit key that stands for a triple: service, instance and member id, 16 bits each.
pub open spec fn triple_key(t: ServiceTriple) -> u64 {
    (t.0 as int * 0x1_0000_0000 + t.1 as int * 0x1_0000 + t.2 as int) as u64
}

/// The triples whose keys a set holds.
pub open spec fn triples_of(keys: Set<u64>) -> Set<ServiceTriple> {
    Set::new(|t: ServiceTriple| keys.contains(triple_key(t)))
}

proof fn lemma_digits_unique(q1: int, r1: int, q2: int, r2: int, d: int)
    requires
        d > 0,
        0 <= r1 < d,
        0 <= r2 < d,
        q1 * d + r1 == q2 * d + r2,
    ensures
        q1 == q2,
        r1 == r2,
{
    if q1 < q2 {
        assert((q2 - q1) * d >= d) by (nonlinear_arith)
            requires q2 - q1 >= 1, d > 0;
        assert(q2 * d - q1 * d == (q2 - q1) * d) by (nonlinear_arith);
    } else if q1 > q2 {
        assert((q1 - q2) * d >= d) by (nonlinear_arith)
            requires q1 - q2 >= 1, d > 0;
        assert(q1 * d - q2 * d == (q1 - q2) * d) by (nonlinear_arith);
    }
}

proof fn lemma_triple_key_injective(a: ServiceTriple, b: ServiceTriple)
    requires
        triple_key(a) == triple_key(b),
    ensures
        a == b,
{
    let xa = a.1 as int * 0x1_0000 + a.2 as int;
    let xb = b.1 as int * 0x1_0000 + b.2 as int;
    assert(0 <= xa < 0x1_0000_0000);
    assert(0 <= xb < 0x1_0000_0000);
    assert(a.0 as int * 0x1_0000_0000 + xa < 0x1_0000_0000_0000_0000);
    assert(b.0 as int * 0x1_0000_0000 + xb < 0x1_0000_0000_0000_0000);
    lemma_digits_unique(a.0 as int, xa, b.0 as int, xb, 0x1_0000_0000);
    lemma_digits_unique(a.1 as int, a.2 as int, b.1 as int, b.2 as int, 0x1_0000);
}

fn key_of(service_id: ServiceId, instance_id: InstanceId, member_id: u16) -> (r: u64)
    ensures
        r == triple_key((service_id, instance_id, member_id)),
{
    assert((((service_id as u64) << 32u64) | ((instance_id as u64) << 16u64) | (member_id as u64)) == service_id
        as int * 0x1_0000_0000 + instance_id as int * 0x1_0000 + member_id as int) by (bit_vector);
    ((service_id as u64) << 32u64) | ((instance_id as u64) << 16u64) | (member_id as u64)
}

/// A set of service triples.
struct TripleSet {
    keys: HashSet<u64>,
}

impl TripleSet {
    closed spec fn view(&self) -> Set<ServiceTriple> {
        triples_of(self.keys@)
    }

    fn new() -> (r: TripleSet)
        ensures
            r.view() == Set::<ServiceTriple>::empty(),
    {
        let r = TripleSet { keys: HashSet::new() };
        assert(r.view() =~= Set::<ServiceTriple>::empty());
        r
    }

    fn contains(&self, service_id: ServiceId, instance_id: InstanceId, member_id: u16) -> (r: bool)
        ensures
            r == self.view().contains((service_id, instance_id, member_id)),
    {
        let key = key_of(service_id, instance_id, member_id);
        self.keys.contains(&key)
    }

    fn insert(&mut self, service_id: ServiceId, instance_id: InstanceId, member_id: u16) -> (r: bool)
        ensures
            r == !old(self).view().contains((service_id, instance_id, member_id)),
            final(self).view() == old(self).view().insert((service_id, instance_id, member_id)),
    {
        let key = key_of(service_id, instance_id, member_id);
        let r = self.keys.insert(key);
        proof {
            let t = (service_id, instance_id, member_id);
            assert forall|u: ServiceTriple| #[trigger] self.view().contains(u) == old(self).view().insert(t).contains(u) by {
                if triple_key(u) == triple_key(t) {
                    lemma_triple_key_injective(u, t);
                }
            }
            assert(self.view() =~= old(self).view().insert(t));
        }
        r
    }
}

/// vsomeip services and events that have been offered and requested.
pub struct VsomeipOfferedRequested {
    offered_services: TripleSet,
    requested_services: TripleSet,
    offered_events: TripleSet,
    requested_events: TripleSet,
}

impl VsomeipOfferedRequested {
    /// The offered services: service, instance and method ids.
    pub closed spec fn offered_services(&self) -> Set<ServiceTriple> {
        self.offered_services.view()
    }

    /// The requested services: service, instance and method ids.
    pub closed spec fn requested_services(&self) -> Set<ServiceTriple> {
        self.requested_services.view()
    }

    /// The offered events: service, instance and event ids.
    pub closed spec fn offered_events(&self) -> Set<ServiceTriple> {
        self.offered_events.view()
    }

    /// The requested events: service, instance and event ids.
    pub closed spec fn requested_events(&self) -> Set<ServiceTriple> {
        self.requested_events.view()
    }

    /// Nothing offered or requested yet.
    pub fn new() -> (r: VsomeipOfferedRequested)
        ensures
            r.offered_services() == Set::<ServiceTriple>::empty(),
            r.requested_services() == Set::<ServiceTriple>::empty(),
            r.offered_events() == Set::<ServiceTriple>::empty(),
            r.requested_events() == Set::<ServiceTriple>::empty(),
    {
        VsomeipOfferedRequested {
            offered_services: TripleSet::new(),
            requested_services: TripleSet::new(),
            offered_events: TripleSet::new(),
            requested_events: TripleSet::new(),
        }
    }

    /// Whether a service has been offered.
    pub fn is_service_offered(&self, service_id: ServiceId, instance_id: InstanceId, method_id: MethodId) -> (r: bool)
        ensures
            r == self.offered_services().contains((service_id, instance_id, method_id)),
    {
        self.offered_services.contains(service_id, instance_id, method_id)
    }

    /// Records an offered service; true when it had not been recorded before.
    pub fn insert_service_offered(&mut self, service_id: ServiceId, instance_id: InstanceId, method_id: MethodId) -> (r: bool)
        ensures
            r == !old(self).offered_services().contains((service_id, instance_id, method_id)),
            final(self).offered_services() == old(self).offered_services().insert((service_id, instance_id, method_id)),
            final(self).requested_services() == old(self).requested_services(),
            final(self).offered_events() == old(self).offered_events(),
            final(self).requested_events() == old(self).requested_events(),
    {
        self.offered_services.insert(service_id, instance_id, method_id)
    }

    /// Whether a service has been requested.
    pub fn is_service_requested(&self, service_id: ServiceId, instance_id: InstanceId, method_id: MethodId) -> (r: bool)
        ensures
            r == self.requested_services().contains((service_id, instance_id, method_id)),
    {
        self.requested_services.contains(service_id, instance_id, method_id)
    }

    /// Records a requested service; true when it had not been recorded before.
    pub fn insert_service_requested(&mut self, service_id: ServiceId, instance_id: InstanceId, method_id: MethodId) -> (r: bool)
        ensures
            r == !old(self).requested_services().contains((service_id, instance_id, method_id)),
            final(self).requested_services() == old(self).requested_services().insert((service_id, instance_id, method_id)),
            final(self).offered_services() == old(self).offered_services(),
            final(self).offered_events() == old(self).offered_events(),
            final(self).requested_events() == old(self).requested_events(),
    {
        self.requested_services.insert(service_id, instance_id, method_id)
    }

    /// Whether an event has been offered.
    pub fn is_event_offered(&self, service_id: ServiceId, instance_id: InstanceId, event_id: EventId) -> (r: bool)
        ensures
            r == self.offered_events().contains((service_id, instance_id, event_id)),
    {
        self.offered_events.contains(service_id, instance_id, event_id)
    }

    /// Records an offered event; true when it had not been recorded before.
    pub fn insert_event_offered(&mut self, service_id: ServiceId, instance_id: InstanceId, event_id: EventId) -> (r: bool)
        ensures
            r == !old(self).offered_events().contains((service_id, instance_id, event_id)),
            final(self).offered_events() == old(self).offered_events().insert((service_id, instance_id, event_id)),
            final(self).offered_services() == old(self).offered_services(),
            final(self).requested_services() == old(self).requested_services(),
            final(self).requested_events() == old(self).requested_events(),
    {
        self.offered_events.insert(service_id, instance_id, event_id)
    }

    /// Whether an event has been requested.
    pub fn is_event_requested(&self, service_id: ServiceId, instance_id: InstanceId, event_id: EventId) -> (r: bool)
        ensures
            r == self.requested_events().contains((service_id, instance_id, event_id)),
    {
        self.requested_events.contains(service_id, instance_id, event_id)
    }

    /// Records a requested event; true when it had not been recorded before.
    pub fn insert_event_requested(&mut self, service_id: ServiceId, instance_id: InstanceId, event_id: EventId) -> (r: bool)
        ensures
            r == !old(self).requested_events().contains((service_id, instance_id, event_id)),
            final(self).requested_events() == old(self).requested_events().insert((service_id, instance_id, event_id)),
            final(self).offered_services() == old(self).offered_services(),
            final(self).requested_services() == old(self).requested_services(),
            final(self).offered_events() == old(self).offered_events(),
    {
        self.requested_events.insert(service_id, instance_id, event_id)
    }
}

/// vsomeip services and events that have been offered and requested, as the transport's storage
/// keeps them.
pub struct VsomeipOfferedRequested2 {
    offered_services: TripleSet,
    requested_services: TripleSet,
    offered_events: TripleSet,
    requested_events: TripleSet,
}

impl VsomeipOfferedRequested2 {
    /// The offered services: service, instance and method ids.
    pub closed spec fn offered_services(&self) -> Set<ServiceTriple> {
        self.offered_services.view()
    }

    /// The requested services: service, instance and method ids.
    pub closed spec fn requested_services(&self) -> Set<ServiceTriple> {
        self.requested_services.view()
    }

    /// The offered events: service, instance and event ids.
    pub closed spec fn offered_events(&self) -> Set<ServiceTriple> {
        self.offered_events.view()
    }

    /// The requested events: service, instance and event ids.
    pub closed spec fn requested_events(&self) -> Set<ServiceTriple> {
        self.requested_events.view()
    }

    /// Nothing offered or requested yet.
    pub fn new() -> (r: VsomeipOfferedRequested2)
        ensures
            r.offered_services() == Set::<ServiceTriple>::empty(),
            r.requested_services() == Set::<ServiceTriple>::empty(),
            r.offered_events() == Set::<ServiceTriple>::empty(),
            r.requested_events() == Set::<ServiceTriple>::empty(),
    {
        VsomeipOfferedRequested2 {
            offered_services: TripleSet::new(),
            requested_services: TripleSet::new(),
            offered_events: TripleSet::new(),
            requested_events: TripleSet::new(),
        }
    }

    /// Whether a service has been offered.
    pub fn is_service_offered(&self, service_id: ServiceId, instance_id: InstanceId, method_id: MethodId) -> (r: bool)
        ensures
            r == self.offered_services().contains((service_id, instance_id, method_id)),
    {
        self.offered_services.contains(service_id, instance_id, method_id)
    }

    /// Records an offered service; true when it had not been recorded before.
    pub fn insert_service_offered(&mut self, service_id: ServiceId, instance_id: InstanceId, method_id: MethodId) -> (r: bool)
        ensures
            r == !old(self).offered_services().contains((service_id, instance_id, method_id)),
            final(self).offered_services() == old(self).offered_services().insert((service_id, instance_id, method_id)),
            final(self).requested_services() == old(self).requested_services(),
            final(self).offered_events() == old(self).offered_events(),
            final(self).requested_events() == old(self).requested_events(),
    {
        self.offered_services.insert(service_id, instance_id, method_id)
    }

    /// Whether a service has been requested.
    pub fn is_service_requested(&self, service_id: ServiceId, instance_id: InstanceId, method_id: MethodId) -> (r: bool)
        ensures
            r == self.requested_services().contains((service_id, instance_id, method_id)),
    {
        self.requested_services.contains(service_id, instance_id, method_id)
    }

    /// Records a requested service; true when it had not been recorded before.
    pub fn insert_service_requested(&mut self, service_id: ServiceId, instance_id: InstanceId, method_id: MethodId) -> (r: bool)
        ensures
            r == !old(self).requested_services().contains((service_id, instance_id, method_id)),
            final(self).requested_services() == old(self).requested_services().insert((service_id, instance_id, method_id)),
            final(self).offered_services() == old(self).offered_services(),
            final(self).offered_events() == old(self).offered_events(),
            final(self).requested_events() == old(self).requested_events(),
    {
        self.requested_services.insert(service_id, instance_id, method_id)
    }

    /// Whether an event has been offered.
    pub fn is_event_offered(&self, service_id: ServiceId, instance_id: InstanceId, event_id: EventId) -> (r: bool)
        ensures
            r == self.offered_events().contains((service_id, instance_id, event_id)),
    {
        self.offered_events.contains(service_id, instance_id, event_id)
    }

    /// Records an offered event; true when it had not been recorded before.
    pub fn insert_event_offered(&mut self, service_id: ServiceId, instance_id: InstanceId, event_id: EventId) -> (r: bool)
        ensures
            r == !old(self).offered_events().contains((service_id, instance_id, event_id)),
            final(self).offered_events() == old(self).offered_events().insert((service_id, instance_id, event_id)),
            final(self).offered_services() == old(self).offered_services(),
            final(self).requested_services() == old(self).requested_services(),
            final(self).requested_events() == old(self).requested_events(),
    {
        self.offered_events.insert(service_id, instance_id, event_id)
    }

    /// Whether an event has been requested.
    pub fn is_event_requested(&self, service_id: ServiceId, instance_id: InstanceId, event_id: EventId) -> (r: bool)
        ensures
            r == self.requested_events().contains((service_id, instance_id, event_id)),
    {
        self.requested_events.contains(service_id, instance_id, event_id)
    }

    /// Records a requested event; true when it had not been recorded before.
    pub fn insert_event_requested(&mut self, service_id: ServiceId, instance_id: InstanceId, event_id: EventId) -> (r: bool)
        ensures
            r == !old(self).requested_events().contains((service_id, instance_id, event_id)),
            final(self).requested_events() == old(self).requested_events().insert((service_id, instance_id, event_id)),
            final(self).offered_services() == old(self).offered_services(),
            final(self).requested_services() == old(self).requested_services(),
            final(self).offered_events() == old(self).offered_events(),
    {
        self.requested_events.insert(service_id, instance_id, event_id)
    }
}

/// Once a service is recorded as offered, it is reported as offered, and recording it again
/// reports that it was already there.
pub proof fn lemma_offered_after_insert(before: Set<ServiceTriple>, t: ServiceTriple)
    ensures
        before.insert(t).contains(t),
        before.insert(t).insert(t) == before.insert(t),
{
    assert(before.insert(t).insert(t) =~= before.insert(t));
}

/// One recording call on a registry of offered and requested services and events.
pub enum OfferedRequestedCall {
    OfferService(ServiceTriple),
    RequestService(ServiceTriple),
    OfferEvent(ServiceTriple),
    RequestEvent(ServiceTriple),
}

/// The four sets of a registry: offered services, requested services, offered events, requested
/// events.
pub type OfferedRequestedSets = (Set<ServiceTriple>, Set<ServiceTriple>, Set<ServiceTriple>, Set<ServiceTriple>);

/// The four sets of a registry.
pub open spec fn sets_of(r: VsomeipOfferedRequested) -> OfferedRequestedSets {
    (r.offered_services(), r.requested_services(), r.offered_events(), r.requested_events())
}

/// What one recording call does to the four sets: its triple joins its own set, and the other
/// sets stay as they were.
pub open spec fn after_call(before: OfferedRequestedSets, call: OfferedRequestedCall) -> OfferedRequestedSets {
    match call {
        OfferedRequestedCall::OfferService(t) => (before.0.insert(t), before.1, before.2, before.3),
        OfferedRequestedCall::RequestService(t) => (before.0, before.1.insert(t), before.2, before.3),
        OfferedRequestedCall::OfferEvent(t) => (before.0, before.1, before.2.insert(t), before.3),
        OfferedRequestedCall::RequestEvent(t) => (before.0, before.1, before.2, before.3.insert(t)),
    }
}

/// Whether some call among the first `n` recorded `t` as a requested service.
pub open spec fn requested_by_some_call(calls: Seq<OfferedRequestedCall>, n: int, t: ServiceTriple) -> bool {
    exists|i: int| 0 <= i < n && #[trigger] calls[i] == OfferedRequestedCall::RequestService(t)
}

proof fn lemma_requested_prefix(
    states: Seq<VsomeipOfferedRequested>,
    calls: Seq<OfferedRequestedCall>,
    t: ServiceTriple,
    n: int,
)
    requires
        states.len() == calls.len() + 1,
        sets_of(states[0]).1 == Set::<ServiceTriple>::empty(),
        forall|i: int| 0 <= i < calls.len() ==> sets_of(#[trigger] states[i + 1]) == after_call(sets_of(states[i]), calls[i]),
        0 <= n <= calls.len(),
    ensures
        sets_of(states[n]).1.contains(t) <==> requested_by_some_call(calls, n, t),
    decreases n,
{
    if n > 0 {
        lemma_requested_prefix(states, calls, t, n - 1);
        assert(sets_of(states[(n - 1) + 1]) == after_call(sets_of(states[n - 1]), calls[n - 1]));
        if requested_by_some_call(calls, n, t) && !requested_by_some_call(calls, n - 1, t) {
            let i = choose|i: int| 0 <= i < n && #[trigger] calls[i] == OfferedRequestedCall::RequestService(t);
            assert(i == n - 1);
        }
        if calls[n - 1] == OfferedRequestedCall::RequestService(t) {
            assert(requested_by_some_call(calls, n, t));
        }
        if requested_by_some_call(calls, n - 1, t) {
            let i = choose|i: int| 0 <= i < n - 1 && #[trigger] calls[i] == OfferedRequestedCall::RequestService(t);
            assert(0 <= i < n && calls[i] == OfferedRequestedCall::RequestService(t));
        }
    }
}

/// Starting from a new registry and making any sequence of recording calls, a service is
/// reported as requested exactly when one of the calls recorded it as requested: recording
/// offered services or offered or requested events never makes it so.
pub proof fn lemma_requested_exactly_when_recorded(
    states: Seq<VsomeipOfferedRequested>,
    calls: Seq<OfferedRequestedCall>,
    t: ServiceTriple,
)
    requires
        states.len() == calls.len() + 1,
        sets_of(states[0]) == (Set::<ServiceTriple>::empty(), Set::<ServiceTriple>::empty(),
            Set::<ServiceTriple>::empty(), Set::<ServiceTriple>::empty()),
        forall|i: int| 0 <= i < calls.len() ==> sets_of(#[trigger] states[i + 1]) == after_call(sets_of(states[i]), calls[i]),
    ensures
        states.last().requested_services().contains(t) <==> requested_by_some_call(calls, calls.len() as int, t),
{
    lemma_requested_prefix(states, calls, t, calls.len() as int);
}

} // verus!
