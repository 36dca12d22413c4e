//! Arithmetic on SOME/IP and uProtocol identifiers.
use vstd::prelude::*;

verus! {

/// uEntity identifier: instance in the upper 16 bits, service in the lower 16.
pub type UeId = u32;
/// SOME/IP client identifier.
pub type ClientId = u16;
/// SOME/IP session identifier.
pub type SessionId = u16;
/// SOME/IP request identifier: client in the upper 16 bits, session in the lower 16.
pub type SomeIpRequestId = u32;
/// SOME/IP service identifier.
pub type ServiceId = u16;
/// SOME/IP instance identifier.
pub type InstanceId = u16;
/// SOME/IP method identifier.
pub type MethodId = u16;
/// SOME/IP event identifier.
pub type EventId = u16;

/// The upper half of a 32-bit value.
pub open spec fn high_half(value: u32) -> int {
    value as int / 0x1_0000
}

/// The lower half of a 32-bit value.
pub open spec fn low_half(value: u32) -> int {
    value as int % 0x1_0000
}

/// Splits a `u32` into its most and least significant 16 bits.
pub fn split_u32_to_u16(value: u32) -> (r: (u16, u16))
    ensures
        r.0 == high_half(value),
        r.1 == low_half(value),
{
    let most_significant_bits = (value >> 16) as u16;
    let least_significant_bits = (value & 0xFFFF) as u16;
    assert(((value >> 16) as u16) == value / 0x1_0000) by (bit_vector);
    assert(((value & 0xFFFF) as u16) == value % 0x1_0000) by (bit_vector);
    (most_significant_bits, least_significant_bits)
}

/// Splits a `u32` into its four bytes, most significant first.
pub fn split_u32_to_u8(value: u32) -> (r: (u8, u8, u8, u8))
    ensures
        r.0 == value as int / 0x100_0000,
        r.1 == (value as int / 0x1_0000) % 0x100,
        r.2 == (value as int / 0x100) % 0x100,
        r.3 == value as int % 0x100,
{
    let byte1 = (value >> 24) as u8;
    let byte2 = (value >> 16 & 0xFF) as u8;
    let byte3 = (value >> 8 & 0xFF) as u8;
    let byte4 = (value & 0xFF) as u8;
    assert(((value >> 24) as u8) == value / 0x100_0000) by (bit_vector);
    assert(((value >> 16 & 0xFF) as u8) == (value / 0x1_0000) % 0x100) by (bit_vector);
    assert(((value >> 8 & 0xFF) as u8) == (value / 0x100) % 0x100) by (bit_vector);
    assert(((value & 0xFF) as u8) == value % 0x100) by (bit_vector);
    (byte1, byte2, byte3, byte4)
}

/// Creates a SOME/IP request id from a client id and a session id.
pub fn create_request_id(client_id: ClientId, session_id: SessionId) -> (r: SomeIpRequestId)
    ensures
        r == client_id as int * 0x1_0000 + session_id as int,
{
    assert((((client_id as u32) << 16) | (session_id as u32)) == client_id as int * 0x1_0000
        + session_id as int) by (bit_vector);
    ((client_id as u32) << 16) | (session_id as u32)
}

/// The instance that a uEntity identifier names; an instance of zero means the default, one.
pub open spec fn instance_of(ue_id: UeId) -> int {
    if high_half(ue_id) == 0 {
        1
    } else {
        high_half(ue_id)
    }
}

/// Splits a uEntity identifier into its SOME/IP instance and service ids.
pub fn split_ue_id_to_instance_service(ue_id: UeId) -> (r: (InstanceId, ServiceId))
    ensures
        r.0 == instance_of(ue_id),
        r.1 == low_half(ue_id),
{
    let (instance_id, service_id) = split_u32_to_u16(ue_id);
    let instance_id = if instance_id < 1 {
        1
    } else {
        instance_id
    };
    (instance_id, service_id)
}

/// The uEntity identifier for an instance and a service; the default instance is left implicit.
pub open spec fn ue_id_of(instance_id: InstanceId, service_id: ServiceId) -> int {
    if instance_id == 1 {
        service_id as int
    } else {
        instance_id as int * 0x1_0000 + service_id as int
    }
}

/// Combines SOME/IP instance and service ids into a uEntity identifier.
pub fn create_ue_id_from_instance_service(instance_id: InstanceId, service_id: ServiceId) -> (r:
    UeId)
    ensures
        r == ue_id_of(instance_id, service_id),
{
    if instance_id == 1 {
        service_id as u32
    } else {
        assert((((instance_id as u32) << 16) | (service_id as u32)) == instance_id as int
            * 0x1_0000 + service_id as int) by (bit_vector);
        ((instance_id as u32) << 16) | (service_id as u32)
    }
}

/// Splitting a request id gives back the client and session it was made from.
pub proof fn lemma_request_id_round_trip(client_id: ClientId, session_id: SessionId)
    ensures
        high_half((client_id as int * 0x1_0000 + session_id as int) as u32) == client_id,
        low_half((client_id as int * 0x1_0000 + session_id as int) as u32) == session_id,
{
    let r = (client_id as int * 0x1_0000 + session_id as int) as u32;
    assert(r as int == client_id as int * 0x1_0000 + session_id as int);
}

/// Combining the instance and service that a uEntity identifier splits into gives the identifier
/// back, unless it names the default instance explicitly (instance one in the upper half).
pub proof fn lemma_ue_id_split_then_create(ue_id: UeId)
    requires
        high_half(ue_id) != 1,
    ensures
        ue_id_of(instance_of(ue_id) as u16, low_half(ue_id) as u16) == ue_id,
{
}

/// Splitting the identifier made from an instance and a service gives the service back, and the
/// instance with zero read as the default instance.
pub proof fn lemma_ue_id_create_then_split(instance_id: InstanceId, service_id: ServiceId)
    ensures
        ({
            let ue_id = ue_id_of(instance_id, service_id) as u32;
            &&& instance_of(ue_id) == (if instance_id == 0 {
                1
            } else {
                instance_id as int
            })
            &&& low_half(ue_id) == service_id
        }),
{
}

} // verus!
