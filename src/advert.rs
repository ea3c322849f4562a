//! The advertising payload that makes the robot discoverable.
use trouble_host::prelude::AdStructure;
use vstd::prelude::*;

verus! {

/// Largest legacy advertising payload, in bytes.
pub const MAX_ADVERTISING_DATA: usize = 31;

/// Flags advertised: LE general discoverable, BR/EDR not supported.
pub const ADVERTISING_FLAGS: u8 = 0x06;

/// The 16-bit service identifier advertised, in air order.
pub const SERVICE_UUID16: [u8; 2] = [0x0f, 0x18];

/// One advertising structure: its length (type byte included), its type,
/// then its data.
pub open spec fn ad_structure(ty: u8, data: Seq<u8>) -> Seq<u8> {
    seq![(data.len() + 1) as u8, ty] + data
}

/// Flags, then a complete list of one 16-bit service, then a complete
/// local name.
pub open spec fn advertisement_bytes(flags: u8, service: [u8; 2], name: Seq<u8>) -> Seq<u8> {
    ad_structure(0x01, seq![flags]) + ad_structure(0x03, seq![service[0], service[1]])
        + ad_structure(0x09, name)
}

/// Relies on `AdStructure::encode_slice`: each structure is written as
/// length, type and data, one after the other, and the call fails when
/// they do not fit in the 31-byte buffer.
#[verifier::external_body]
fn encode_advertisement(flags: u8, service: [u8; 2], name: &[u8]) -> (r: Option<Vec<u8>>)
    ensures
        r is Some <==> advertisement_bytes(flags, service, name@).len() <= 31,
        r is Some ==> r->Some_0@ == advertisement_bytes(flags, service, name@),
{
    let mut buffer = [0u8; 31];
    let structures = [
        AdStructure::Flags(flags),
        AdStructure::CompleteServiceUuids16(&[service]),
        AdStructure::CompleteLocalName(name),
    ];
    AdStructure::encode_slice(&structures, &mut buffer[..]).ok().map(|len| buffer[..len].to_vec())
}

/// The advertising payload for a device called `name`, or `None` when the
/// name is too long to fit.
pub fn advertising_data(name: &[u8]) -> (r: Option<Vec<u8>>)
    ensures
        r is Some <==> name@.len() + 9 <= MAX_ADVERTISING_DATA,
        r is Some ==> r->Some_0@ == advertisement_bytes(
            ADVERTISING_FLAGS,
            SERVICE_UUID16,
            name@,
        ),
{
    encode_advertisement(ADVERTISING_FLAGS, SERVICE_UUID16, name)
}

} // verus!
