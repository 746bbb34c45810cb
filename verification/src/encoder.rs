//! Building an advertisement payload from typed fields.
//!
//! The payload holds, in this order: the flags, the complete list of 16-bit
//! service UUIDs, the shortened local name, and the service data. Everything
//! but the name is written in full or not at all. The name takes what room the
//! other three leave: it is cut to the longest prefix that fits, and left out
//! where not even its two header bytes fit.

use vstd::prelude::*;
use vstd::slice::{slice_subrange, slice_to_vec};
use vstd::string::{is_ascii, is_ascii_spec_bytes, StringSliceAdditionalSpecFns};
use vstd::utf8::is_ascii_chars;
use crate::advertisement::{
    append_bytes, fits, lemma_wire_len, lemma_wire_push, parse, wire, wire_len, AdRecord,
    AdStructure, AdvertisementPayload, AD_TYPE_COMPLETE_SERVICES_16, AD_TYPE_FLAGS,
    AD_TYPE_SERVICE_DATA_16, AD_TYPE_SHORT_NAME, MAX_PAYLOAD_LEN,
};
use crate::flags::{flags_byte, flags_value, Flag};

verus! {

/// Why a payload could not be built.
#[derive(Clone, Copy, Debug, PartialEq, Eq, Structural)]
pub enum EncodeError {
    /// No flag was given: a broadcast without flags is not valid.
    NoFlags,
    /// The name holds a character outside ASCII.
    NameNotAscii,
    /// Flags, service list and service data alone exceed the payload limit.
    PayloadTooLarge,
}

/// Application data published under a 16-bit service UUID.
#[derive(Clone, Debug, PartialEq, Eq)]
pub struct ServiceData {
    pub uuid: u16,
    pub data: Vec<u8>,
}

/// A 16-bit UUID as it goes on air: low byte first.
pub open spec fn uuid_bytes(uuid: u16) -> Seq<u8> {
    seq![(uuid % 256) as u8, (uuid / 256) as u8]
}

/// A list of 16-bit UUIDs as it goes on air: one after the other, each low
/// byte first.
pub open spec fn uuid_list_bytes(uuids: Seq<u16>) -> Seq<u8> {
    Seq::new(
        2 * uuids.len(),
        |i: int|
            if i % 2 == 0 {
                (uuids[i / 2] % 256) as u8
            } else {
                (uuids[i / 2] / 256) as u8
            },
    )
}

/// An ASCII string as bytes: one byte per character.
pub open spec fn ascii_bytes(chars: Seq<char>) -> Seq<u8> {
    Seq::new(chars.len(), |i: int| chars[i] as u8)
}

/// The flags record: one byte with the bit of each flag that occurs.
pub open spec fn flags_record(flags: Seq<Flag>) -> AdRecord {
    AdRecord { ad_type: AD_TYPE_FLAGS, value: seq![flags_value(flags.to_set()) as u8] }
}

/// The record that lists the service UUIDs.
pub open spec fn services_record(uuids: Seq<u16>) -> AdRecord {
    AdRecord { ad_type: AD_TYPE_COMPLETE_SERVICES_16, value: uuid_list_bytes(uuids) }
}

/// The service data record: the UUID, then the data.
pub open spec fn service_data_record(uuid: u16, data: Seq<u8>) -> AdRecord {
    AdRecord { ad_type: AD_TYPE_SERVICE_DATA_16, value: uuid_bytes(uuid) + data }
}

/// Number of name characters that are written when `room` bytes are left for
/// the whole name record.
pub open spec fn name_kept(name_len: int, room: int) -> int {
    if name_len <= room - 2 {
        name_len
    } else {
        room - 2
    }
}

/// The name record for a name that has `room` bytes to itself, header
/// included: the longest prefix of the name that fits.
pub open spec fn name_record(name: Seq<char>, room: int) -> AdRecord {
    AdRecord {
        ad_type: AD_TYPE_SHORT_NAME,
        value: ascii_bytes(name).take(name_kept(name.len() as int, room)),
    }
}

/// Bytes taken by the three records that are never cut: flags, service list
/// and service data.
pub open spec fn fixed_len(uuid_count: int, data_len: int) -> int {
    3 + (2 + 2 * uuid_count) + (2 + 2 + data_len)
}

/// Bytes left for the name record once the other three are placed.
pub open spec fn name_room(uuid_count: int, data_len: int) -> int {
    MAX_PAYLOAD_LEN - fixed_len(uuid_count, data_len)
}

/// The one reason why these fields are refused, if they are.
pub open spec fn rejection(
    flags: Seq<Flag>,
    uuids: Seq<u16>,
    name: Seq<char>,
    data: Seq<u8>,
) -> Option<EncodeError> {
    if flags.len() == 0 {
        Some(EncodeError::NoFlags)
    } else if !is_ascii_chars(name) {
        Some(EncodeError::NameNotAscii)
    } else if fixed_len(uuids.len() as int, data.len() as int) > MAX_PAYLOAD_LEN {
        Some(EncodeError::PayloadTooLarge)
    } else {
        None
    }
}

/// The records that the payload for these fields holds, in order.
pub open spec fn planned_records(
    flags: Seq<Flag>,
    uuids: Seq<u16>,
    name: Seq<char>,
    uuid: u16,
    data: Seq<u8>,
) -> Seq<AdRecord> {
    let room = name_room(uuids.len() as int, data.len() as int);
    if room >= 2 {
        seq![
            flags_record(flags),
            services_record(uuids),
            name_record(name, room),
            service_data_record(uuid, data),
        ]
    } else {
        seq![flags_record(flags), services_record(uuids), service_data_record(uuid, data)]
    }
}

/// The wire length of what is planned: the three fixed records, and the name
/// record where it is there.
pub proof fn lemma_planned_len(
    flags: Seq<Flag>,
    uuids: Seq<u16>,
    name: Seq<char>,
    uuid: u16,
    data: Seq<u8>,
)
    requires
        fixed_len(uuids.len() as int, data.len() as int) <= MAX_PAYLOAD_LEN,
    ensures
        wire_len(planned_records(flags, uuids, name, uuid, data)) == fixed_len(
            uuids.len() as int,
            data.len() as int,
        ) + if name_room(uuids.len() as int, data.len() as int) >= 2 {
            2 + name_kept(name.len() as int, name_room(uuids.len() as int, data.len() as int))
        } else {
            0
        },
        fits(planned_records(flags, uuids, name, uuid, data)),
{
    let room = name_room(uuids.len() as int, data.len() as int);
    let none = Seq::<AdRecord>::empty();
    let one = none.push(flags_record(flags));
    let two = one.push(services_record(uuids));
    lemma_wire_push(none, flags_record(flags));
    lemma_wire_push(one, services_record(uuids));
    if room >= 2 {
        let three = two.push(name_record(name, room));
        let four = three.push(service_data_record(uuid, data));
        lemma_wire_push(two, name_record(name, room));
        lemma_wire_push(three, service_data_record(uuid, data));
        assert(four =~= planned_records(flags, uuids, name, uuid, data));
    } else {
        let three = two.push(service_data_record(uuid, data));
        lemma_wire_push(two, service_data_record(uuid, data));
        assert(three =~= planned_records(flags, uuids, name, uuid, data));
    }
}

/// Payload length: whatever fields are accepted, their payload is at most
/// [`MAX_PAYLOAD_LEN`] bytes long.
pub proof fn lemma_payload_within_limit(
    flags: Seq<Flag>,
    uuids: Seq<u16>,
    name: Seq<char>,
    uuid: u16,
    data: Seq<u8>,
)
    requires
        rejection(flags, uuids, name, data) is None,
    ensures
        wire(planned_records(flags, uuids, name, uuid, data)).len() <= MAX_PAYLOAD_LEN,
{
    lemma_planned_len(flags, uuids, name, uuid, data);
    lemma_wire_len(planned_records(flags, uuids, name, uuid, data));
}

/// Truncation precedence: whatever the name, the flags, the service list and
/// the service data stand in the payload in full, and only the name is cut,
/// to the longest prefix for which there is room.
pub proof fn lemma_only_name_is_cut(
    flags: Seq<Flag>,
    uuids: Seq<u16>,
    name: Seq<char>,
    uuid: u16,
    data: Seq<u8>,
)
    requires
        rejection(flags, uuids, name, data) is None,
    ensures
        ({
            let records = planned_records(flags, uuids, name, uuid, data);
            let room = name_room(uuids.len() as int, data.len() as int);
            &&& fits(records)
            &&& records[0] == flags_record(flags)
            &&& records[1] == services_record(uuids)
            &&& records.last() == service_data_record(uuid, data)
            &&& room >= 2 ==> {
                &&& records.len() == 4
                &&& records[2].ad_type == AD_TYPE_SHORT_NAME
                &&& records[2].value.is_prefix_of(ascii_bytes(name))
                &&& name.len() + 2 <= room ==> records[2].value == ascii_bytes(name)
                &&& name.len() + 2 > room ==> wire_len(records) == MAX_PAYLOAD_LEN
            }
            &&& room < 2 ==> records.len() == 3
        }),
{
    lemma_planned_len(flags, uuids, name, uuid, data);
}

/// The two bytes of a UUID, low byte first.
fn uuid_le(uuid: u16) -> (bytes: [u8; 2])
    ensures
        bytes@ == uuid_bytes(uuid),
{
    let bytes: [u8; 2] = [(uuid % 256) as u8, (uuid / 256) as u8];
    bytes
}

/// Builds the flags structure.
fn flags_structure(flags: &[Flag]) -> (structure: AdStructure)
    ensures
        structure@ == flags_record(flags@),
{
    let mut value: Vec<u8> = Vec::new();
    value.push(flags_byte(flags));
    AdStructure { ad_type: AD_TYPE_FLAGS, value }
}

/// Builds the structure that lists the service UUIDs.
fn services_structure(uuids: &[u16]) -> (structure: AdStructure)
    ensures
        structure@ == services_record(uuids@),
{
    let mut value: Vec<u8> = Vec::new();
    let mut i: usize = 0;
    while i < uuids.len()
        invariant
            i <= uuids.len(),
            value@ == uuid_list_bytes(uuids@.take(i as int)),
        decreases uuids.len() - i,
    {
        let pair = uuid_le(uuids[i]);
        value.push(pair[0]);
        value.push(pair[1]);
        i += 1;
    }
    assert(uuids@.take(i as int) =~= uuids@);
    AdStructure { ad_type: AD_TYPE_COMPLETE_SERVICES_16, value }
}

/// Builds the name structure for an ASCII name that has `room` bytes to
/// itself.
fn name_structure(name: &str, room: usize) -> (structure: AdStructure)
    requires
        is_ascii(name),
        2 <= room <= MAX_PAYLOAD_LEN,
    ensures
        structure@ == name_record(name@, room as int),
{
    let bytes = name.as_bytes();
    proof {
        is_ascii_spec_bytes(name);
    }
    let kept: usize = if bytes.len() <= room - 2 {
        bytes.len()
    } else {
        room - 2
    };
    let value = slice_to_vec(slice_subrange(bytes, 0, kept));
    AdStructure { ad_type: AD_TYPE_SHORT_NAME, value }
}

/// Builds the service data structure.
fn service_data_structure(service_data: &ServiceData) -> (structure: AdStructure)
    ensures
        structure@ == service_data_record(service_data.uuid, service_data.data@),
{
    let mut value: Vec<u8> = Vec::new();
    let pair = uuid_le(service_data.uuid);
    value.push(pair[0]);
    value.push(pair[1]);
    assert(value@ =~= uuid_bytes(service_data.uuid));
    append_bytes(&mut value, service_data.data.as_slice());
    AdStructure { ad_type: AD_TYPE_SERVICE_DATA_16, value }
}

/// Tells why these fields cannot be encoded, if they cannot.
///
/// Of the service data only the length matters here.
pub fn validate(
    flags: &[Flag],
    service_uuids: &[u16],
    short_name: &str,
    data: &[u8],
) -> (refusal: Option<EncodeError>)
    ensures
        refusal == rejection(flags@, service_uuids@, short_name@, data@),
{
    if flags.len() == 0 {
        Some(EncodeError::NoFlags)
    } else if !short_name.is_ascii() {
        Some(EncodeError::NameNotAscii)
    } else if service_uuids.len() > MAX_PAYLOAD_LEN
        || data.len() > MAX_PAYLOAD_LEN
        || 9 + 2 * service_uuids.len() + data.len() > MAX_PAYLOAD_LEN
    {
        Some(EncodeError::PayloadTooLarge)
    } else {
        None
    }
}

/// Encodes fields that are known to be acceptable.
pub(crate) fn encode_accepted(
    flags: &[Flag],
    service_uuids: &[u16],
    short_name: &str,
    service_data: &ServiceData,
) -> (payload: AdvertisementPayload)
    requires
        rejection(flags@, service_uuids@, short_name@, service_data.data@) is None,
    ensures
        payload@ == wire(
            planned_records(
                flags@,
                service_uuids@,
                short_name@,
                service_data.uuid,
                service_data.data@,
            ),
        ),
        payload@.len() <= MAX_PAYLOAD_LEN,
        parse(payload@) == Some(
            planned_records(
                flags@,
                service_uuids@,
                short_name@,
                service_data.uuid,
                service_data.data@,
            ),
        ),
{
    let room: usize = MAX_PAYLOAD_LEN - (9 + 2 * service_uuids.len() + service_data.data.len());
    let mut structures: Vec<AdStructure> = Vec::new();
    structures.push(flags_structure(flags));
    structures.push(services_structure(service_uuids));
    if room >= 2 {
        structures.push(name_structure(short_name, room));
    }
    structures.push(service_data_structure(service_data));
    proof {
        assert(structures.deep_view() =~= planned_records(
            flags@,
            service_uuids@,
            short_name@,
            service_data.uuid,
            service_data.data@,
        ));
        lemma_planned_len(
            flags@,
            service_uuids@,
            short_name@,
            service_data.uuid,
            service_data.data@,
        );
    }
    AdvertisementPayload::write(&structures)
}

/// Encodes flags, service UUIDs, a short name and service data as one
/// advertisement payload.
///
/// The fields are refused, in this order of precedence, with
/// [`EncodeError::NoFlags`] where `flags` is empty, with
/// [`EncodeError::NameNotAscii`] where `short_name` holds a character outside
/// ASCII, and with [`EncodeError::PayloadTooLarge`] where flags, service list
/// and service data together exceed [`MAX_PAYLOAD_LEN`] bytes. Otherwise the
/// payload holds the records of [`planned_records`]: the name is cut to what
/// room the other three leave, and nothing else is.
pub fn encode(
    flags: &[Flag],
    service_uuids: &[u16],
    short_name: &str,
    service_data: &ServiceData,
) -> (result: Result<AdvertisementPayload, EncodeError>)
    ensures
        match result {
            Ok(payload) => {
                let records = planned_records(
                    flags@,
                    service_uuids@,
                    short_name@,
                    service_data.uuid,
                    service_data.data@,
                );
                &&& rejection(flags@, service_uuids@, short_name@, service_data.data@) is None
                &&& payload@ == wire(records)
                &&& payload@.len() <= MAX_PAYLOAD_LEN
                &&& parse(payload@) == Some(records)
            },
            Err(error) => rejection(flags@, service_uuids@, short_name@, service_data.data@)
                == Some(error),
        },
{
    match validate(flags, service_uuids, short_name, service_data.data.as_slice()) {
        Some(error) => Err(error),
        None => Ok(encode_accepted(flags, service_uuids, short_name, service_data)),
    }
}

} // verus!
