//! The byte format of a legacy advertisement payload.
//!
//! A payload is a run of AD structures, each laid out as
//! `[length][type][value...]` with `length = 1 + value.len()`, and holds at
//! most [`MAX_PAYLOAD_LEN`] bytes in all. This module says what those bytes
//! are ([`wire`]), how they are read back ([`parse`]), and proves that reading
//! undoes writing.

use vstd::prelude::*;
use vstd::slice::{slice_subrange, slice_to_vec};

verus! {

/// Size limit of a legacy advertisement payload, in bytes.
pub const MAX_PAYLOAD_LEN: usize = 31;

/// Longest value that one AD structure can carry: its length byte counts the
/// type byte too.
pub const MAX_VALUE_LEN: usize = 254;

/// AD type of the flags structure.
pub const AD_TYPE_FLAGS: u8 = 0x01;

/// AD type of a complete list of 16-bit service UUIDs.
pub const AD_TYPE_COMPLETE_SERVICES_16: u8 = 0x03;

/// AD type of a shortened local name.
pub const AD_TYPE_SHORT_NAME: u8 = 0x08;

/// AD type of service data that starts with a 16-bit service UUID.
pub const AD_TYPE_SERVICE_DATA_16: u8 = 0x16;

/// One AD structure, as it is reasoned about: a type tag and the value bytes.
pub struct AdRecord {
    pub ad_type: u8,
    pub value: Seq<u8>,
}

/// One AD structure, as it is held at run time.
#[derive(Clone, Debug, PartialEq, Eq)]
pub struct AdStructure {
    pub ad_type: u8,
    pub value: Vec<u8>,
}

impl View for AdStructure {
    type V = AdRecord;

    open spec fn view(&self) -> AdRecord {
        AdRecord { ad_type: self.ad_type, value: self.value@ }
    }
}

impl DeepView for AdStructure {
    type V = AdRecord;

    open spec fn deep_view(&self) -> AdRecord {
        self@
    }
}

/// A record can be written if its length fits the length byte.
pub open spec fn encodable(record: AdRecord) -> bool {
    record.value.len() <= MAX_VALUE_LEN
}

/// The bytes of one record: length, type, value.
pub open spec fn record_bytes(record: AdRecord) -> Seq<u8> {
    seq![(record.value.len() + 1) as u8, record.ad_type] + record.value
}

/// The bytes of a run of records, one after the other.
pub open spec fn wire(records: Seq<AdRecord>) -> Seq<u8>
    decreases records.len(),
{
    if records.len() == 0 {
        Seq::empty()
    } else {
        record_bytes(records[0]) + wire(records.drop_first())
    }
}

/// Number of bytes that a run of records takes on the wire.
pub open spec fn wire_len(records: Seq<AdRecord>) -> int
    decreases records.len(),
{
    if records.len() == 0 {
        0
    } else {
        2 + records[0].value.len() + wire_len(records.drop_first())
    }
}

/// Reads a byte string as a run of records, taking `[length][type][value]`
/// off the front until nothing is left.
///
/// The result is `None` where a length byte is zero or reaches past the end.
pub open spec fn parse(bytes: Seq<u8>) -> Option<Seq<AdRecord>>
    decreases bytes.len(),
{
    if bytes.len() == 0 {
        Some(Seq::empty())
    } else {
        let end = 1 + bytes[0] as int;
        if bytes[0] == 0 || end > bytes.len() {
            None
        } else {
            let first = AdRecord { ad_type: bytes[1], value: bytes.subrange(2, end) };
            match parse(bytes.subrange(end, bytes.len() as int)) {
                Some(rest) => Some(seq![first] + rest),
                None => None,
            }
        }
    }
}

/// Writing two runs one after the other is writing their concatenation.
pub proof fn lemma_wire_concat(front: Seq<AdRecord>, back: Seq<AdRecord>)
    ensures
        wire(front + back) == wire(front) + wire(back),
        wire_len(front + back) == wire_len(front) + wire_len(back),
    decreases front.len(),
{
    if front.len() > 0 {
        assert((front + back).drop_first() =~= front.drop_first() + back);
        lemma_wire_concat(front.drop_first(), back);
    }
}

/// Appending one record appends its bytes.
pub proof fn lemma_wire_push(records: Seq<AdRecord>, record: AdRecord)
    ensures
        wire(records.push(record)) == wire(records) + record_bytes(record),
        wire_len(records.push(record)) == wire_len(records) + 2 + record.value.len(),
{
    let single = seq![record];
    assert(wire(single) =~= record_bytes(record) && wire_len(single) == 2 + record.value.len()) by {
        reveal_with_fuel(wire, 2);
        reveal_with_fuel(wire_len, 2);
    }
    assert(records.push(record) =~= records + single);
    lemma_wire_concat(records, single);
}

/// The wire form of a run of records is as long as [`wire_len`] says.
pub proof fn lemma_wire_len(records: Seq<AdRecord>)
    ensures
        wire(records).len() == wire_len(records),
    decreases records.len(),
{
    if records.len() > 0 {
        lemma_wire_len(records.drop_first());
    }
}

/// Length-prefix round trip: reading the wire form of any run of encodable
/// records gives back exactly those records, in the same order.
pub proof fn lemma_parse_wire(records: Seq<AdRecord>)
    requires
        forall|i: int| 0 <= i < records.len() ==> encodable(#[trigger] records[i]),
    ensures
        parse(wire(records)) == Some(records),
    decreases records.len(),
{
    if records.len() > 0 {
        let first = records[0];
        let rest = records.drop_first();
        let bytes = wire(records);
        let end = 2 + first.value.len() as int;
        assert(bytes.subrange(2, end) =~= first.value);
        assert(bytes.subrange(end, bytes.len() as int) =~= wire(rest));
        lemma_parse_wire(rest);
    }
}

/// Reading loses nothing: writing the records that were read from a byte
/// string gives that byte string back, and each of them is encodable.
pub proof fn lemma_wire_parse(bytes: Seq<u8>)
    requires
        parse(bytes) is Some,
    ensures
        wire(parse(bytes).unwrap()) == bytes,
        forall|i: int|
            0 <= i < parse(bytes).unwrap().len() ==> encodable(#[trigger] parse(bytes).unwrap()[i]),
    decreases bytes.len(),
{
    if bytes.len() > 0 {
        let end = 1 + bytes[0] as int;
        let tail = bytes.subrange(end, bytes.len() as int);
        let first = AdRecord { ad_type: bytes[1], value: bytes.subrange(2, end) };
        lemma_wire_parse(tail);
        let rest = parse(tail).unwrap();
        let records = parse(bytes).unwrap();
        assert(records.drop_first() =~= rest);
    }
}

/// What is still to be read after `done` has been read from the front.
spec fn prepend(done: Seq<AdRecord>, rest: Option<Seq<AdRecord>>) -> Option<Seq<AdRecord>> {
    match rest {
        Some(rest) => Some(done + rest),
        None => None,
    }
}

/// Reads a byte string as a run of AD structures.
///
/// Returns the structures in the order in which they stand in `bytes`, or
/// `None` where `bytes` is no run of structures: a length byte is zero, or
/// it announces more bytes than are left.
pub fn decode(bytes: &[u8]) -> (structures: Option<Vec<AdStructure>>)
    ensures
        match structures {
            Some(found) => parse(bytes@) == Some(found.deep_view()),
            None => parse(bytes@) is None,
        },
{
    let mut found: Vec<AdStructure> = Vec::new();
    let mut pos: usize = 0;
    assert(bytes@.subrange(0, bytes@.len() as int) =~= bytes@);
    while pos < bytes.len()
        invariant
            pos <= bytes.len(),
            parse(bytes@) == prepend(
                found.deep_view(),
                parse(bytes@.subrange(pos as int, bytes@.len() as int)),
            ),
        decreases bytes.len() - pos,
    {
        let ghost left = bytes@.subrange(pos as int, bytes@.len() as int);
        let ghost before = found.deep_view();
        let length: usize = bytes[pos] as usize;
        if length == 0 || length > bytes.len() - pos - 1 {
            return None;
        }
        let value = slice_to_vec(slice_subrange(bytes, pos + 2, pos + 1 + length));
        let structure = AdStructure { ad_type: bytes[pos + 1], value };
        proof {
            let end = 1 + length as int;
            assert(left.subrange(2, end) =~= structure.value@);
            assert(left.subrange(end, left.len() as int) =~= bytes@.subrange(
                pos + end,
                bytes@.len() as int,
            ));
        }
        found.push(structure);
        pos = pos + 1 + length;
        proof {
            let first = structure@;
            assert(forall|rest: Seq<AdRecord>|
                before + (seq![first] + rest) =~= before.push(first) + rest);
        }
    }
    Some(found)
}

/// A run of records fits a payload if its wire form is no longer than
/// [`MAX_PAYLOAD_LEN`].
pub open spec fn fits(records: Seq<AdRecord>) -> bool {
    wire_len(records) <= MAX_PAYLOAD_LEN
}

/// A run of records is at least as long on the wire as any of its prefixes,
/// and each record at least two bytes plus its value.
pub proof fn lemma_wire_len_grows(records: Seq<AdRecord>, n: int)
    requires
        0 <= n <= records.len(),
    ensures
        0 <= wire_len(records.take(n)) <= wire_len(records),
        n < records.len() ==> wire_len(records.take(n)) + 2 + records[n].value.len() <= wire_len(
            records,
        ),
    decreases records.len() - n,
{
    lemma_wire_len(records.take(n));
    if n < records.len() {
        assert(records.take(n + 1) =~= records.take(n).push(records[n]));
        lemma_wire_push(records.take(n), records[n]);
        lemma_wire_len_grows(records, n + 1);
    } else {
        assert(records.take(n) =~= records);
    }
}

/// Appends `bytes` to `out`.
pub(crate) fn append_bytes(out: &mut Vec<u8>, bytes: &[u8])
    ensures
        final(out)@ == old(out)@ + bytes@,
{
    let mut i: usize = 0;
    while i < bytes.len()
        invariant
            i <= bytes.len(),
            out@ == old(out)@ + bytes@.take(i as int),
        decreases bytes.len() - i,
    {
        out.push(bytes[i]);
        i += 1;
    }
}

/// Tells whether `structures` fit one payload.
fn within_limit(structures: &Vec<AdStructure>) -> (ok: bool)
    ensures
        ok == fits(structures.deep_view()),
{
    let ghost records = structures.deep_view();
    let mut total: usize = 0;
    let mut i: usize = 0;
    while i < structures.len()
        invariant
            i <= structures.len(),
            records == structures.deep_view(),
            total == wire_len(records.take(i as int)),
            total <= MAX_PAYLOAD_LEN,
        decreases structures.len() - i,
    {
        let value_len: usize = structures[i].value.len();
        proof {
            lemma_wire_len_grows(records, i as int);
            lemma_wire_push(records.take(i as int), records[i as int]);
            assert(records.take(i + 1) =~= records.take(i as int).push(records[i as int]));
        }
        if total + 2 > MAX_PAYLOAD_LEN || value_len > MAX_PAYLOAD_LEN - total - 2 {
            return false;
        }
        total = total + 2 + value_len;
        i += 1;
    }
    assert(records.take(i as int) =~= records);
    true
}

/// The bytes that go on air in one advertisement: a run of AD structures,
/// at most [`MAX_PAYLOAD_LEN`] bytes long.
///
/// A value of this type always holds a well-formed run within the limit;
/// there is no way to make one that does not.
#[derive(Debug, PartialEq, Eq)]
pub struct AdvertisementPayload {
    bytes: Vec<u8>,
}

impl View for AdvertisementPayload {
    type V = Seq<u8>;

    closed spec fn view(&self) -> Seq<u8> {
        self.bytes@
    }
}

impl AdvertisementPayload {
    /// What every payload is: within the limit, and a run of structures.
    #[verifier::type_invariant]
    spec fn well_formed(&self) -> bool {
        &&& self.bytes@.len() <= MAX_PAYLOAD_LEN
        &&& parse(self.bytes@) is Some
    }

    /// Writes `structures` one after the other.
    ///
    /// Returns `None` where they take more than [`MAX_PAYLOAD_LEN`] bytes;
    /// nothing is ever cut or left out to make them fit.
    pub fn from_structures(structures: &Vec<AdStructure>) -> (payload: Option<AdvertisementPayload>)
        ensures
            match payload {
                Some(p) => {
                    &&& fits(structures.deep_view())
                    &&& p@ == wire(structures.deep_view())
                    &&& p@.len() <= MAX_PAYLOAD_LEN
                    &&& parse(p@) == Some(structures.deep_view())
                },
                None => !fits(structures.deep_view()),
            },
    {
        if within_limit(structures) {
            Some(AdvertisementPayload::write(structures))
        } else {
            None
        }
    }

    /// Writes structures that are known to fit.
    pub(crate) fn write(structures: &Vec<AdStructure>) -> (payload: AdvertisementPayload)
        requires
            fits(structures.deep_view()),
        ensures
            payload@ == wire(structures.deep_view()),
            payload@.len() <= MAX_PAYLOAD_LEN,
            parse(payload@) == Some(structures.deep_view()),
    {
        let ghost records = structures.deep_view();
        let mut bytes: Vec<u8> = Vec::new();
        let mut i: usize = 0;
        while i < structures.len()
            invariant
                i <= structures.len(),
                records == structures.deep_view(),
                fits(records),
                bytes@ == wire(records.take(i as int)),
                bytes@.len() == wire_len(records.take(i as int)),
                forall|k: int| 0 <= k < i ==> encodable(#[trigger] records[k]),
            decreases structures.len() - i,
        {
            let structure = &structures[i];
            proof {
                lemma_wire_len_grows(records, i as int);
                lemma_wire_push(records.take(i as int), records[i as int]);
                assert(records.take(i + 1) =~= records.take(i as int).push(records[i as int]));
            }
            let length: u8 = (structure.value.len() + 1) as u8;
            bytes.push(length);
            bytes.push(structure.ad_type);
            append_bytes(&mut bytes, structure.value.as_slice());
            i += 1;
        }
        proof {
            assert(records.take(i as int) =~= records);
            lemma_parse_wire(records);
        }
        AdvertisementPayload { bytes }
    }

    /// The payload's bytes, as they go on air.
    pub fn as_bytes(&self) -> (bytes: &[u8])
        ensures
            bytes@ == self@,
            bytes@.len() <= MAX_PAYLOAD_LEN,
            parse(bytes@) is Some,
    {
        proof {
            use_type_invariant(self);
        }
        self.bytes.as_slice()
    }

    /// Number of bytes in the payload.
    pub fn len(&self) -> (n: usize)
        ensures
            n == self@.len(),
            n <= MAX_PAYLOAD_LEN,
    {
        proof {
            use_type_invariant(self);
        }
        self.bytes.len()
    }

    /// The AD structures that the payload holds, read back from its bytes.
    pub fn structures(&self) -> (structures: Vec<AdStructure>)
        ensures
            parse(self@) == Some(structures.deep_view()),
            wire(structures.deep_view()) == self@,
    {
        proof {
            use_type_invariant(self);
            lemma_wire_parse(self.bytes@);
        }
        match decode(self.bytes.as_slice()) {
            Some(found) => found,
            None => Vec::new(),
        }
    }
}

} // verus!
