//! Decoding of heart-rate measurement notifications.
use vstd::prelude::*;

verus! {

/// Offset of the 8-bit measurement value in a notification payload; the byte
/// before it holds the flags.
pub const VALUE_OFFSET: usize = 1;

/// The reading that a payload stands for: `None` when the value byte is zero
/// (no current measurement), otherwise the value byte as beats per minute.
pub open spec fn reading_of(payload: Seq<u8>) -> Option<u8>
    recommends
        payload.len() > VALUE_OFFSET,
{
    if payload[VALUE_OFFSET as int] == 0 {
        None
    } else {
        Some(payload[VALUE_OFFSET as int])
    }
}

/// Decodes one notification payload into a reading.
///
/// Only the 8-bit value encoding is understood: the flags byte is not read,
/// so a payload in the 16-bit encoding is decoded from its low byte.
pub fn decode_reading(payload: &[u8]) -> (r: Option<u8>)
    requires
        payload@.len() > VALUE_OFFSET,
    ensures
        r == reading_of(payload@),
        r is None <==> payload@[VALUE_OFFSET as int] == 0,
        r matches Some(bpm) ==> bpm == payload@[VALUE_OFFSET as int] && bpm >= 1,
{
    let value = payload[VALUE_OFFSET];
    if value == 0 {
        None
    } else {
        Some(value)
    }
}

/// Every payload that carries a value byte decodes to a reading.
pub open spec fn all_decodable(payloads: Seq<Vec<u8>>) -> bool {
    forall|i: int| 0 <= i < payloads.len() ==> #[trigger] payloads[i]@.len() > VALUE_OFFSET
}

/// Decodes a sequence of payloads, one reading per payload, in order.
pub fn decode_readings(payloads: &Vec<Vec<u8>>) -> (r: Vec<Option<u8>>)
    requires
        all_decodable(payloads@),
    ensures
        r@.len() == payloads@.len(),
        forall|i: int| 0 <= i < r@.len() ==> #[trigger] r@[i] == reading_of(payloads@[i]@),
{
    let mut out: Vec<Option<u8>> = Vec::with_capacity(payloads.len());
    let mut i: usize = 0;
    while i < payloads.len()
        invariant
            i <= payloads@.len(),
            all_decodable(payloads@),
            out@.len() == i,
            forall|j: int| 0 <= j < i ==> #[trigger] out@[j] == reading_of(payloads@[j]@),
        decreases payloads@.len() - i,
    {
        let reading = decode_reading(payloads[i].as_slice());
        out.push(reading);
        i = i + 1;
    }
    out
}

} // verus!
