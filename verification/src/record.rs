//! The fixed binary layout of a price record.
//!
//! A record on the wire is exactly [`RECORD_LEN`] bytes: the four
//! non-signature fields in a stable order, each little-endian at its natural
//! width, followed by the 64-byte signature. The bytes that are signed are
//! exactly the first [`SIGNED_LEN`] bytes — the signature is appended and
//! never covers itself. Decoding fails on any other length and never
//! truncates; decoding succeeding says nothing about signature validity.

use vstd::prelude::*;
use vstd::bytes::lemma_auto_spec_u32_to_from_le_bytes;
use vstd::bytes::lemma_auto_spec_u64_to_from_le_bytes;
use vstd::bytes::spec_u32_from_le_bytes;
use vstd::bytes::spec_u32_to_le_bytes;
use vstd::bytes::spec_u64_from_le_bytes;
use vstd::bytes::spec_u64_to_le_bytes;
use vstd::bytes::u32_from_le_bytes;
use vstd::bytes::u32_to_le_bytes;
use vstd::bytes::u64_from_le_bytes;
use vstd::bytes::u64_to_le_bytes;
use vstd::slice::slice_subrange;
use vstd::slice::slice_to_vec;

verus! {

/// Number of bytes covered by the signature: `usd_micro` (8), `volume24h_sats`
/// (8), `source_bitmap` (4) and `timestamp_unix` (8).
pub const SIGNED_LEN: usize = 28;

/// Length in bytes of a signature.
pub const SIGNATURE_LEN: usize = 64;

/// Number of bytes of a full wire record: the signed bytes plus the signature.
pub const RECORD_LEN: usize = 92;

/// A signed price record, assembled once per request cycle.
pub struct PriceRecord {
    /// Price in micro-dollars (dollars times 1,000,000).
    pub usd_micro: u64,
    /// 24-hour volume in satoshis.
    pub volume24h_sats: u64,
    /// Bit `i` set iff source `i` contributed to `usd_micro`; zero means
    /// fallback.
    pub source_bitmap: u32,
    /// Seconds since the Unix epoch when the record was assembled.
    pub timestamp_unix: u64,
    /// Signature over the encoding of the four fields above; always
    /// [`SIGNATURE_LEN`] bytes in a well-formed record.
    pub signature: Vec<u8>,
}

/// The mathematical model of a record: plain values and a byte sequence.
#[verifier::ext_equal]
pub struct RecordView {
    pub usd_micro: u64,
    pub volume24h_sats: u64,
    pub source_bitmap: u32,
    pub timestamp_unix: u64,
    pub signature: Seq<u8>,
}

impl RecordView {
    /// A record is well formed when its signature has the fixed length.
    pub open spec fn wf(self) -> bool {
        self.signature.len() == SIGNATURE_LEN
    }
}

impl View for PriceRecord {
    type V = RecordView;

    open spec fn view(&self) -> RecordView {
        RecordView {
            usd_micro: self.usd_micro,
            volume24h_sats: self.volume24h_sats,
            source_bitmap: self.source_bitmap,
            timestamp_unix: self.timestamp_unix,
            signature: self.signature@,
        }
    }
}

/// The byte encoding that is signed: the four non-signature fields in stable
/// order, each little-endian.
pub open spec fn spec_signed_bytes(
    usd_micro: u64,
    volume24h_sats: u64,
    source_bitmap: u32,
    timestamp_unix: u64,
) -> Seq<u8> {
    spec_u64_to_le_bytes(usd_micro) + spec_u64_to_le_bytes(volume24h_sats)
        + spec_u32_to_le_bytes(source_bitmap) + spec_u64_to_le_bytes(timestamp_unix)
}

/// The full wire encoding: the signed bytes with the signature appended.
pub open spec fn spec_wire_bytes(r: RecordView) -> Seq<u8> {
    spec_signed_bytes(r.usd_micro, r.volume24h_sats, r.source_bitmap, r.timestamp_unix)
        + r.signature
}

/// The record denoted by a wire byte sequence of the fixed length.
pub open spec fn spec_decode(b: Seq<u8>) -> RecordView
    recommends
        b.len() == RECORD_LEN,
{
    RecordView {
        usd_micro: spec_u64_from_le_bytes(b.subrange(0, 8)),
        volume24h_sats: spec_u64_from_le_bytes(b.subrange(8, 16)),
        source_bitmap: spec_u32_from_le_bytes(b.subrange(16, 20)),
        timestamp_unix: spec_u64_from_le_bytes(b.subrange(20, 28)),
        signature: b.subrange(SIGNED_LEN as int, RECORD_LEN as int),
    }
}

/// Error returned when a wire byte sequence cannot be decoded.
#[derive(Clone, Copy, Debug, PartialEq, Eq, Structural)]
pub enum DecodeError {
    /// The byte sequence is shorter or longer than [`RECORD_LEN`].
    WrongLength,
}

/// Produces the deterministic, fixed-length byte sequence that is signed:
/// the four fields in stable order, little-endian. This sequence is also the
/// prefix of the full wire encoding.
pub fn encode_for_signing(
    usd_micro: u64,
    volume24h_sats: u64,
    source_bitmap: u32,
    timestamp_unix: u64,
) -> (out: Vec<u8>)
    ensures
        out@ == spec_signed_bytes(usd_micro, volume24h_sats, source_bitmap, timestamp_unix),
        out@.len() == SIGNED_LEN,
{
    proof {
        lemma_auto_spec_u64_to_from_le_bytes();
        lemma_auto_spec_u32_to_from_le_bytes();
    }
    let mut out = u64_to_le_bytes(usd_micro);
    let mut volume_bytes = u64_to_le_bytes(volume24h_sats);
    out.append(&mut volume_bytes);
    let mut bitmap_bytes = u32_to_le_bytes(source_bitmap);
    out.append(&mut bitmap_bytes);
    let mut timestamp_bytes = u64_to_le_bytes(timestamp_unix);
    out.append(&mut timestamp_bytes);
    out
}

impl PriceRecord {
    /// Encodes the full record for wire transmission: the signed bytes with
    /// the signature appended.
    pub fn encode_full(&self) -> (out: Vec<u8>)
        requires
            self@.wf(),
        ensures
            out@ == spec_wire_bytes(self@),
            out@.len() == RECORD_LEN,
    {
        let mut out = encode_for_signing(
            self.usd_micro,
            self.volume24h_sats,
            self.source_bitmap,
            self.timestamp_unix,
        );
        out.extend_from_slice(self.signature.as_slice());
        out
    }
}

/// Decodes a full wire record. Fails exactly when the byte length is not
/// [`RECORD_LEN`]; success says nothing about signature validity, which is a
/// separate, explicit verification step.
pub fn decode_full(bytes: &[u8]) -> (r: Result<PriceRecord, DecodeError>)
    ensures
        r is Ok <==> bytes@.len() == RECORD_LEN,
        r is Err ==> r->Err_0 == DecodeError::WrongLength,
        r is Ok ==> r->Ok_0@ == spec_decode(bytes@) && r->Ok_0@.wf(),
{
    if bytes.len() != RECORD_LEN {
        return Err(DecodeError::WrongLength);
    }
    let usd_micro = u64_from_le_bytes(slice_subrange(bytes, 0, 8));
    let volume24h_sats = u64_from_le_bytes(slice_subrange(bytes, 8, 16));
    let source_bitmap = u32_from_le_bytes(slice_subrange(bytes, 16, 20));
    let timestamp_unix = u64_from_le_bytes(slice_subrange(bytes, 20, 28));
    let signature = slice_to_vec(slice_subrange(bytes, SIGNED_LEN, RECORD_LEN));
    let record = PriceRecord { usd_micro, volume24h_sats, source_bitmap, timestamp_unix, signature };
    proof {
        assert(record@ =~= spec_decode(bytes@));
    }
    Ok(record)
}

/// Law: decoding inverts encoding. Any well-formed record survives a trip
/// through the wire encoding unchanged.
pub proof fn lemma_decode_encode(r: RecordView)
    requires
        r.wf(),
    ensures
        spec_wire_bytes(r).len() == RECORD_LEN,
        spec_decode(spec_wire_bytes(r)) == r,
{
    lemma_auto_spec_u64_to_from_le_bytes();
    lemma_auto_spec_u32_to_from_le_bytes();
    let b = spec_wire_bytes(r);
    assert(b.subrange(0, 8) =~= spec_u64_to_le_bytes(r.usd_micro));
    assert(b.subrange(8, 16) =~= spec_u64_to_le_bytes(r.volume24h_sats));
    assert(b.subrange(16, 20) =~= spec_u32_to_le_bytes(r.source_bitmap));
    assert(b.subrange(20, 28) =~= spec_u64_to_le_bytes(r.timestamp_unix));
    assert(b.subrange(SIGNED_LEN as int, RECORD_LEN as int) =~= r.signature);
    assert(spec_decode(spec_wire_bytes(r)) =~= r);
}

/// Law: encoding inverts decoding. Any byte sequence of the fixed length is
/// exactly the wire encoding of the record it decodes to.
pub proof fn lemma_encode_decode(b: Seq<u8>)
    requires
        b.len() == RECORD_LEN,
    ensures
        spec_decode(b).wf(),
        spec_wire_bytes(spec_decode(b)) == b,
{
    lemma_auto_spec_u64_to_from_le_bytes();
    lemma_auto_spec_u32_to_from_le_bytes();
    assert(spec_wire_bytes(spec_decode(b)) =~= b);
}

} // verus!
