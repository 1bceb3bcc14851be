//! The server's aggregate-and-sign step and the client's validation step.
//!
//! Per request cycle the server combines the source quotes, stamps the
//! result, and signs the encoded fields with its process-lifetime key; the
//! cycle always yields a complete, signed record, even in full fallback. The
//! client decodes a response of the fixed length and then — as a separate,
//! explicit step — verifies the signature before reporting any price.

use vstd::prelude::*;
use crate::aggregate::aggregate;
use crate::aggregate::spec_bitmap;
use crate::aggregate::spec_price;
use crate::aggregate::VOLUME24H_SATS;
use crate::record::decode_full;
use crate::record::encode_for_signing;
use crate::record::spec_decode;
use crate::record::spec_signed_bytes;
use crate::record::PriceRecord;
use crate::record::RECORD_LEN;
use crate::record::SIGNED_LEN;
use crate::sig::ed25519_verifies;
use crate::sig::ed25519_signature;
use crate::sig::KeyPair;
use crate::sig::verify;
use vstd::slice::slice_subrange;

verus! {

/// A decoded, signature-checked price as the client reports it.
#[derive(Clone, Copy, Debug, PartialEq, Eq, Structural)]
pub struct VerifiedPrice {
    /// Price in micro-dollars.
    pub usd_micro: u64,
    /// 24-hour volume in satoshis.
    pub volume24h_sats: u64,
    /// Bitmap of the sources that contributed.
    pub source_bitmap: u32,
    /// Seconds since the Unix epoch when the record was assembled.
    pub timestamp_unix: u64,
}

/// Why a query failed. A missing answer is distinct from a bad answer.
#[derive(Clone, Copy, Debug, PartialEq, Eq, Structural)]
pub enum ClientError {
    /// The response had the wrong length.
    Malformed,
    /// The response decoded but its signature did not verify.
    BadSignature,
    /// No response arrived within the caller's deadline.
    Timeout,
}

/// The price the client reports for a wire byte sequence.
pub open spec fn spec_verified_price(b: Seq<u8>) -> VerifiedPrice {
    VerifiedPrice {
        usd_micro: spec_decode(b).usd_micro,
        volume24h_sats: spec_decode(b).volume24h_sats,
        source_bitmap: spec_decode(b).source_bitmap,
        timestamp_unix: spec_decode(b).timestamp_unix,
    }
}

/// One aggregate-and-sign step: combines the quotes, stamps the record, and
/// signs the encoded fields. Always yields a complete, well-formed, signed
/// record — source failures only weaken the bitmap, never abort the cycle —
/// and the signature verifies under the pair's public key.
pub fn build_signed_record(
    kp: &KeyPair,
    quote_a: Option<u64>,
    quote_b: Option<u64>,
    timestamp_unix: u64,
) -> (r: PriceRecord)
    ensures
        r@.wf(),
        r@.usd_micro == spec_price(quote_a, quote_b),
        r@.volume24h_sats == VOLUME24H_SATS,
        r@.source_bitmap == spec_bitmap(quote_a, quote_b),
        r@.timestamp_unix == timestamp_unix,
        r@.signature == ed25519_signature(
            kp.spec_sk(),
            spec_signed_bytes(r@.usd_micro, r@.volume24h_sats, r@.source_bitmap, r@.timestamp_unix),
        ),
        ed25519_verifies(
            kp.spec_pk(),
            spec_signed_bytes(r@.usd_micro, r@.volume24h_sats, r@.source_bitmap, r@.timestamp_unix),
            r@.signature,
        ),
{
    let (usd_micro, volume24h_sats, source_bitmap) = aggregate(quote_a, quote_b);
    let payload = encode_for_signing(usd_micro, volume24h_sats, source_bitmap, timestamp_unix);
    let signature = kp.sign(payload.as_slice());
    PriceRecord { usd_micro, volume24h_sats, source_bitmap, timestamp_unix, signature }
}

/// Law: a record whose signature verifies over its signed fields — as every
/// record the server builds does — is accepted by the client's validation of
/// its wire encoding, and the client reports exactly the record's own fields.
pub proof fn lemma_signed_record_accepted(pk: Seq<u8>, r: crate::record::RecordView)
    requires
        r.wf(),
        ed25519_verifies(
            pk,
            spec_signed_bytes(r.usd_micro, r.volume24h_sats, r.source_bitmap, r.timestamp_unix),
            r.signature,
        ),
    ensures
        crate::record::spec_wire_bytes(r).len() == RECORD_LEN,
        ed25519_verifies(
            pk,
            crate::record::spec_wire_bytes(r).subrange(0, SIGNED_LEN as int),
            crate::record::spec_wire_bytes(r).subrange(SIGNED_LEN as int, RECORD_LEN as int),
        ),
        spec_verified_price(crate::record::spec_wire_bytes(r)) == (VerifiedPrice {
            usd_micro: r.usd_micro,
            volume24h_sats: r.volume24h_sats,
            source_bitmap: r.source_bitmap,
            timestamp_unix: r.timestamp_unix,
        }),
{
    crate::record::lemma_decode_encode(r);
    let b = crate::record::spec_wire_bytes(r);
    assert(b.subrange(0, SIGNED_LEN as int) =~= spec_signed_bytes(
        r.usd_micro,
        r.volume24h_sats,
        r.source_bitmap,
        r.timestamp_unix,
    ));
    assert(b.subrange(SIGNED_LEN as int, RECORD_LEN as int) =~= r.signature);
}

/// The client's validation of a response: decode, then verify. Fails with
/// `Malformed` exactly when the length is wrong, with `BadSignature` exactly
/// when the length is right but verification rejects the signature over the
/// signed prefix, and otherwise reports the decoded fields.
pub fn check_response(bytes: &[u8], pk: &[u8]) -> (r: Result<VerifiedPrice, ClientError>)
    ensures
        bytes@.len() != RECORD_LEN ==> r == Err::<VerifiedPrice, ClientError>(
            ClientError::Malformed,
        ),
        bytes@.len() == RECORD_LEN && !ed25519_verifies(
            pk@,
            bytes@.subrange(0, SIGNED_LEN as int),
            bytes@.subrange(SIGNED_LEN as int, RECORD_LEN as int),
        ) ==> r == Err::<VerifiedPrice, ClientError>(ClientError::BadSignature),
        bytes@.len() == RECORD_LEN && ed25519_verifies(
            pk@,
            bytes@.subrange(0, SIGNED_LEN as int),
            bytes@.subrange(SIGNED_LEN as int, RECORD_LEN as int),
        ) ==> r == Ok::<VerifiedPrice, ClientError>(spec_verified_price(bytes@)),
{
    let record = match decode_full(bytes) {
        Ok(record) => record,
        Err(_) => {
            return Err(ClientError::Malformed);
        },
    };
    let signed_part = slice_subrange(bytes, 0, SIGNED_LEN);
    let signature_part = slice_subrange(bytes, SIGNED_LEN, RECORD_LEN);
    if !verify(pk, signed_part, signature_part) {
        return Err(ClientError::BadSignature);
    }
    Ok(VerifiedPrice {
        usd_micro: record.usd_micro,
        volume24h_sats: record.volume24h_sats,
        source_bitmap: record.source_bitmap,
        timestamp_unix: record.timestamp_unix,
    })
}

} // verus!
