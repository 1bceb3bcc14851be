//! Combining source quotes into one canonical price and a source bitmap.
//!
//! A quote is a price in micro-dollars (dollars times 1,000,000, truncated
//! toward zero), or its absence when the source failed. With two sources:
//! both present gives the arithmetic mean (truncated); exactly one present
//! gives that quote; neither gives a fixed fallback price. The bitmap
//! records, bit per source, who contributed.

use vstd::prelude::*;

verus! {

/// Price used when no source contributed: $69,420.37 in micro-dollars.
pub const FALLBACK_USD_MICRO: u64 = 69_420_370_000;

/// Placeholder 24-hour volume in satoshis; not independently sourced.
pub const VOLUME24H_SATS: u64 = 250_000_000_000_000;

/// The canonical price, in micro-dollars, chosen for a pair of quotes.
pub open spec fn spec_price(quote_a: Option<u64>, quote_b: Option<u64>) -> int {
    match (quote_a, quote_b) {
        (Some(a), Some(b)) => (a + b) / 2,
        (Some(a), None) => a as int,
        (None, Some(b)) => b as int,
        (None, None) => FALLBACK_USD_MICRO as int,
    }
}

/// The source bitmap for a pair of quotes: bit 0 for source A, bit 1 for
/// source B, zero when neither contributed.
pub open spec fn spec_bitmap(quote_a: Option<u64>, quote_b: Option<u64>) -> u32 {
    match (quote_a, quote_b) {
        (Some(_), Some(_)) => 0b11,
        (Some(_), None) => 0b01,
        (None, Some(_)) => 0b10,
        (None, None) => 0b00,
    }
}

/// Law: the bitmap is zero exactly when no source contributed, and a record
/// aggregated without any source always carries the fallback price.
pub proof fn lemma_fallback_iff_no_source(quote_a: Option<u64>, quote_b: Option<u64>)
    ensures
        spec_bitmap(quote_a, quote_b) == 0 <==> (quote_a is None && quote_b is None),
        spec_bitmap(quote_a, quote_b) == 0 ==> spec_price(quote_a, quote_b)
            == FALLBACK_USD_MICRO,
{
}

/// Combines up to two micro-dollar quotes into the canonical price, the
/// placeholder volume, and the bitmap of contributing sources. Deterministic
/// and free of I/O: the result depends on the quotes alone.
pub fn aggregate(quote_a: Option<u64>, quote_b: Option<u64>) -> (r: (u64, u64, u32))
    ensures
        r.0 == spec_price(quote_a, quote_b),
        r.1 == VOLUME24H_SATS,
        r.2 == spec_bitmap(quote_a, quote_b),
{
    let usd_micro: u64 = match (quote_a, quote_b) {
        (Some(a), Some(b)) => {
            let wide: u128 = (a as u128) + (b as u128);
            (wide / 2) as u64
        },
        (Some(a), None) => a,
        (None, Some(b)) => b,
        (None, None) => FALLBACK_USD_MICRO,
    };
    let bitmap: u32 = match (quote_a, quote_b) {
        (Some(_), Some(_)) => 0b11,
        (Some(_), None) => 0b01,
        (None, Some(_)) => 0b10,
        (None, None) => 0b00,
    };
    (usd_micro, VOLUME24H_SATS, bitmap)
}

} // verus!
