//! Inclusive bit ranges of a 64-bit word.

use vstd::prelude::*;

verus! {

/// The word whose set bits are exactly `lo..=hi`.
pub open spec fn mask(lo: u64, hi: u64) -> u64 {
    (u64::MAX >> ((63 - (hi - lo)) as u64)) << lo
}

/// The largest value that fits in the bit range `lo..=hi`.
pub open spec fn field_max(lo: u64, hi: u64) -> u64 {
    u64::MAX >> ((63 - (hi - lo)) as u64)
}

/// The bits `lo..=hi` of `value`, moved down to bit 0.
pub open spec fn extract(value: u64, lo: u64, hi: u64) -> u64 {
    (value & mask(lo, hi)) >> lo
}

/// The word that holds `k` in the bit range that starts at `lo` and is zero elsewhere.
pub open spec fn place(k: u64, lo: u64) -> u64 {
    k << lo
}

/// The mask of the inclusive bit range `lo..=hi`.
pub fn range_mask(lo: u64, hi: u64) -> (m: u64)
    requires
        lo <= hi < 64,
    ensures
        m == mask(lo, hi),
{
    let width_gap: u64 = 63 - (hi - lo);
    (u64::MAX >> width_gap) << lo
}

/// Reads the bit range `lo..=hi` of `value`: every bit outside the range is
/// cleared and the rest is shifted down by `lo`.
pub fn extract_bits(value: u64, lo: u64, hi: u64) -> (r: u64)
    requires
        lo <= hi < 64,
    ensures
        r == extract(value, lo, hi),
        r <= field_max(lo, hi),
{
    let m: u64 = range_mask(lo, hi);
    proof {
        lemma_extract_bounded(value, lo, hi);
    }
    (value & m) >> lo
}

/// Writes `k` into the bit range that starts at `lo` of an otherwise zero word.
pub fn place_bits(k: u64, lo: u64, hi: u64) -> (w: u64)
    requires
        lo <= hi < 64,
        k <= field_max(lo, hi),
    ensures
        w == place(k, lo),
        extract(w, lo, hi) == k,
{
    proof {
        lemma_extract_place(k, lo, hi);
    }
    k << lo
}

/// What is read from a bit range never exceeds the range's largest value.
pub proof fn lemma_extract_bounded(value: u64, lo: u64, hi: u64)
    requires
        lo <= hi < 64,
    ensures
        extract(value, lo, hi) <= field_max(lo, hi),
{
    assert(((value & ((u64::MAX >> ((63 - (hi - lo)) as u64)) << lo)) >> lo) <= (u64::MAX >> ((63
        - (hi - lo)) as u64))) by (bit_vector)
        requires
            lo <= hi < 64,
    ;
}

/// Round trip: a value placed into the range `lo..=hi` of an otherwise zero
/// word is read back unchanged from that range.
pub proof fn lemma_extract_place(k: u64, lo: u64, hi: u64)
    requires
        lo <= hi < 64,
        k <= field_max(lo, hi),
    ensures
        extract(place(k, lo), lo, hi) == k,
{
    assert((((k << lo) & ((u64::MAX >> ((63 - (hi - lo)) as u64)) << lo)) >> lo) == k)
        by (bit_vector)
        requires
            lo <= hi < 64,
            k <= (u64::MAX >> ((63 - (hi - lo)) as u64)),
    ;
}

} // verus!
