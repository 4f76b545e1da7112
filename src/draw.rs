use vstd::prelude::*;

verus! {

/// The value that the oracle's range reduction derives from `bytes` for the
/// inclusive range `[lo, hi]`: scanning from the last byte down, the first byte
/// below the largest multiple of the range width that fits in a byte is
/// reduced modulo the width; if none is, the last byte is.
pub open spec fn range_draw(bytes: Seq<u8>, lo: u8, hi: u8) -> int {
    let width: int = hi - lo + 1;
    let threshold: int = 256int / width * width;
    lo + scan_draw(bytes, bytes.len() as int, threshold, width)
}

/// Offset from the bottom of the range picked by scanning `bytes[0..n]` from
/// the top.
pub open spec fn scan_draw(bytes: Seq<u8>, n: int, threshold: int, width: int) -> int
    decreases n,
{
    if n <= 0 {
        bytes[31] as int % width
    } else if (bytes[n - 1] as int) < threshold {
        bytes[n - 1] as int % width
    } else {
        scan_draw(bytes, n - 1, threshold, width)
    }
}

/// Every derived value lies inside the requested range.
pub proof fn lemma_range_draw_bounds(bytes: Seq<u8>, lo: u8, hi: u8)
    requires
        bytes.len() == 32,
        lo <= hi,
    ensures
        lo <= range_draw(bytes, lo, hi) <= hi,
{
    let width: int = hi - lo + 1;
    let threshold: int = 256int / width * width;
    lemma_scan_draw_bounds(bytes, 32, threshold, width);
}

proof fn lemma_scan_draw_bounds(bytes: Seq<u8>, n: int, threshold: int, width: int)
    requires
        bytes.len() == 32,
        n <= 32,
        width > 0,
    ensures
        0 <= scan_draw(bytes, n, threshold, width) < width,
    decreases n,
{
    if n > 0 && (bytes[n - 1] as int) >= threshold {
        lemma_scan_draw_bounds(bytes, n - 1, threshold, width);
    }
}

/// Relies on ephemeral_vrf_sdk::rnd::random_u8_with_range: maps 32 random
/// bytes to a value in `[lo, hi]` by the reduction `range_draw` describes; it
/// panics when `lo > hi`.
#[verifier::external_body]
fn random_u8_with_range(bytes: &[u8; 32], lo: u8, hi: u8) -> (r: u8)
    requires
        lo <= hi,
    ensures
        r as int == range_draw(bytes@, lo, hi),
{
    ephemeral_vrf_sdk::rnd::random_u8_with_range(bytes, lo, hi)
}

/// Derives a value uniformly distributed in `[lo, hi]` from oracle randomness.
pub fn draw_in_range(bytes: &[u8; 32], lo: u8, hi: u8) -> (r: u8)
    requires
        lo <= hi,
    ensures
        r as int == range_draw(bytes@, lo, hi),
        lo <= r <= hi,
{
    proof {
        lemma_range_draw_bounds(bytes@, lo, hi);
    }
    random_u8_with_range(bytes, lo, hi)
}

} // verus!
