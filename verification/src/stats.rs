//! Statistics over the bins of a tally that need no arithmetic on values:
//! the bin that holds the median pixel.
use vstd::prelude::*;

use crate::tally::prefix_sum;

verus! {

/// The first `j + 1` bins hold at least half of `total` pixels.
pub open spec fn reaches_half(counts: Seq<u128>, total: u128, j: int) -> bool {
    2 * prefix_sum(counts, j + 1) >= total
}

/// Finds the bin that holds the median of `total` pixels: the first bin at
/// which the cumulative pixel count reaches half of `total`. Returns that
/// bin with the number of pixels in the bins before it, or `None` when no
/// bin reaches half (in particular when there are no bins).
///
/// The median value is then interpolated inside that bin from the two
/// counts.
pub fn median_bin(counts: &[u128], total: u128) -> (r: Option<(usize, u128)>)
    ensures
        match r {
            Some((k, before)) => {
                &&& k < counts@.len()
                &&& reaches_half(counts@, total, k as int)
                &&& forall|j: int| 0 <= j < k ==> !#[trigger] reaches_half(counts@, total, j)
                &&& before == prefix_sum(counts@, k as int)
            },
            None => forall|j: int|
                0 <= j < counts@.len() ==> !#[trigger] reaches_half(counts@, total, j),
        },
{
    let n = counts.len();
    let mut cumulative: u128 = 0;
    let mut i: usize = 0;
    while i < n
        invariant
            n == counts@.len(),
            i <= n,
            cumulative == prefix_sum(counts@, i as int),
            2 * cumulative <= total,
            forall|j: int| 0 <= j < i ==> !#[trigger] reaches_half(counts@, total, j),
        decreases n - i,
    {
        let c = counts[i];
        let remaining = total - (cumulative + cumulative);
        let needed = remaining / 2 + remaining % 2;
        if c >= needed {
            return Some((i, cumulative));
        }
        cumulative = cumulative + c;
        i = i + 1;
    }
    None
}

} // verus!
