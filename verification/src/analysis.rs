//! Layout of the audio spectrum: how many bands it is grouped into and
//! which FFT bins each band covers.

use vstd::prelude::*;

verus! {

use vstd::arithmetic::power2::{pow2, lemma_pow2_unfold, lemma_pow2_strictly_increases, lemma2_to64};
use vstd::bits::lemma_usize_shl_is_mul;

/// Number of samples handed to one FFT.
pub const FFT_SIZE: usize = 2048;

/// Number of bins of the real spectrum that the FFT produces.
pub const HALF_SPECTRUM: usize = FFT_SIZE / 2;

/// Capacity of the sample accumulator: two FFT blocks.
pub const ACCUMULATOR_SIZE: usize = FFT_SIZE * 2;

/// Number of bands the spectrum is grouped into; equals `count_bands()`.
pub const NUM_BANDS: usize = 10;

/// A band count `k` is the right one when `2^k` is the first power of two
/// that reaches the number of spectrum bins.
pub open spec fn is_band_count(k: nat) -> bool {
    &&& pow2(k) >= HALF_SPECTRUM
    &&& (k > 0 ==> pow2((k - 1) as nat) < HALF_SPECTRUM)
}

/// Counts the bands: band `i` holds `2^i` bins, starting at bin 1, and
/// bands are added until they reach the end of the spectrum.
pub fn count_bands() -> (count: usize)
    ensures
        count == NUM_BANDS,
        is_band_count(count as nat),
{
    let mut count: usize = 0;
    let mut total: usize = 1;
    proof {
        lemma2_to64();
    }
    while total < HALF_SPECTRUM
        invariant
            count <= NUM_BANDS,
            total == pow2(count as nat),
            count > 0 ==> pow2((count - 1) as nat) < HALF_SPECTRUM,
            pow2(0) == 1 && pow2(10) == 1024,
        decreases NUM_BANDS - count,
    {
        proof {
            if count >= NUM_BANDS {
                if count > 10 {
                    lemma_pow2_strictly_increases(10, count as nat);
                }
                assert(false);
            }
            lemma_usize_shl_is_mul(1, count);
            lemma_pow2_unfold((count + 1) as nat);
        }
        total = total + (1usize << count);
        count = count + 1;
    }
    proof {
        if count < 10 {
            lemma_pow2_strictly_increases(count as nat, 10);
        }
        if count > 10 {
            lemma_pow2_strictly_increases(10, (count - 1) as nat);
        }
    }
    count
}


/// First spectrum bin of band `i`.
pub open spec fn band_start(i: nat) -> nat {
    pow2(i)
}

/// One past the last spectrum bin of band `i`.
pub open spec fn band_end(i: nat) -> nat {
    pow2(i + 1)
}

/// The bins of the spectrum that each band sums, as `(start, end)` pairs of
/// a half-open range, in band order. Band `i` starts where band `i - 1`
/// ends (band 0 at bin 1), holds `2^i` bins, is cut at the end of the
/// spectrum, and no band is formed once the spectrum is used up.
pub fn band_edges() -> (edges: Vec<(usize, usize)>)
    ensures
        edges@.len() == NUM_BANDS,
        forall|i: int|
            0 <= i < NUM_BANDS ==> (#[trigger] edges@[i]).0 == band_start(i as nat)
                && edges@[i].1 == band_end(i as nat),
{
    let mut edges: Vec<(usize, usize)> = Vec::new();
    let mut start: usize = 1;
    let mut i: usize = 0;
    proof {
        lemma2_to64();
    }
    while i < NUM_BANDS
        invariant_except_break
            i <= NUM_BANDS,
            start == pow2(i as nat),
            edges@.len() == i,
            forall|j: int|
                0 <= j < i ==> (#[trigger] edges@[j]).0 == band_start(j as nat) && edges@[j].1
                    == band_end(j as nat),
            pow2(0) == 1 && pow2(10) == 1024,
        ensures
            edges@.len() == NUM_BANDS,
            forall|j: int|
                0 <= j < NUM_BANDS ==> (#[trigger] edges@[j]).0 == band_start(j as nat)
                    && edges@[j].1 == band_end(j as nat),
        decreases NUM_BANDS - i,
    {
        proof {
            if i < 10 {
                lemma_pow2_strictly_increases(i as nat, 10);
            }
            if i + 1 < 10 {
                lemma_pow2_strictly_increases((i + 1) as nat, 10);
            }
            lemma_usize_shl_is_mul(1, i);
            lemma_pow2_unfold((i + 1) as nat);
        }
        let band_size: usize = 1usize << i;
        let end: usize = if start + band_size < HALF_SPECTRUM {
            start + band_size
        } else {
            HALF_SPECTRUM
        };
        if start >= HALF_SPECTRUM {
            break;
        }
        edges.push((start, end));
        start = end;
        i = i + 1;
    }
    edges
}

/// The bands partition the spectrum: band 0 starts at bin 1, each band ends
/// where the next one starts, the last one ends at the end of the spectrum,
/// and every bin from 1 on lies in exactly one band.
pub proof fn lemma_bands_partition_spectrum(bin: nat)
    requires
        1 <= bin < HALF_SPECTRUM,
    ensures
        band_start(0) == 1,
        band_end((NUM_BANDS - 1) as nat) == HALF_SPECTRUM,
        forall|i: nat| i + 1 < NUM_BANDS ==> #[trigger] band_end(i) == band_start(i + 1),
        exists|i: nat| i < NUM_BANDS && band_start(i) <= bin < #[trigger] band_end(i),
        forall|i: nat, j: nat|
            i < NUM_BANDS && j < NUM_BANDS && band_start(i) <= bin < #[trigger] band_end(i)
                && band_start(j) <= bin < #[trigger] band_end(j) ==> i == j,
{
    lemma2_to64();
    let w: nat = if bin < 2 {
        0
    } else if bin < 4 {
        1
    } else if bin < 8 {
        2
    } else if bin < 16 {
        3
    } else if bin < 32 {
        4
    } else if bin < 64 {
        5
    } else if bin < 128 {
        6
    } else if bin < 256 {
        7
    } else if bin < 512 {
        8
    } else {
        9
    };
    assert(band_start(w) <= bin < band_end(w));
    assert forall|i: nat, j: nat|
        i < NUM_BANDS && j < NUM_BANDS && band_start(i) <= bin < #[trigger] band_end(i)
            && band_start(j) <= bin < #[trigger] band_end(j) implies i == j by {
        if i < j {
            if i + 1 < j {
                lemma_pow2_strictly_increases(i + 1, j);
            }
        } else if j < i {
            if j + 1 < i {
                lemma_pow2_strictly_increases(j + 1, i);
            }
        }
    }
}

} // verus!
