//! The integer half of cover-palette extraction: a coarse color histogram of the cover.
//! About sixteen thousand pixels are sampled whatever the cover's size, transparent ones are
//! skipped, and each sampled pixel is counted in one of 16x16x16 bins by the top four bits of
//! its channels, with its channel bytes summed so every bin's mean color can be taken. Scoring
//! the bins and picking distinct colors is floating-point work done outside the verified
//! library.

use vstd::prelude::*;

verus! {

/// About this many pixels are sampled regardless of cover size.
pub const SAMPLE_BUDGET: usize = 16_384;

/// Histogram levels per channel (the top four bits).
pub const LEVELS: usize = 16;

/// Number of bins: one per combination of levels.
pub const BIN_COUNT: usize = 4096;

/// A bin's population and the sums of its pixels' channel bytes.
#[derive(Clone, Copy, Debug, PartialEq, Eq, Structural)]
pub struct BinTotals {
    pub count: u32,
    pub r: u32,
    pub g: u32,
    pub b: u32,
}

/// Every bin, indexed by `bin_index`, and the totals over all sampled pixels.
pub struct CoverHistogram {
    pub bins: Vec<BinTotals>,
    pub all: BinTotals,
}

/// How many pixels take part: `width * height`, but never more than the buffer holds.
pub open spec fn sample_total(width: u32, height: u32, len: nat) -> nat {
    let area = width as nat * height as nat;
    if area < len / 4 {
        area
    } else {
        len / 4
    }
}

/// The gap between sampled pixels, so that about `SAMPLE_BUDGET` of them are visited.
pub open spec fn sample_stride(total: nat) -> nat {
    if total / (SAMPLE_BUDGET as nat) >= 1 {
        total / (SAMPLE_BUDGET as nat)
    } else {
        1
    }
}

/// How many pixels are visited: those at `0, stride, 2 * stride, ...` below `total`.
pub open spec fn sample_count(total: nat, stride: nat) -> nat {
    if total == 0 {
        0
    } else {
        ((total - 1) / stride as int + 1) as nat
    }
}

/// The bin of a color: its channels' top four bits, red most significant.
pub open spec fn bin_index(r: u8, g: u8, b: u8) -> int {
    (r / 16) as int * 256 + (g / 16) as int * 16 + (b / 16) as int
}

/// The bin of the pixel starting at byte `4 * p`.
pub open spec fn pixel_bin(pixels: Seq<u8>, p: int) -> int {
    bin_index(pixels[4 * p], pixels[4 * p + 1], pixels[4 * p + 2])
}

/// Whether the `j`th visited pixel is counted in `bin` (or anywhere, for a negative `bin`):
/// it must be at least half opaque.
pub open spec fn counted(pixels: Seq<u8>, stride: nat, j: int, bin: int) -> bool {
    let p = j * stride;
    pixels[4 * p + 3] >= 128 && (bin < 0 || pixel_bin(pixels, p) == bin)
}

/// What the `j`th visited pixel adds to a lane: one to the count (lane 3), or its red, green
/// or blue byte (lanes 0, 1, 2).
pub open spec fn lane_value(pixels: Seq<u8>, stride: nat, j: int, lane: int) -> int {
    if lane == 3 {
        1
    } else {
        pixels[4 * (j * stride) + lane] as int
    }
}

/// A lane of `bin`, summed over the first `k` visited pixels.
pub open spec fn tally(pixels: Seq<u8>, stride: nat, k: int, bin: int, lane: int) -> int
    decreases k,
{
    if k <= 0 {
        0
    } else {
        tally(pixels, stride, k - 1, bin, lane) + if counted(pixels, stride, k - 1, bin) {
            lane_value(pixels, stride, k - 1, lane)
        } else {
            0
        }
    }
}

/// `totals` holds `bin`'s count and channel sums over the first `k` visited pixels.
pub open spec fn totals_are(totals: BinTotals, pixels: Seq<u8>, stride: nat, k: int, bin: int) -> bool {
    &&& totals.count == tally(pixels, stride, k, bin, 3)
    &&& totals.r == tally(pixels, stride, k, bin, 0)
    &&& totals.g == tally(pixels, stride, k, bin, 1)
    &&& totals.b == tally(pixels, stride, k, bin, 2)
}

/// Totals small enough to keep adding to.
pub open spec fn totals_within(totals: BinTotals, k: int) -> bool {
    &&& totals.count <= k
    &&& totals.r <= 255 * k
    &&& totals.g <= 255 * k
    &&& totals.b <= 255 * k
}

/// A lane summed over the bins below `n`, over the first `k` visited pixels.
pub open spec fn bins_sum(pixels: Seq<u8>, stride: nat, k: int, n: int, lane: int) -> int
    decreases n,
{
    if n <= 0 {
        0
    } else {
        bins_sum(pixels, stride, k, n - 1, lane) + tally(pixels, stride, k, n - 1, lane)
    }
}

/// Every pixel falls in one of the bins.
proof fn lemma_pixel_bin_range(pixels: Seq<u8>, p: int)
    ensures
        0 <= pixel_bin(pixels, p) < BIN_COUNT,
{
    let (r, g, b) = (pixels[4 * p], pixels[4 * p + 1], pixels[4 * p + 2]);
    assert(r / 16 <= 15 && g / 16 <= 15 && b / 16 <= 15);
}

/// One more visited pixel adds its value to the sum over the bins below `n` exactly when it
/// is counted and its bin is one of them.
proof fn lemma_bins_sum_step(pixels: Seq<u8>, stride: nat, k: int, n: int, lane: int)
    requires
        k >= 0,
    ensures
        bins_sum(pixels, stride, k + 1, n, lane) == bins_sum(pixels, stride, k, n, lane) + if counted(pixels, stride, k, -1)
            && pixel_bin(pixels, k * stride) < n {
            lane_value(pixels, stride, k, lane)
        } else {
            0
        },
    decreases n,
{
    lemma_pixel_bin_range(pixels, k * stride);
    if n > 0 {
        lemma_bins_sum_step(pixels, stride, k, n - 1, lane);
    }
}

/// The overall totals are the sums of the bins' totals: every counted pixel is in exactly
/// one bin.
pub proof fn lemma_overall_is_sum_of_bins(pixels: Seq<u8>, stride: nat, k: int, lane: int)
    requires
        k >= 0,
    ensures
        bins_sum(pixels, stride, k, BIN_COUNT as int, lane) == tally(pixels, stride, k, -1, lane),
    decreases k,
{
    if k == 0 {
        lemma_bins_sum_zero(pixels, stride, BIN_COUNT as int, lane);
    } else {
        lemma_overall_is_sum_of_bins(pixels, stride, k - 1, lane);
        lemma_bins_sum_step(pixels, stride, k - 1, BIN_COUNT as int, lane);
        lemma_pixel_bin_range(pixels, (k - 1) * stride);
    }
}

/// Before any pixel is visited every bin is empty.
proof fn lemma_bins_sum_zero(pixels: Seq<u8>, stride: nat, n: int, lane: int)
    ensures
        bins_sum(pixels, stride, 0, n, lane) == 0,
    decreases n,
{
    if n > 0 {
        lemma_bins_sum_zero(pixels, stride, n - 1, lane);
    }
}

fn add_pixel(totals: BinTotals, r: u8, g: u8, b: u8, k: Ghost<int>) -> (sum: BinTotals)
    requires
        0 <= k@ < 2 * SAMPLE_BUDGET,
        totals_within(totals, k@),
    ensures
        sum == (BinTotals {
            count: (totals.count + 1) as u32,
            r: (totals.r + r) as u32,
            g: (totals.g + g) as u32,
            b: (totals.b + b) as u32,
        }),
        totals_within(sum, k@ + 1),
{
    BinTotals { count: totals.count + 1, r: totals.r + r as u32, g: totals.g + g as u32, b: totals.b + b as u32 }
}

/// The visited pixels never number more than twice the budget.
proof fn lemma_sample_bound(total: nat, stride: nat, k: int)
    requires
        stride == sample_stride(total),
        0 <= k,
        k * stride < total,
    ensures
        k < 2 * SAMPLE_BUDGET,
{
    let b = SAMPLE_BUDGET as int;
    vstd::arithmetic::div_mod::lemma_fundamental_div_mod(total as int, b);
    let q = total as int / b;
    let r = total as int % b;
    assert(0 <= r < b);
    assert(total < 2 * b * stride) by (nonlinear_arith)
        requires
            total == b * q + r,
            0 <= r < b,
            q >= 0,
            b > 0,
            q >= 1 ==> stride == q,
            q < 1 ==> stride == 1,
    ;
    assert(k < 2 * b) by (nonlinear_arith)
        requires
            k * stride < total,
            total < 2 * b * stride,
            stride >= 1,
            k >= 0,
    ;
}

/// However large the cover, the histogram visits at most twice the sampling budget.
pub proof fn lemma_sample_budget(total: nat)
    ensures
        sample_count(total, sample_stride(total)) <= 2 * SAMPLE_BUDGET,
{
    let stride = sample_stride(total);
    if total > 0 {
        let k = sample_count(total, stride) as int - 1;
        assert(k * stride <= total - 1) by (nonlinear_arith)
            requires
                k == (total - 1) / (stride as int),
                stride >= 1,
                total >= 1,
        ;
        lemma_sample_bound(total, stride, k);
    }
}

/// The histogram of a `width` x `height` RGBA cover (row-major, four bytes per pixel): the
/// visited pixels are those at `0, stride, 2 * stride, ...` below the pixel total, and every
/// visited pixel that is at least half opaque is counted in its bin and in the overall totals.
pub fn cover_histogram(width: u32, height: u32, pixels: &[u8]) -> (hist: CoverHistogram)
    ensures
        hist.bins@.len() == BIN_COUNT,
        ({
            let total = sample_total(width, height, pixels@.len());
            let stride = sample_stride(total);
            let k = sample_count(total, stride) as int;
            &&& forall|bin: int|
                0 <= bin < BIN_COUNT ==> totals_are(#[trigger] hist.bins@[bin], pixels@, stride, k, bin)
            &&& totals_are(hist.all, pixels@, stride, k, -1)
        }),
{
    assert((width as u64) * (height as u64) <= u64::MAX) by (nonlinear_arith)
        requires
            width <= u32::MAX,
            height <= u32::MAX,
    ;
    let area: u64 = (width as u64) * (height as u64);
    let quarter = pixels.len() / 4;
    let total: usize = if area < quarter as u64 {
        area as usize
    } else {
        quarter
    };
    let stride: usize = if total / SAMPLE_BUDGET >= 1 {
        total / SAMPLE_BUDGET
    } else {
        1
    };
    let ghost spec_total = sample_total(width, height, pixels@.len());
    assert(total == spec_total);
    assert(stride == sample_stride(spec_total));
    let zero = BinTotals { count: 0, r: 0, g: 0, b: 0 };
    let mut bins: Vec<BinTotals> = Vec::new();
    while bins.len() < BIN_COUNT
        invariant
            bins@.len() <= BIN_COUNT,
            forall|bin: int| 0 <= bin < bins@.len() ==> #[trigger] bins@[bin] == zero,
        decreases BIN_COUNT - bins@.len(),
    {
        bins.push(zero);
    }
    let mut all = zero;
    let mut i: usize = 0;
    let ghost mut k: int = 0;
    while i < total
        invariant
            total == spec_total,
            total <= pixels@.len() / 4,
            pixels@.len() == pixels.len(),
            stride == sample_stride(spec_total),
            stride >= 1,
            stride <= total || total == 0,
            k >= 0,
            i == k * stride,
            k == 0 || (k - 1) * stride < total,
            bins@.len() == BIN_COUNT,
            forall|bin: int|
                0 <= bin < BIN_COUNT ==> totals_are(#[trigger] bins@[bin], pixels@, stride as nat, k, bin),
            forall|bin: int| 0 <= bin < BIN_COUNT ==> totals_within(#[trigger] bins@[bin], k),
            totals_are(all, pixels@, stride as nat, k, -1),
            totals_within(all, k),
            i < total + stride,
        decreases total + stride - i,
    {
        proof {
            lemma_sample_bound(spec_total, stride as nat, k);
        }
        let base = i * 4;
        let ghost before = bins@;
        if pixels[base + 3] >= 128 {
            let r = pixels[base];
            let g = pixels[base + 1];
            let b = pixels[base + 2];
            let key = (r / 16) as usize * 256 + (g / 16) as usize * 16 + (b / 16) as usize;
            let old = bins[key];
            bins.set(key, add_pixel(old, r, g, b, Ghost(k)));
            all = add_pixel(all, r, g, b, Ghost(k));
            proof {
                assert(key as int == pixel_bin(pixels@, k * stride));
                assert forall|bin: int| 0 <= bin < BIN_COUNT implies {
                    &&& totals_are(#[trigger] bins@[bin], pixels@, stride as nat, k + 1, bin)
                    &&& totals_within(bins@[bin], k + 1)
                } by {
                    if bin != key {
                        assert(bins@[bin] == before[bin]);
                    }
                }
            }
        } else {
            proof {
                assert forall|bin: int| 0 <= bin < BIN_COUNT implies {
                    &&& totals_are(#[trigger] bins@[bin], pixels@, stride as nat, k + 1, bin)
                    &&& totals_within(bins@[bin], k + 1)
                } by {
                }
            }
        }
        i = i + stride;
        proof {
            k = k + 1;
            assert(i == k * stride) by (nonlinear_arith)
                requires
                    i == (k - 1) * stride + stride,
            ;
        }
    }
    proof {
        if total > 0 {
            assert(k >= 1);
            assert((total - 1) / (stride as int) == k - 1) by (nonlinear_arith)
                requires
                    (k - 1) * stride <= total - 1,
                    total - 1 < k * stride,
                    stride >= 1,
                    k >= 1,
            ;
        } else {
            assert(k == 0) by (nonlinear_arith)
                requires
                    k * stride == i,
                    i <= 0,
                    stride >= 1,
                    k >= 0,
            ;
        }
    }
    CoverHistogram { bins, all }
}

} // verus!
