//! Scroll math for the library's thumbnail list, whose rows have different heights: folders are
//! single lines, everything else is a cover-sized block.

use vstd::prelude::*;

verus! {

/// Total height of rows `first..=last`.
pub open spec fn span_height(heights: Seq<u16>, first: int, last: int) -> int
    decreases last - first + 1,
{
    if first > last || first < 0 || last >= heights.len() {
        0
    } else {
        heights[first] + span_height(heights, first + 1, last)
    }
}

/// Whether rows `first..=last`, stacked, fit in a viewport `viewport` cells tall.
pub open spec fn span_fits(heights: Seq<u16>, first: int, last: int, viewport: u16) -> bool {
    span_height(heights, first, last) <= viewport
}

/// The selected row once clamped into the list.
pub open spec fn clamp_selection(selected: usize, len: nat) -> int {
    if selected < len { selected as int } else { len - 1 }
}

/// Adding a row above a span adds its height.
proof fn lemma_span_step(heights: Seq<u16>, first: int, last: int)
    requires
        0 <= first <= last < heights.len(),
    ensures
        span_height(heights, first, last) == heights[first] + span_height(heights, first + 1, last),
{
}

/// A span that reaches further up is at least as tall.
proof fn lemma_span_monotone(heights: Seq<u16>, a: int, b: int, last: int)
    requires
        0 <= a <= b,
        last < heights.len(),
    ensures
        span_height(heights, a, last) >= span_height(heights, b, last),
    decreases b - a,
{
    if a < b {
        lemma_span_monotone(heights, a + 1, b, last);
        if a <= last {
            lemma_span_step(heights, a, last);
        }
    }
}

/// What `thumb_first_visible` returns, stated row by row: for a non-empty list, a row at or
/// above the clamped selection from which everything down to the selection fits (or the
/// selection itself when it alone is too tall), with the row above it no longer fitting.
pub open spec fn is_first_visible(heights: Seq<u16>, selected: usize, viewport: u16, first: usize) -> bool {
    if heights.len() == 0 {
        first == 0
    } else {
        let last = clamp_selection(selected, heights.len());
        &&& first <= last
        &&& (span_fits(heights, first as int, last, viewport) || first == last)
        &&& (first > 0 ==> !span_fits(heights, first - 1, last, viewport))
    }
}

/// The first row to draw so that the selected row is fully visible at the bottom, scrolling no
/// further than needed: every row from the result down to the selection fits the viewport and
/// the row above the result would not. A selected row taller than the viewport is drawn alone,
/// clipped. The selection is clamped into the list; an empty list starts at zero.
pub fn thumb_first_visible(selected: usize, heights: &[u16], viewport: u16) -> (first: usize)
    ensures
        is_first_visible(heights@, selected, viewport, first),
{
    if heights.len() == 0 {
        return 0;
    }
    let sel = if selected < heights.len() { selected } else { heights.len() - 1 };
    let ghost h = heights@;
    // The rows counted so far never exceed the viewport, so one more row stays within a u32.
    let mut used: u32 = 0;
    let mut first = sel;
    let mut k = sel + 1;
    while k > 0
        invariant
            h == heights@,
            sel < h.len(),
            sel as int == clamp_selection(selected, h.len()),
            k <= sel + 1,
            first as int == if k <= sel { k as int } else { sel as int },
            used as int == span_height(h, k as int, sel as int),
            used <= viewport,
            k <= sel ==> span_fits(h, k as int, sel as int, viewport),
        decreases k,
    {
        let i = k - 1;
        proof {
            lemma_span_step(h, i as int, sel as int);
        }
        let next = used + heights[i] as u32;
        if next > viewport as u32 {
            proof {
                if i < sel {
                    assert(!span_fits(h, i as int, sel as int, viewport));
                }
            }
            return if i == sel { sel } else { first };
        }
        used = next;
        first = i;
        k = i;
    }
    first
}

/// The selection is always fully visible: whenever the selected row itself fits the viewport,
/// the rows drawn from the first visible one down to the selection fit it too.
pub proof fn lemma_selection_fully_visible(heights: Seq<u16>, selected: usize, viewport: u16, first: usize)
    requires
        heights.len() > 0,
        is_first_visible(heights, selected, viewport, first),
        heights[clamp_selection(selected, heights.len())] <= viewport,
    ensures
        span_height(heights, first as int, clamp_selection(selected, heights.len())) <= viewport,
{
    let last = clamp_selection(selected, heights.len());
    lemma_span_step(heights, last, last);
}

/// A selected row taller than the viewport is drawn alone, clipped, at the top.
pub proof fn lemma_oversized_selection_drawn_alone(heights: Seq<u16>, selected: usize, viewport: u16, first: usize)
    requires
        heights.len() > 0,
        is_first_visible(heights, selected, viewport, first),
        heights[clamp_selection(selected, heights.len())] > viewport,
    ensures
        first as int == clamp_selection(selected, heights.len()),
{
    let last = clamp_selection(selected, heights.len());
    lemma_span_step(heights, last, last);
    lemma_span_monotone(heights, first as int, last, last);
}

/// The scroll position is determined by the list, the selection and the viewport alone: any
/// two first rows that both meet the contract are the same row.
pub proof fn lemma_first_visible_unique(heights: Seq<u16>, selected: usize, viewport: u16, a: usize, b: usize)
    requires
        is_first_visible(heights, selected, viewport, a),
        is_first_visible(heights, selected, viewport, b),
    ensures
        a == b,
{
    if heights.len() > 0 && a != b {
        let last = clamp_selection(selected, heights.len());
        let (lo, hi) = if a < b { (a, b) } else { (b, a) };
        // `hi > 0`, so the row above it does not fit, yet `lo <= hi - 1` sits even higher.
        lemma_span_monotone(heights, lo as int, hi - 1, last);
        if !span_fits(heights, lo as int, last, viewport) {
            // Then `lo` is the selection itself, above which `hi` cannot sit.
            assert(lo as int == last);
        }
    }
}

} // verus!
