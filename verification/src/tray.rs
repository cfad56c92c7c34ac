//! The tray's plain data: the events the tray and a second launch send to the running app, the
//! menu labels, and the icon's pixels in the byte order the StatusNotifierItem protocol wants.

use vstd::prelude::*;

verus! {

/// What the tray menu, the icon click and a second launch's knock ask of the running app.
#[derive(Clone, Copy, Debug, PartialEq, Eq, Structural)]
pub enum TrayEvent {
    Show,
    Quit,
}

/// The localized labels of the tray menu's two entries.
pub struct TrayLabels {
    pub show: String,
    pub quit: String,
}

/// The byte that lands at position `i` when RGBA pixels are reordered to ARGB: alpha first,
/// then red, green and blue.
pub open spec fn argb_byte(rgba: Seq<u8>, i: int) -> u8 {
    let px = i / 4;
    let lane = i % 4;
    if lane == 0 {
        rgba[4 * px + 3]
    } else {
        rgba[4 * px + lane - 1]
    }
}

/// RGBA pixels reordered to ARGB. Only whole pixels are kept: trailing bytes that do not make
/// up a pixel are dropped.
pub open spec fn argb_spec(rgba: Seq<u8>) -> Seq<u8> {
    Seq::new(4 * (rgba.len() / 4), |i: int| argb_byte(rgba, i))
}

/// Reorders RGBA pixels to ARGB, pixel by pixel, dropping a trailing partial pixel.
pub fn argb(rgba: &[u8]) -> (out: Vec<u8>)
    ensures
        out@ == argb_spec(rgba@),
{
    let pixels = rgba.len() / 4;
    let mut out: Vec<u8> = Vec::new();
    let mut p: usize = 0;
    while p < pixels
        invariant
            pixels == rgba@.len() / 4,
            4 * pixels <= rgba@.len(),
            rgba@.len() == rgba.len(),
            p <= pixels,
            out@.len() == 4 * p,
            forall|i: int| 0 <= i < 4 * p ==> out@[i] == argb_byte(rgba@, i),
        decreases pixels - p,
    {
        let base = 4 * p;
        out.push(rgba[base + 3]);
        out.push(rgba[base]);
        out.push(rgba[base + 1]);
        out.push(rgba[base + 2]);
        proof {
            assert forall|i: int| 4 * p <= i < 4 * p + 4 implies out@[i] == argb_byte(rgba@, i) by {
                assert(i / 4 == p);
                assert(i % 4 == i - 4 * p);
            }
        }
        p = p + 1;
    }
    proof {
        assert(out@ =~= argb_spec(rgba@));
    }
    out
}

/// ARGB keeps every whole pixel and only moves its alpha byte to the front: for each pixel the
/// output holds alpha, red, green and blue, taken from the input's bytes 3, 0, 1 and 2.
pub proof fn lemma_argb_moves_alpha_first(rgba: Seq<u8>, p: int)
    requires
        0 <= p < rgba.len() / 4,
    ensures
        argb_spec(rgba).len() == rgba.len() - rgba.len() % 4,
        argb_spec(rgba)[4 * p] == rgba[4 * p + 3],
        argb_spec(rgba)[4 * p + 1] == rgba[4 * p],
        argb_spec(rgba)[4 * p + 2] == rgba[4 * p + 1],
        argb_spec(rgba)[4 * p + 3] == rgba[4 * p + 2],
{
    assert((4 * p) / 4 == p && (4 * p) % 4 == 0) by (nonlinear_arith);
    assert((4 * p + 1) / 4 == p && (4 * p + 1) % 4 == 1) by (nonlinear_arith);
    assert((4 * p + 2) / 4 == p && (4 * p + 2) % 4 == 2) by (nonlinear_arith);
    assert((4 * p + 3) / 4 == p && (4 * p + 3) % 4 == 3) by (nonlinear_arith);
    assert(4 * p + 3 < 4 * (rgba.len() / 4)) by (nonlinear_arith)
        requires
            0 <= p < rgba.len() / 4,
    ;
}

} // verus!
