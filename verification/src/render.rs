//! From the display to what a window shows: one filled square for each
//! lit pixel.

use vstd::prelude::*;
use crate::display::{SCREEN_SIZE, SCREEN_WIDTH};

verus! {

/// A filled rectangle in window coordinates.
#[derive(Clone, Copy, Debug, PartialEq, Eq, Structural)]
pub struct PixelRect {
    /// Distance of the left edge from the left edge of the window.
    pub x: i32,
    /// Distance of the top edge from the top edge of the window.
    pub y: i32,
    /// Width of the rectangle.
    pub width: u32,
    /// Height of the rectangle.
    pub height: u32,
}

/// The square that shows pixel `p` when every pixel is `scale` wide and
/// high.
pub open spec fn rect_of(p: int, scale: u32) -> PixelRect {
    PixelRect {
        x: ((p % 64) * scale) as i32,
        y: ((p / 64) * scale) as i32,
        width: scale,
        height: scale,
    }
}

/// The squares of the lit pixels of `display`, in the order of the pixels.
pub open spec fn lit_rects(display: Seq<bool>, scale: u32) -> Seq<PixelRect>
    decreases display.len(),
{
    if display.len() == 0 {
        Seq::empty()
    } else if display.last() {
        lit_rects(display.drop_last(), scale).push(rect_of(display.len() - 1, scale))
    } else {
        lit_rects(display.drop_last(), scale)
    }
}

/// The squares to fill so that a window shows `display` with every pixel
/// `scale` wide and high.
pub fn screen_rects(display: &[bool], scale: u32) -> (rects: Vec<PixelRect>)
    requires
        display@.len() <= SCREEN_SIZE,
        63 * scale <= i32::MAX,
    ensures
        rects@ == lit_rects(display@, scale),
{
    let mut rects: Vec<PixelRect> = Vec::new();
    for i in 0..display.len()
        invariant
            display@.len() <= SCREEN_SIZE,
            63 * scale <= i32::MAX,
            rects@ == lit_rects(display@.take(i as int), scale),
    {
        assert(display@.take(i + 1).drop_last() == display@.take(i as int));
        if display[i] {
            let x = (i % SCREEN_WIDTH) as u32;
            let y = (i / SCREEN_WIDTH) as u32;
            assert(x * scale <= 63 * scale && y * scale <= 63 * scale) by (nonlinear_arith)
                requires
                    x <= 63,
                    y <= 63,
            ;
            rects.push(
                PixelRect {
                    x: (x * scale) as i32,
                    y: (y * scale) as i32,
                    width: scale,
                    height: scale,
                },
            );
        }
    }
    assert(display@.take(display@.len() as int) == display@);
    rects
}

/// Every lit pixel has its square among those of the display, and every
/// square among them is that of a lit pixel.
pub proof fn lemma_lit_rects(display: Seq<bool>, scale: u32, rect: PixelRect)
    ensures
        lit_rects(display, scale).contains(rect) <==> exists|p: int|
            0 <= p < display.len() && display[p] && rect == #[trigger] rect_of(p, scale),
        lit_rects(display, scale).len() <= display.len(),
    decreases display.len(),
{
    if display.len() > 0 {
        let rest = display.drop_last();
        let last = display.len() - 1;
        lemma_lit_rects(rest, scale, rect);
        if lit_rects(display, scale).contains(rect) {
            if display.last() && rect == rect_of(last, scale) {
                assert(display[last]);
            } else {
                if display.last() {
                    let k = choose|k: int|
                        0 <= k < lit_rects(display, scale).len() && lit_rects(display, scale)[k]
                            == rect;
                    assert(lit_rects(rest, scale)[k] == rect);
                }
                assert(lit_rects(rest, scale).contains(rect));
                let p = choose|p: int|
                    0 <= p < rest.len() && rest[p] && rect == #[trigger] rect_of(p, scale);
                assert(display[p]);
            }
        }
        if exists|p: int|
            0 <= p < display.len() && display[p] && rect == #[trigger] rect_of(p, scale) {
            let p = choose|p: int|
                0 <= p < display.len() && display[p] && rect == #[trigger] rect_of(p, scale);
            if p == last {
                let all = lit_rects(display, scale);
                assert(all[all.len() - 1] == rect);
            } else {
                assert(rest[p]);
                let k = choose|k: int|
                    0 <= k < lit_rects(rest, scale).len() && lit_rects(rest, scale)[k] == rect;
                assert(lit_rects(display, scale)[k] == rect);
            }
        }
    }
}

} // verus!
