use vstd::prelude::*;
use crate::position::{MousePosition, ScreenSize};

verus! {

/// The four corners of the screen that make up the gesture.
#[derive(Clone, Copy, Debug, PartialEq, Eq, Structural)]
pub enum Corner {
    UpperLeft,
    LowerLeft,
    LowerRight,
    UpperRight,
}

/// `v` lies within `t` pixels of the low end (zero) of an axis.
pub open spec fn near_low(v: int, t: int) -> bool {
    0 <= v <= t
}

/// `v` lies within `t` pixels of the high end `max` of an axis.
pub open spec fn near_high(v: int, max: int, t: int) -> bool {
    max - t <= v <= max
}

/// Whether `p` touches corner `c` of a screen of size `b`, with `t` pixels of slack on both
/// axes. The upper-left corner, which arms the gesture, is matched exactly.
pub open spec fn touches(p: MousePosition, c: Corner, b: ScreenSize, t: u32) -> bool {
    let (x, y, w, h, t) = (p.x as int, p.y as int, b.max_width as int, b.max_height as int, t as int);
    match c {
        Corner::UpperLeft => p.is_origin(),
        Corner::LowerLeft => near_low(x, t) && near_high(y, h, t),
        Corner::LowerRight => near_high(x, w, t) && near_high(y, h, t),
        Corner::UpperRight => near_high(x, w, t) && near_low(y, t),
    }
}

/// Whether some position of `history` touches corner `c`.
pub open spec fn history_touches(history: Seq<MousePosition>, c: Corner, b: ScreenSize, t: u32) -> bool {
    exists|i: int| 0 <= i < history.len() && #[trigger] touches(history[i], c, b, t)
}

/// The lower-right corner is touched exactly when `x` lies in `[w - t, w]` and `y` in
/// `[h - t, h]`, both ends included.
pub proof fn lemma_lower_right_window(p: MousePosition, b: ScreenSize, t: u32)
    ensures
        touches(p, Corner::LowerRight, b, t) <==> (b.max_width - t <= p.x <= b.max_width && b.max_height - t
            <= p.y <= b.max_height),
{
}

pub fn touches_corner(point: &MousePosition, corner: Corner, bounds: &ScreenSize, tolerance: u32) -> (r: bool)
    ensures
        r == touches(*point, corner, *bounds, tolerance),
{
    let x = point.x as i64;
    let y = point.y as i64;
    let w = bounds.max_width as i64;
    let h = bounds.max_height as i64;
    let t = tolerance as i64;
    match corner {
        Corner::UpperLeft => x == 0 && y == 0,
        Corner::LowerLeft => 0 <= x && x <= t && h - t <= y && y <= h,
        Corner::LowerRight => w - t <= x && x <= w && h - t <= y && y <= h,
        Corner::UpperRight => w - t <= x && x <= w && 0 <= y && y <= t,
    }
}

pub fn history_touches_corner(
    history: &Vec<MousePosition>,
    corner: Corner,
    bounds: &ScreenSize,
    tolerance: u32,
) -> (r: bool)
    ensures
        r == history_touches(history@, corner, *bounds, tolerance),
{
    let mut i: usize = 0;
    while i < history.len()
        invariant
            0 <= i <= history@.len(),
            forall|j: int| 0 <= j < i ==> !touches(#[trigger] history@[j], corner, *bounds, tolerance),
        decreases history.len() - i,
    {
        if touches_corner(&history[i], corner, bounds, tolerance) {
            return true;
        }
        i = i + 1;
    }
    false
}

} // verus!
