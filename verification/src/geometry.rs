//! Integer rectangle geometry: centering a window inside a monitor work area
//! and keeping a moved window partly visible on the virtual desktop.

use vstd::prelude::*;

verus! {

/// A screen rectangle in virtual-desktop pixels (left/top inclusive,
/// right/bottom exclusive), laid out like the Win32 `RECT`.
#[derive(Clone, Copy, Debug, PartialEq, Eq, Structural)]
pub struct Rect {
    pub left: i32,
    pub top: i32,
    pub right: i32,
    pub bottom: i32,
}

/// Smaller of two integers.
pub open spec fn min_int(a: int, b: int) -> int {
    if a <= b { a } else { b }
}

/// Whether `v` is representable as an `i32`.
pub open spec fn in_i32(v: int) -> bool {
    i32::MIN <= v <= i32::MAX
}

impl Rect {
    /// Horizontal extent.
    pub open spec fn width(self) -> int {
        self.right - self.left
    }

    /// Vertical extent.
    pub open spec fn height(self) -> int {
        self.bottom - self.top
    }

    /// Width and height are both representable as `i32`.
    pub open spec fn has_i32_extent(self) -> bool {
        in_i32(self.width()) && in_i32(self.height())
    }

    /// `inner` lies entirely inside `self`.
    pub open spec fn contains_rect(self, inner: Rect) -> bool {
        &&& self.left <= inner.left
        &&& self.top <= inner.top
        &&& inner.right <= self.right
        &&& inner.bottom <= self.bottom
    }

    /// Builds a rectangle from its four edges.
    pub fn new(left: i32, top: i32, right: i32, bottom: i32) -> (r: Rect)
        ensures
            r == (Rect { left, top, right, bottom }),
    {
        Rect { left, top, right, bottom }
    }

    /// Tests whether width and height fit in an `i32` (the arithmetic that
    /// every sizing computation below starts with).
    pub fn has_valid_extent(&self) -> (b: bool)
        ensures
            b == self.has_i32_extent(),
    {
        let w: i64 = self.right as i64 - self.left as i64;
        let h: i64 = self.bottom as i64 - self.top as i64;
        i32::MIN as i64 <= w && w <= i32::MAX as i64 && i32::MIN as i64 <= h && h
            <= i32::MAX as i64
    }
}

/// How many pixels of a moved window must stay on the virtual desktop.
pub const MIN_VISIBLE: i32 = 150;

/// `p` clamped to `[lo, hi]`, testing the lower bound first (when the
/// bounds cross, a value below `lo` still goes to `lo`).
pub open spec fn clamp_axis(p: int, lo: int, hi: int) -> int {
    if p < lo {
        lo
    } else if p > hi {
        hi
    } else {
        p
    }
}

/// Lowest allowed left edge for a window of width `w` on `vs`.
pub open spec fn min_left(vs: Rect, w: int) -> int {
    vs.left - w + MIN_VISIBLE
}

/// Highest allowed left edge on `vs`.
pub open spec fn max_left(vs: Rect) -> int {
    vs.right - MIN_VISIBLE
}

/// Lowest allowed top edge for a window of height `h` on `vs`.
pub open spec fn min_top(vs: Rect, h: int) -> int {
    vs.top - h + MIN_VISIBLE
}

/// Highest allowed top edge on `vs`.
pub open spec fn max_top(vs: Rect) -> int {
    vs.bottom - MIN_VISIBLE
}

/// The rectangle a window of `window`'s size takes when asked to move to
/// `(left, top)` on the virtual desktop `vs`.
pub open spec fn kept_visible_rect(window: Rect, left: int, top: int, vs: Rect) -> Rect {
    let x = clamp_axis(left, min_left(vs, window.width()), max_left(vs));
    let y = clamp_axis(top, min_top(vs, window.height()), max_top(vs));
    Rect {
        left: x as i32,
        top: y as i32,
        right: (x + window.width()) as i32,
        bottom: (y + window.height()) as i32,
    }
}

/// Every intermediate value of the visibility clamp fits in an `i32`.
pub open spec fn visibility_clamp_fits(window: Rect, left: int, top: int, vs: Rect) -> bool {
    let x = clamp_axis(left, min_left(vs, window.width()), max_left(vs));
    let y = clamp_axis(top, min_top(vs, window.height()), max_top(vs));
    &&& window.has_i32_extent()
    &&& in_i32(vs.left - window.width())
    &&& in_i32(min_left(vs, window.width()))
    &&& in_i32(max_left(vs))
    &&& in_i32(vs.top - window.height())
    &&& in_i32(min_top(vs, window.height()))
    &&& in_i32(max_top(vs))
    &&& in_i32(x + window.width())
    &&& in_i32(y + window.height())
}

/// Moves a window of `window`'s size to `(left, top)`, clamping the position
/// so that at least `MIN_VISIBLE` pixels of it stay on the virtual desktop
/// `vs` in each direction. The size is kept.
pub fn keep_partly_visible(window: Rect, left: i32, top: i32, vs: Rect) -> (r: Rect)
    requires
        visibility_clamp_fits(window, left as int, top as int, vs),
    ensures
        r == kept_visible_rect(window, left as int, top as int, vs),
        r.width() == window.width(),
        r.height() == window.height(),
{
    let width = window.right - window.left;
    let height = window.bottom - window.top;
    let min_visible = MIN_VISIBLE;

    let mut new_left = left;
    let mut new_top = top;
    if new_left < vs.left - width + min_visible {
        new_left = vs.left - width + min_visible;
    } else if new_left > vs.right - min_visible {
        new_left = vs.right - min_visible;
    }
    if new_top < vs.top - height + min_visible {
        new_top = vs.top - height + min_visible;
    } else if new_top > vs.bottom - min_visible {
        new_top = vs.bottom - min_visible;
    }
    Rect { left: new_left, top: new_top, right: new_left + width, bottom: new_top + height }
}

/// Tests `visibility_clamp_fits`: whether `keep_partly_visible` can compute
/// its result without leaving the `i32` range.
pub fn can_keep_visible(window: Rect, left: i32, top: i32, vs: Rect) -> (b: bool)
    ensures
        b == visibility_clamp_fits(window, left as int, top as int, vs),
{
    let w: i64 = window.right as i64 - window.left as i64;
    let h: i64 = window.bottom as i64 - window.top as i64;
    let lo_x: i64 = vs.left as i64 - w + MIN_VISIBLE as i64;
    let hi_x: i64 = vs.right as i64 - MIN_VISIBLE as i64;
    let lo_y: i64 = vs.top as i64 - h + MIN_VISIBLE as i64;
    let hi_y: i64 = vs.bottom as i64 - MIN_VISIBLE as i64;
    let x: i64 = if (left as i64) < lo_x {
        lo_x
    } else if left as i64 > hi_x {
        hi_x
    } else {
        left as i64
    };
    let y: i64 = if (top as i64) < lo_y {
        lo_y
    } else if top as i64 > hi_y {
        hi_y
    } else {
        top as i64
    };
    let min: i64 = i32::MIN as i64;
    let max: i64 = i32::MAX as i64;
    min <= w && w <= max && min <= h && h <= max && min <= vs.left as i64 - w && vs.left as i64
        - w <= max && min <= lo_x && lo_x <= max && min <= hi_x && hi_x <= max && min <= vs.top
        as i64 - h && vs.top as i64 - h <= max && min <= lo_y && lo_y <= max && min <= hi_y
        && hi_y <= max && min <= x + w && x + w <= max && min <= y + h && y + h <= max
}

/// A window moved with `keep_partly_visible` keeps at least `MIN_VISIBLE`
/// pixels on the virtual desktop: its left edge is at least that far from
/// the desktop's right edge and its right edge at least that far past the
/// desktop's left edge (and likewise vertically), whenever the desktop is
/// large enough for both bounds to hold at once.
pub proof fn lemma_moved_window_stays_visible(window: Rect, left: int, top: int, vs: Rect)
    requires
        visibility_clamp_fits(window, left, top, vs),
        min_left(vs, window.width()) <= max_left(vs),
        min_top(vs, window.height()) <= max_top(vs),
    ensures
        kept_visible_rect(window, left, top, vs).left <= vs.right - MIN_VISIBLE,
        kept_visible_rect(window, left, top, vs).right >= vs.left + MIN_VISIBLE,
        kept_visible_rect(window, left, top, vs).top <= vs.bottom - MIN_VISIBLE,
        kept_visible_rect(window, left, top, vs).bottom >= vs.top + MIN_VISIBLE,
{
}

/// A window already inside the allowed band is not moved by the clamp.
pub proof fn lemma_visible_position_unchanged(window: Rect, left: int, top: int, vs: Rect)
    requires
        visibility_clamp_fits(window, left, top, vs),
        min_left(vs, window.width()) <= left <= max_left(vs),
        min_top(vs, window.height()) <= top <= max_top(vs),
    ensures
        kept_visible_rect(window, left, top, vs).left == left,
        kept_visible_rect(window, left, top, vs).top == top,
{
}

/// Whether the virtual desktop's edges computed by `virtual_screen_rect`
/// fit in an `i32`.
pub fn virtual_screen_in_range(x: i32, y: i32, cx: i32, cy: i32) -> (b: bool)
    ensures
        b == (in_i32(x + cx) && in_i32(y + cy)),
{
    let r: i64 = x as i64 + cx as i64;
    let b: i64 = y as i64 + cy as i64;
    i32::MIN as i64 <= r && r <= i32::MAX as i64 && i32::MIN as i64 <= b && b <= i32::MAX as i64
}

/// The virtual desktop's bounding rectangle from its origin and size, as
/// the system metrics report them.
pub fn virtual_screen_rect(x: i32, y: i32, cx: i32, cy: i32) -> (r: Rect)
    requires
        in_i32(x + cx),
        in_i32(y + cy),
    ensures
        r == (Rect { left: x, top: y, right: (x + cx) as i32, bottom: (y + cy) as i32 }),
        r.width() == cx,
        r.height() == cy,
{
    Rect { left: x, top: y, right: x + cx, bottom: y + cy }
}

} // verus!
