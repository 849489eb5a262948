//! Layout of the tinted overlay drawn over the glided window: where it is
//! placed, how large its drawing surface is, when its pixel buffers must be
//! reallocated, which way the resize arrows point and which help text it
//! shows.

use vstd::prelude::*;

use crate::geometry::{in_i32, Rect};

verus! {

/// Height of the "header" the overlay extends above the window's top edge.
pub const OVERLAY_TOP_EXTENSION: i32 = 7;

/// Opacity of the indicators (arrows and text).
pub const INDICATOR_OPACITY: u8 = 204;

/// Extra pixels added to each dimension when the drawing buffers are
/// (re)allocated, so that small growth does not reallocate again.
pub const BUFFER_SLACK: i32 = 256;

/// `WS_EX_TOPMOST` extended window style bit.
pub const WS_EX_TOPMOST: u32 = 0x0008;

/// Direction a resize indicator arrow points to.
#[derive(Clone, Copy, Debug, PartialEq, Eq, Structural)]
pub enum ArrowDirection {
    Up,
    Down,
    Left,
    Right,
}

/// The opposite direction.
pub open spec fn opposite(d: ArrowDirection) -> ArrowDirection {
    match d {
        ArrowDirection::Up => ArrowDirection::Down,
        ArrowDirection::Down => ArrowDirection::Up,
        ArrowDirection::Left => ArrowDirection::Right,
        ArrowDirection::Right => ArrowDirection::Left,
    }
}

/// Directions of the arrows drawn near the top, bottom, left and right
/// edges of the overlay.
#[derive(Clone, Copy, Debug, PartialEq, Eq, Structural)]
pub struct ArrowLayout {
    pub top: ArrowDirection,
    pub bottom: ArrowDirection,
    pub left: ArrowDirection,
    pub right: ArrowDirection,
}

/// The arrows point the way the borders move: outwards while Shift
/// (expand) is held, inwards otherwise (Alt, shrink).
pub fn arrow_layout(is_shift_down: bool) -> (l: ArrowLayout)
    ensures
        is_shift_down ==> l == (ArrowLayout {
            top: ArrowDirection::Up,
            bottom: ArrowDirection::Down,
            left: ArrowDirection::Left,
            right: ArrowDirection::Right,
        }),
        !is_shift_down ==> l == (ArrowLayout {
            top: ArrowDirection::Down,
            bottom: ArrowDirection::Up,
            left: ArrowDirection::Right,
            right: ArrowDirection::Left,
        }),
{
    let top = if is_shift_down {
        ArrowDirection::Up
    } else {
        ArrowDirection::Down
    };
    let bottom = if is_shift_down {
        ArrowDirection::Down
    } else {
        ArrowDirection::Up
    };
    let left = if is_shift_down {
        ArrowDirection::Left
    } else {
        ArrowDirection::Right
    };
    let right = if is_shift_down {
        ArrowDirection::Right
    } else {
        ArrowDirection::Left
    };
    ArrowLayout { top, bottom, left, right }
}

/// The shrink arrows are the expand arrows reversed, edge by edge.
pub proof fn lemma_shrink_arrows_reverse_expand_arrows(expand: ArrowLayout, shrink: ArrowLayout)
    requires
        expand == (ArrowLayout {
            top: ArrowDirection::Up,
            bottom: ArrowDirection::Down,
            left: ArrowDirection::Left,
            right: ArrowDirection::Right,
        }),
        shrink == (ArrowLayout {
            top: ArrowDirection::Down,
            bottom: ArrowDirection::Up,
            left: ArrowDirection::Right,
            right: ArrowDirection::Left,
        }),
    ensures
        shrink.top == opposite(expand.top),
        shrink.bottom == opposite(expand.bottom),
        shrink.left == opposite(expand.left),
        shrink.right == opposite(expand.right),
        expand.top == opposite(expand.bottom),
        expand.left == opposite(expand.right),
{
}

/// Screen position and size of a window.
#[derive(Clone, Copy, Debug, PartialEq, Eq, Structural)]
pub struct Placement {
    pub x: i32,
    pub y: i32,
    pub width: i32,
    pub height: i32,
}

/// The overlay's placement tracks every arithmetic in `overlay_placement`.
pub open spec fn placement_fits(rect: Rect) -> bool {
    &&& rect.has_i32_extent()
    &&& in_i32(rect.top - OVERLAY_TOP_EXTENSION)
    &&& in_i32(rect.height() + OVERLAY_TOP_EXTENSION)
}

/// Tests `placement_fits`.
pub fn can_place(rect: Rect) -> (b: bool)
    ensures
        b == placement_fits(rect),
{
    if !rect.has_valid_extent() {
        return false;
    }
    let y: i64 = rect.top as i64 - OVERLAY_TOP_EXTENSION as i64;
    let h: i64 = rect.bottom as i64 - rect.top as i64 + OVERLAY_TOP_EXTENSION as i64;
    i32::MIN as i64 <= y && y <= i32::MAX as i64 && i32::MIN as i64 <= h && h <= i32::MAX as i64
}

/// Where the overlay goes for a window at `rect`: same left edge and width,
/// extended `OVERLAY_TOP_EXTENSION` pixels above the window's top.
pub fn overlay_placement(rect: Rect) -> (p: Placement)
    requires
        placement_fits(rect),
    ensures
        p.x == rect.left,
        p.y == rect.top - OVERLAY_TOP_EXTENSION,
        p.width == rect.width(),
        p.height == rect.height() + OVERLAY_TOP_EXTENSION,
{
    Placement {
        x: rect.left,
        y: rect.top - OVERLAY_TOP_EXTENSION,
        width: rect.right - rect.left,
        height: (rect.bottom - rect.top) + OVERLAY_TOP_EXTENSION,
    }
}

/// The surface size computation of `surface_size` fits in an `i32`.
pub open spec fn surface_fits(rect: Rect) -> bool {
    &&& rect.has_i32_extent()
    &&& in_i32(rect.height() + OVERLAY_TOP_EXTENSION)
}

/// Tests `surface_fits`.
pub fn can_size_surface(rect: Rect) -> (b: bool)
    ensures
        b == surface_fits(rect),
{
    if !rect.has_valid_extent() {
        return false;
    }
    let h: i64 = rect.bottom as i64 - rect.top as i64 + OVERLAY_TOP_EXTENSION as i64;
    h <= i32::MAX as i64
}

/// Size of the overlay's drawing surface for a window at `rect`, or `None`
/// when it would be empty.
pub fn surface_size(rect: Rect) -> (s: Option<(i32, i32)>)
    requires
        surface_fits(rect),
    ensures
        s == if rect.width() <= 0 || rect.height() + OVERLAY_TOP_EXTENSION <= 0 {
            None
        } else {
            Some((rect.width() as i32, (rect.height() + OVERLAY_TOP_EXTENSION) as i32))
        },
{
    let width = rect.right - rect.left;
    let height = (rect.bottom - rect.top) + OVERLAY_TOP_EXTENSION;
    if width <= 0 || height <= 0 {
        None
    } else {
        Some((width, height))
    }
}

/// The reallocation decision: `None` when both buffers exist and are at
/// least `width` x `height`, otherwise the surface size plus `BUFFER_SLACK`.
pub open spec fn reallocation_for(
    has_buffer_a: bool,
    has_buffer_b: bool,
    cached_width: i32,
    cached_height: i32,
    width: i32,
    height: i32,
) -> Option<(i32, i32)> {
    if has_buffer_a && has_buffer_b && cached_width >= width && cached_height >= height {
        None
    } else {
        Some(((width + BUFFER_SLACK) as i32, (height + BUFFER_SLACK) as i32))
    }
}

/// The two buffers exist and are at least `width` x `height`.
pub open spec fn buffers_reusable(
    has_buffer_a: bool,
    has_buffer_b: bool,
    cached_width: i32,
    cached_height: i32,
    width: i32,
    height: i32,
) -> bool {
    has_buffer_a && has_buffer_b && cached_width >= width && cached_height >= height
}

/// When the buffers have to be reallocated, the padded size fits in an
/// `i32` (nothing is computed when they are reused).
pub open spec fn reallocation_fits(
    has_buffer_a: bool,
    has_buffer_b: bool,
    cached_width: i32,
    cached_height: i32,
    width: i32,
    height: i32,
) -> bool {
    !buffers_reusable(has_buffer_a, has_buffer_b, cached_width, cached_height, width, height) ==> (
    width + BUFFER_SLACK <= i32::MAX && height + BUFFER_SLACK <= i32::MAX)
}

/// Tests `reallocation_fits`.
pub fn can_plan_buffers(
    has_buffer_a: bool,
    has_buffer_b: bool,
    cached_width: i32,
    cached_height: i32,
    width: i32,
    height: i32,
) -> (b: bool)
    ensures
        b == reallocation_fits(has_buffer_a, has_buffer_b, cached_width, cached_height, width, height),
{
    let reusable = has_buffer_a && has_buffer_b && cached_width >= width && cached_height >= height;
    reusable || (width <= i32::MAX - BUFFER_SLACK && height <= i32::MAX - BUFFER_SLACK)
}

/// Buffers that both exist and are large enough are always reused, whatever
/// their exact size.
pub proof fn lemma_large_enough_buffers_are_reused(
    cached_width: i32,
    cached_height: i32,
    width: i32,
    height: i32,
)
    requires
        cached_width >= width,
        cached_height >= height,
    ensures
        reallocation_fits(true, true, cached_width, cached_height, width, height),
        reallocation_for(true, true, cached_width, cached_height, width, height) is None,
{
}

/// Which of the two drawing buffers a surface is rendered into.
#[derive(Clone, Copy, Debug, PartialEq, Eq, Structural)]
pub enum SurfaceBuffer {
    A,
    B,
}

/// The buffer a selection flag designates: B when set, A otherwise.
pub open spec fn buffer_of(use_buffer_b: bool) -> SurfaceBuffer {
    if use_buffer_b {
        SurfaceBuffer::B
    } else {
        SurfaceBuffer::A
    }
}

/// The selection flag after an upload: swapped when it succeeded.
pub open spec fn after_commit(use_buffer_b: bool, upload_succeeded: bool) -> bool {
    if upload_succeeded {
        !use_buffer_b
    } else {
        use_buffer_b
    }
}

/// The back buffer to render into.
pub fn back_buffer(use_buffer_b: bool) -> (b: SurfaceBuffer)
    ensures
        b == buffer_of(use_buffer_b),
{
    if use_buffer_b {
        SurfaceBuffer::B
    } else {
        SurfaceBuffer::A
    }
}

/// The buffer selection after uploading a surface: a successful upload
/// swaps the buffers, a failed one keeps the selection.
pub fn buffer_after_commit(use_buffer_b: bool, upload_succeeded: bool) -> (next: bool)
    ensures
        next == after_commit(use_buffer_b, upload_succeeded),
{
    if upload_succeeded {
        !use_buffer_b
    } else {
        use_buffer_b
    }
}

/// Double buffering: after a successful upload the next surface goes into
/// the other buffer, after two into the first one again; without a
/// successful upload the same buffer is rendered into again.
pub proof fn lemma_double_buffering(use_buffer_b: bool)
    ensures
        buffer_of(after_commit(use_buffer_b, true)) != buffer_of(use_buffer_b),
        after_commit(after_commit(use_buffer_b, true), true) == use_buffer_b,
        after_commit(use_buffer_b, false) == use_buffer_b,
{
}

/// Decides whether the two drawing buffers can be reused for a surface of
/// `width` x `height`: they must both exist and be at least that large.
/// Otherwise returns the size to reallocate both buffers with, the surface
/// size plus `BUFFER_SLACK` in each dimension.
pub fn buffer_reallocation(
    has_buffer_a: bool,
    has_buffer_b: bool,
    cached_width: i32,
    cached_height: i32,
    width: i32,
    height: i32,
) -> (r: Option<(i32, i32)>)
    requires
        reallocation_fits(has_buffer_a, has_buffer_b, cached_width, cached_height, width, height),
    ensures
        r == reallocation_for(has_buffer_a, has_buffer_b, cached_width, cached_height, width, height),
{
    let is_cache_valid = has_buffer_a && has_buffer_b && cached_width >= width && cached_height
        >= height;
    if is_cache_valid {
        None
    } else {
        Some((width + BUFFER_SLACK, height + BUFFER_SLACK))
    }
}

/// Once both buffers have been allocated with the size a reallocation asked
/// for, every surface no larger than the one that asked reuses them.
pub proof fn lemma_reallocated_buffers_are_reused(
    width: i32,
    height: i32,
    later_width: i32,
    later_height: i32,
)
    requires
        width + BUFFER_SLACK <= i32::MAX,
        height + BUFFER_SLACK <= i32::MAX,
        later_width <= width,
        later_height <= height,
    ensures
        ({
            let (w, h) = reallocation_for(false, false, 0, 0, width, height).unwrap();
            reallocation_for(true, true, w, h, later_width, later_height) is None
        }),
{
}

/// The help text shown on the overlay for the held resize modifiers.
pub fn help_text(is_shift_down: bool, is_alt_down: bool) -> (t: &'static str)
    ensures
        is_shift_down ==> t@ == "Press the [Arrow keys] to push the window borders outwards."@,
        !is_shift_down && is_alt_down ==> t@
            == "Press the [Arrow keys] to pull the window borders inwards."@,
        !is_shift_down && !is_alt_down ==> t@
            == "Press [Arrow keys] to move the window around.\nPress [Shift] and [Arrow keys] to resize the window up.\nPress [Alt] and [Arrow keys] to resize the window down."@,
{
    if is_shift_down {
        "Press the [Arrow keys] to push the window borders outwards."
    } else if is_alt_down {
        "Press the [Arrow keys] to pull the window borders inwards."
    } else {
        "Press [Arrow keys] to move the window around.\nPress [Shift] and [Arrow keys] to resize the window up.\nPress [Alt] and [Arrow keys] to resize the window down."
    }
}

/// Offset that centers `size` in `available` (half the slack, truncated),
/// or 0 when it does not fit.
pub open spec fn centering_offset(available: int, size: int) -> int {
    if available - size > 0 {
        (available - size) / 2
    } else {
        0
    }
}

/// All arithmetic of `centered_text_rect` fits in an `i32`.
pub open spec fn text_rect_fits(target: Rect, text_width: i32, text_height: i32) -> bool {
    &&& target.has_i32_extent()
    &&& in_i32(target.width() - text_width)
    &&& in_i32(target.height() - text_height)
    &&& in_i32(target.left + centering_offset(target.width(), text_width as int))
    &&& in_i32(target.top + centering_offset(target.height(), text_height as int))
    &&& in_i32(target.left + centering_offset(target.width(), text_width as int) + text_width)
    &&& in_i32(target.top + centering_offset(target.height(), text_height as int) + text_height)
}

/// Tests `text_rect_fits`.
pub fn can_center_text(target: Rect, text_width: i32, text_height: i32) -> (b: bool)
    ensures
        b == text_rect_fits(target, text_width, text_height),
{
    if !target.has_valid_extent() {
        return false;
    }
    let min: i64 = i32::MIN as i64;
    let max: i64 = i32::MAX as i64;
    let slack_x: i64 = target.right as i64 - target.left as i64 - text_width as i64;
    let slack_y: i64 = target.bottom as i64 - target.top as i64 - text_height as i64;
    let off_x: i64 = if slack_x > 0 {
        slack_x / 2
    } else {
        0
    };
    let off_y: i64 = if slack_y > 0 {
        slack_y / 2
    } else {
        0
    };
    let left: i64 = target.left as i64 + off_x;
    let top: i64 = target.top as i64 + off_y;
    min <= slack_x && slack_x <= max && min <= slack_y && slack_y <= max && min <= left && left
        <= max && min <= top && top <= max && min <= left + text_width as i64 && left
        + text_width as i64 <= max && min <= top + text_height as i64 && top + text_height as i64
        <= max
}

/// Where the help text of the measured size is drawn: centered in the
/// target area horizontally and vertically, but never before its top-left
/// corner.
pub fn centered_text_rect(target: Rect, text_width: i32, text_height: i32) -> (r: Rect)
    requires
        text_rect_fits(target, text_width, text_height),
    ensures
        r.left == target.left + centering_offset(target.width(), text_width as int),
        r.top == target.top + centering_offset(target.height(), text_height as int),
        r.width() == text_width,
        r.height() == text_height,
        r.left >= target.left,
        r.top >= target.top,
{
    let available_width = target.right - target.left;
    let available_height = target.bottom - target.top;
    let slack_x = available_width - text_width;
    let slack_y = available_height - text_height;
    let x_offset = if slack_x > 0 { slack_x / 2 } else { 0 };
    let y_offset = if slack_y > 0 { slack_y / 2 } else { 0 };
    Rect {
        left: target.left + x_offset,
        top: target.top + y_offset,
        right: target.left + x_offset + text_width,
        bottom: target.top + y_offset + text_height,
    }
}

/// Whether a window with extended style `ex_style` is topmost (the overlay
/// then has to be topmost too).
pub fn owner_is_topmost(ex_style: u32) -> (b: bool)
    ensures
        b == (ex_style & WS_EX_TOPMOST != 0),
{
    ex_style & WS_EX_TOPMOST != 0
}

/// First byte of pixel row `y` in a buffer whose rows are `stride` bytes
/// apart.
pub open spec fn row_offset(y: int, stride: int) -> int {
    y * stride
}

/// Byte `k` lies in the active part (`row_bytes` bytes) of row `y`, and that
/// whole active part lies inside a buffer of `len` bytes.
pub open spec fn row_covers(y: int, k: int, stride: int, row_bytes: int, len: int) -> bool {
    &&& row_offset(y, stride) <= k < row_offset(y, stride) + row_bytes
    &&& row_offset(y, stride) + row_bytes <= len
}

/// Tests the precondition of `clear_active_rows`: no row's active part ends
/// past `usize::MAX`.
pub fn can_clear_rows(stride: usize, row_bytes: usize, rows: usize) -> (b: bool)
    ensures
        b == forall|y: int| 0 <= y < rows ==> #[trigger] row_offset(y, stride as int) + row_bytes
            <= usize::MAX,
{
    if rows == 0 {
        return true;
    }
    let last_row: u128 = (rows - 1) as u128;
    assert(last_row * (stride as u128) <= 0xffff_ffff_ffff_ffff * 0xffff_ffff_ffff_ffff) by (nonlinear_arith)
        requires
            0 <= last_row <= 0xffff_ffff_ffff_ffff,
            0 <= stride <= 0xffff_ffff_ffff_ffff,
    ;
    let last_end: u128 = last_row * (stride as u128) + row_bytes as u128;
    let fits = last_end <= usize::MAX as u128;
    proof {
        if fits {
            assert forall|y: int| 0 <= y < rows implies #[trigger] row_offset(y, stride as int)
                + row_bytes <= usize::MAX by {
                assert(y * stride <= last_row * stride) by (nonlinear_arith)
                    requires
                        0 <= y <= last_row,
                        0 <= stride,
                ;
            }
        } else {
            assert(row_offset(last_row as int, stride as int) + row_bytes > usize::MAX);
        }
    }
    fits
}

/// Clears (sets to 0) the first `row_bytes` bytes of each of the first
/// `rows` rows of a pixel buffer whose rows are `stride` bytes apart,
/// skipping a row whose active part does not fit in the buffer. Every other
/// byte is left as it was. The overlay surface is cleared this way before
/// drawing, since the drawing memory is reused between frames.
pub fn clear_active_rows(pixels: &mut [u8], stride: usize, row_bytes: usize, rows: usize)
    requires
        forall|y: int| 0 <= y < rows ==> #[trigger] row_offset(y, stride as int) + row_bytes
            <= usize::MAX,
    ensures
        final(pixels)@.len() == old(pixels)@.len(),
        forall|y: int, c: int|
            #![trigger row_offset(y, stride as int), final(pixels)@[row_offset(y, stride as int) + c]]
            0 <= y < rows && 0 <= c < row_bytes && row_offset(y, stride as int) + row_bytes
                <= old(pixels)@.len() ==> final(pixels)@[row_offset(y, stride as int) + c] == 0,
        forall|k: int|
            0 <= k < old(pixels)@.len() && (forall|y: int|
                0 <= y < rows ==> !#[trigger] row_covers(
                    y,
                    k,
                    stride as int,
                    row_bytes as int,
                    old(pixels)@.len() as int,
                )) ==> #[trigger] final(pixels)@[k] == old(pixels)@[k],
{
    let len = pixels.len();
    let ghost start = pixels@;
    let mut y: usize = 0;
    while y < rows
        invariant
            y <= rows,
            len == start.len(),
            pixels@.len() == len,
            forall|yy: int| 0 <= yy < rows ==> #[trigger] row_offset(yy, stride as int) + row_bytes
                <= usize::MAX,
            forall|yy: int, c: int|
                #![trigger row_offset(yy, stride as int), pixels@[row_offset(yy, stride as int) + c]]
                0 <= yy < y && 0 <= c < row_bytes && row_offset(yy, stride as int) + row_bytes
                    <= len ==> pixels@[row_offset(yy, stride as int) + c] == 0,
            forall|k: int|
                0 <= k < len && (forall|yy: int|
                    0 <= yy < y ==> !#[trigger] row_covers(
                        yy,
                        k,
                        stride as int,
                        row_bytes as int,
                        len as int,
                    )) ==> #[trigger] pixels@[k] == start[k],
        decreases rows - y,
    {
        assert(row_offset(y as int, stride as int) + row_bytes <= usize::MAX);
        let row_start = y * stride;
        assert(row_start == row_offset(y as int, stride as int));
        let row_end = row_start + row_bytes;
        let ghost before = pixels@;
        if row_end <= len {
            let mut c = row_start;
            while c < row_end
                invariant
                    row_start <= c <= row_end,
                    row_end <= len,
                    pixels@.len() == len,
                    forall|j: int| row_start <= j < c ==> #[trigger] pixels@[j] == 0,
                    forall|j: int|
                        0 <= j < len && !(row_start <= j < c) ==> #[trigger] pixels@[j]
                            == before[j],
                decreases row_end - c,
            {
                pixels[c] = 0;
                c = c + 1;
            }
        }
        assert forall|yy: int, cc: int|
            #![trigger row_offset(yy, stride as int), pixels@[row_offset(yy, stride as int) + cc]]
            0 <= yy < y + 1 && 0 <= cc < row_bytes && row_offset(yy, stride as int) + row_bytes
                <= len implies pixels@[row_offset(yy, stride as int) + cc] == 0 by {
            if yy < y {
                assert(before[row_offset(yy, stride as int) + cc] == 0);
            }
        }
        assert forall|k: int|
            0 <= k < len && (forall|yy: int|
                0 <= yy < y + 1 ==> !#[trigger] row_covers(
                    yy,
                    k,
                    stride as int,
                    row_bytes as int,
                    len as int,
                )) implies #[trigger] pixels@[k] == start[k] by {
            assert(!row_covers(y as int, k, stride as int, row_bytes as int, len as int));
            assert forall|yy: int| 0 <= yy < y implies !#[trigger] row_covers(
                yy,
                k,
                stride as int,
                row_bytes as int,
                len as int,
            ) by {}
            assert(before[k] == start[k]);
        }
        y = y + 1;
    }
}

/// The block of pixels scanned when the drawn help text is recoloured:
/// rows `top..bottom` and columns `left..right` of the surface.
#[derive(Clone, Copy, Debug, PartialEq, Eq, Structural)]
pub struct ScanWindow {
    pub top: usize,
    pub bottom: usize,
    pub left: usize,
    pub right: usize,
}

/// Start of a scan range: the edge, or 0 when it is negative.
pub open spec fn scan_start(edge: i32) -> int {
    if edge < 0 {
        0
    } else {
        edge as int
    }
}

/// End of a scan range: the edge clipped to the surface's `size`; a
/// negative edge (an unsigned wrap-around, so larger than any size) clips to
/// `size` too.
pub open spec fn scan_end(edge: i32, size: i32) -> int {
    if edge < 0 || edge > size {
        size as int
    } else {
        edge as int
    }
}

/// The pixels of the surface (`width` x `height`) covered by the text drawn
/// at `draw`, clipped to the surface.
pub fn text_scan_window(draw: Rect, width: i32, height: i32) -> (w: ScanWindow)
    requires
        width >= 0,
        height >= 0,
    ensures
        w.top == scan_start(draw.top),
        w.bottom == scan_end(draw.bottom, height),
        w.left == scan_start(draw.left),
        w.right == scan_end(draw.right, width),
        w.bottom <= height,
        w.right <= width,
{
    let top: usize = if draw.top < 0 {
        0
    } else {
        draw.top as usize
    };
    let bottom: usize = if draw.bottom < 0 || draw.bottom > height {
        height as usize
    } else {
        draw.bottom as usize
    };
    let left: usize = if draw.left < 0 {
        0
    } else {
        draw.left as usize
    };
    let right: usize = if draw.right < 0 || draw.right > width {
        width as usize
    } else {
        draw.right as usize
    };
    ScanWindow { top, bottom, left, right }
}

/// Every pixel the text recolouring visits lies inside the drawing buffer:
/// with rows `4 * cached_width` bytes apart and a surface no larger than the
/// buffer, each of the 4 bytes of pixel `(x, y)` of the scan window is
/// inside the `4 * cached_width * cached_height` bytes.
pub proof fn lemma_scan_stays_in_buffer(
    draw: Rect,
    width: i32,
    height: i32,
    cached_width: i32,
    cached_height: i32,
    x: int,
    y: int,
    byte: int,
)
    requires
        0 <= width <= cached_width,
        0 <= height <= cached_height,
        scan_start(draw.top) <= y < scan_end(draw.bottom, height),
        scan_start(draw.left) <= x < scan_end(draw.right, width),
        0 <= byte < 4,
    ensures
        0 <= y * (4 * cached_width) + x * 4 + byte < 4 * cached_width * cached_height,
{
    assert(0 <= y * (4 * cached_width) + x * 4 + byte < 4 * cached_width * cached_height)
        by (nonlinear_arith)
        requires
            0 <= y < cached_height,
            0 <= x < cached_width,
            0 <= byte < 4,
    ;
}

} // verus!
