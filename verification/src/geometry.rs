//! Rectangle and border-offset arithmetic.
//!
//! A native window is described by its outer rectangle, frame included; the
//! toolkit works with client bounds, the drawable interior.  The difference
//! between the two is a measured border offset.  The functions here convert
//! in both directions, splitting the offset so that the left/top edge takes
//! the rounded-down half and the right/bottom edge absorbs the remainder.

use vstd::prelude::*;

verus! {

/// A point in device pixels.
#[derive(Clone, Copy, Debug, PartialEq, Eq, Structural)]
pub struct DevicePoint {
    pub x: i32,
    pub y: i32,
}

/// A size in device pixels.
#[derive(Clone, Copy, Debug, PartialEq, Eq, Structural)]
pub struct DeviceSize {
    pub width: i32,
    pub height: i32,
}

/// A rectangle given as origin and size, in device pixels.
#[derive(Clone, Copy, Debug, PartialEq, Eq, Structural)]
pub struct DeviceBounds {
    pub origin: DevicePoint,
    pub size: DeviceSize,
}

/// A rectangle given by its four edges, as the native side records it.
#[derive(Clone, Copy, Debug, PartialEq, Eq, Structural)]
pub struct NativeRect {
    pub left: i32,
    pub top: i32,
    pub right: i32,
    pub bottom: i32,
}

/// Measured difference between the outer window size and the client size,
/// in device pixels.
#[derive(Clone, Copy, Debug, PartialEq, Eq, Structural)]
pub struct WindowBorderOffset {
    pub width_offset: i32,
    pub height_offset: i32,
}

impl DeviceSize {
    pub open spec fn wf(self) -> bool {
        self.width >= 0 && self.height >= 0
    }
}

impl DeviceBounds {
    pub open spec fn wf(self) -> bool {
        self.size.wf()
    }

    pub open spec fn left(self) -> int {
        self.origin.x as int
    }

    pub open spec fn top(self) -> int {
        self.origin.y as int
    }

    pub open spec fn right(self) -> int {
        self.origin.x + self.size.width
    }

    pub open spec fn bottom(self) -> int {
        self.origin.y + self.size.height
    }
}

impl NativeRect {
    pub open spec fn wf(self) -> bool {
        self.left <= self.right && self.top <= self.bottom
    }

    pub open spec fn width(self) -> int {
        self.right - self.left
    }

    pub open spec fn height(self) -> int {
        self.bottom - self.top
    }
}

impl WindowBorderOffset {
    /// A measured offset is never negative: the outer rectangle contains the
    /// client rectangle.
    pub open spec fn wf(self) -> bool {
        self.width_offset >= 0 && self.height_offset >= 0
    }

    /// What the left edge of the frame takes: the rounded-down half.
    pub open spec fn left_inset(self) -> int {
        self.width_offset as int / 2
    }

    /// What the right edge takes: the remainder, one more than the left
    /// inset when the offset is odd.
    pub open spec fn right_inset(self) -> int {
        self.width_offset - self.width_offset as int / 2
    }

    pub open spec fn top_inset(self) -> int {
        self.height_offset as int / 2
    }

    pub open spec fn bottom_inset(self) -> int {
        self.height_offset - self.height_offset as int / 2
    }

    /// Re-measure the offset from a freshly queried outer rectangle and
    /// client rectangle.  The native side reports a client area no larger
    /// than the window, so the offsets stay non-negative.
    pub fn update(&mut self, window_rect: NativeRect, client_rect: NativeRect)
        requires
            window_rect.wf(),
            client_rect.wf(),
            window_rect.width() <= i32::MAX,
            window_rect.height() <= i32::MAX,
            client_rect.width() <= window_rect.width(),
            client_rect.height() <= window_rect.height(),
        ensures
            final(self).width_offset == window_rect.width() - client_rect.width(),
            final(self).height_offset == window_rect.height() - client_rect.height(),
            final(self).wf(),
    {
        let window_width = window_rect.right - window_rect.left;
        let window_height = window_rect.bottom - window_rect.top;
        let client_width = client_rect.right - client_rect.left;
        let client_height = client_rect.bottom - client_rect.top;
        self.width_offset = window_width - client_width;
        self.height_offset = window_height - client_height;
    }
}

/// Whether the outer rectangle for `bounds` widened by `offset` still fits
/// the native coordinate range.
pub open spec fn window_rect_fits(bounds: DeviceBounds, offset: WindowBorderOffset) -> bool {
    &&& bounds.left() - offset.left_inset() >= i32::MIN
    &&& bounds.top() - offset.top_inset() >= i32::MIN
    &&& bounds.right() + offset.right_inset() <= i32::MAX
    &&& bounds.bottom() + offset.bottom_inset() <= i32::MAX
}

/// The outer rectangle enclosing client bounds, as a value: each side
/// moves outward by its share of the offset.
pub open spec fn spec_window_rect(bounds: DeviceBounds, offset: WindowBorderOffset) -> NativeRect {
    NativeRect {
        left: (bounds.left() - offset.left_inset()) as i32,
        top: (bounds.top() - offset.top_inset()) as i32,
        right: (bounds.right() + offset.right_inset()) as i32,
        bottom: (bounds.bottom() + offset.bottom_inset()) as i32,
    }
}

/// The outer rectangle to hand to native placement calls for a window whose
/// client area should be `bounds`: each side moves outward by its share of
/// the border offset.
pub fn calculate_window_rect(bounds: DeviceBounds, border_offset: WindowBorderOffset) -> (rect:
    NativeRect)
    requires
        bounds.wf(),
        border_offset.wf(),
        window_rect_fits(bounds, border_offset),
    ensures
        rect == spec_window_rect(bounds, border_offset),
        rect.left == bounds.left() - border_offset.left_inset(),
        rect.top == bounds.top() - border_offset.top_inset(),
        rect.right == bounds.right() + border_offset.right_inset(),
        rect.bottom == bounds.bottom() + border_offset.bottom_inset(),
        rect.wf(),
{
    let left_offset = border_offset.width_offset / 2;
    let top_offset = border_offset.height_offset / 2;
    let right_offset = border_offset.width_offset - left_offset;
    let bottom_offset = border_offset.height_offset - top_offset;
    NativeRect {
        left: bounds.origin.x - left_offset,
        top: bounds.origin.y - top_offset,
        right: bounds.origin.x + bounds.size.width + right_offset,
        bottom: bounds.origin.y + bounds.size.height + bottom_offset,
    }
}

/// Whether `rect` shrunk by `offset` yields a representable, non-negative
/// client rectangle.
pub open spec fn client_rect_fits(rect: NativeRect, offset: WindowBorderOffset) -> bool {
    &&& rect.left + offset.left_inset() <= i32::MAX
    &&& rect.top + offset.top_inset() <= i32::MAX
    &&& rect.width() <= i32::MAX
    &&& rect.height() <= i32::MAX
    &&& rect.width() >= offset.width_offset
    &&& rect.height() >= offset.height_offset
}

/// The client bounds recovered from a native outer rectangle, as a value:
/// each side moves inward by its share of the offset.
pub open spec fn spec_client_bounds(rect: NativeRect, offset: WindowBorderOffset) -> DeviceBounds {
    DeviceBounds {
        origin: DevicePoint {
            x: (rect.left + offset.left_inset()) as i32,
            y: (rect.top + offset.top_inset()) as i32,
        },
        size: DeviceSize {
            width: (rect.width() - offset.width_offset) as i32,
            height: (rect.height() - offset.height_offset) as i32,
        },
    }
}

/// The inverse of [`calculate_window_rect`]: recover the client bounds from
/// a native outer rectangle by subtracting the same offset split.
pub fn calculate_client_rect(rect: NativeRect, border_offset: WindowBorderOffset) -> (bounds:
    DeviceBounds)
    requires
        rect.wf(),
        border_offset.wf(),
        client_rect_fits(rect, border_offset),
    ensures
        bounds == spec_client_bounds(rect, border_offset),
        bounds.left() == rect.left + border_offset.left_inset(),
        bounds.top() == rect.top + border_offset.top_inset(),
        bounds.size.width == rect.width() - border_offset.width_offset,
        bounds.size.height == rect.height() - border_offset.height_offset,
        bounds.wf(),
{
    let left_offset = border_offset.width_offset / 2;
    let top_offset = border_offset.height_offset / 2;
    let right_offset = border_offset.width_offset - left_offset;
    let bottom_offset = border_offset.height_offset - top_offset;
    let left = rect.left + left_offset;
    let top = rect.top + top_offset;
    let right = rect.right - right_offset;
    let bottom = rect.bottom - bottom_offset;
    DeviceBounds {
        origin: DevicePoint { x: left, y: top },
        size: DeviceSize { width: right - left, height: bottom - top },
    }
}

/// Converting client bounds to an outer rectangle and back returns the
/// original bounds exactly, whatever the parity of the offsets: the two
/// conversions add and subtract the same per-edge split.
pub proof fn lemma_border_offset_round_trip(bounds: DeviceBounds, offset: WindowBorderOffset)
    requires
        bounds.wf(),
        offset.wf(),
    ensures
        ({
            let outer_left = bounds.left() - offset.left_inset();
            let outer_top = bounds.top() - offset.top_inset();
            let outer_right = bounds.right() + offset.right_inset();
            let outer_bottom = bounds.bottom() + offset.bottom_inset();
            &&& outer_left + offset.left_inset() == bounds.left()
            &&& outer_top + offset.top_inset() == bounds.top()
            &&& (outer_right - outer_left) - offset.width_offset == bounds.size.width
            &&& (outer_bottom - outer_top) - offset.height_offset == bounds.size.height
        }),
{
}

/// The split of an offset over the two opposite edges is deterministic:
/// both edges take exactly half of an even offset, and for an odd offset the
/// right/bottom edge takes one unit more than the left/top edge.
pub proof fn lemma_offset_split(offset: WindowBorderOffset)
    requires
        offset.wf(),
    ensures
        offset.width_offset % 2 == 0 ==> offset.right_inset() == offset.left_inset(),
        offset.width_offset % 2 == 1 ==> offset.right_inset() == offset.left_inset() + 1,
        offset.height_offset % 2 == 0 ==> offset.bottom_inset() == offset.top_inset(),
        offset.height_offset % 2 == 1 ==> offset.bottom_inset() == offset.top_inset() + 1,
        offset.left_inset() + offset.right_inset() == offset.width_offset,
        offset.top_inset() + offset.bottom_inset() == offset.height_offset,
{
}

} // verus!
