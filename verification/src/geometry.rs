//! Screen rectangles and points: where the bottom screen edge is, where the
//! tray menu opens, and where the shortcut field of the settings dialog sits.

use vstd::prelude::*;
use crate::words::{loword, hiword, low_word, high_word};

verus! {

/// A rectangle in screen pixels; `right` and `bottom` lie just outside it.
#[derive(Clone, Copy, Debug, PartialEq, Eq, Structural)]
pub struct ScreenRect {
    pub left: i32,
    pub top: i32,
    pub right: i32,
    pub bottom: i32,
}

/// A point in screen pixels.
#[derive(Clone, Copy, Debug, PartialEq, Eq, Structural)]
pub struct Point {
    pub x: i32,
    pub y: i32,
}

/// A window position and size.
#[derive(Clone, Copy, Debug, PartialEq, Eq, Structural)]
pub struct Placement {
    pub x: i32,
    pub y: i32,
    pub width: i32,
    pub height: i32,
}

/// A 16-bit half word read as a signed number.
pub open spec fn signed_half(v: u32) -> i32 {
    if v < 0x8000 {
        v as i32
    } else {
        (v - 0x10000) as i32
    }
}

/// The point a version-4 tray notification carries in its first parameter:
/// x in the low half word, y in the high one, both signed.
pub open spec fn point_of_word(wparam: usize) -> Point {
    Point { x: signed_half(low_word(wparam as u32)), y: signed_half(high_word(wparam as u32)) }
}

/// Whether a point lies in the two pixel rows at the bottom of a monitor.
pub open spec fn at_bottom_edge(x: i32, y: i32, monitor: ScreenRect) -> bool {
    &&& y >= monitor.bottom - 2
    &&& y < monitor.bottom
    &&& x >= monitor.left
    &&& x < monitor.right
}

/// `v - 1`, staying at the smallest value instead of going below it.
pub open spec fn one_less(v: i32) -> i32 {
    if v == i32::MIN {
        v
    } else {
        (v - 1) as i32
    }
}

/// `v` brought into `[lo, hi]`.
pub open spec fn clamped(v: i32, lo: i32, hi: i32) -> i32 {
    if v < lo {
        lo
    } else if v > hi {
        hi
    } else {
        v
    }
}

pub const TPM_RIGHTBUTTON: u32 = 0x0002;
pub const TPM_RIGHTALIGN: u32 = 0x0008;
pub const TPM_BOTTOMALIGN: u32 = 0x0020;
pub const TPM_NONOTIFY: u32 = 0x0080;
pub const TPM_RETURNCMD: u32 = 0x0100;

/// Where the tray menu opens and with which `TrackPopupMenu` flags.
#[derive(Clone, Copy, Debug, PartialEq, Eq, Structural)]
pub struct MenuPlacement {
    pub x: i32,
    pub y: i32,
    pub flags: u32,
}

/// The tray menu opens at the requested point brought inside the work area
/// of its monitor. It always returns the chosen command without notifying,
/// and tracks the right button; it grows upwards when it sits on the last
/// row of the work area and leftwards when it sits on the last column.
pub open spec fn menu_placement_for(x: i32, y: i32, work: ScreenRect) -> MenuPlacement {
    let cx = clamped(x, work.left, one_less(work.right));
    let cy = clamped(y, work.top, one_less(work.bottom));
    MenuPlacement {
        x: cx,
        y: cy,
        flags: (TPM_NONOTIFY + TPM_RETURNCMD + TPM_RIGHTBUTTON + (if cy >= one_less(work.bottom) {
            TPM_BOTTOMALIGN
        } else {
            0
        }) + (if cx >= one_less(work.right) {
            TPM_RIGHTALIGN
        } else {
            0
        })) as u32,
    }
}

/// The placement of the shortcut field: from the left margin of the dialog
/// to four pixels before the clear button, as high as that button.
pub open spec fn field_placement(field_left: i32, clear_top_left: Point, clear_bottom_right: Point) -> Placement {
    Placement {
        x: field_left,
        y: clear_top_left.y,
        width: (clear_top_left.x - field_left - 4) as i32,
        height: (clear_bottom_right.y - clear_top_left.y) as i32,
    }
}

fn signed16(v: u32) -> (res: i32)
    requires
        v < 0x10000,
    ensures
        res == signed_half(v),
{
    let h = v as u16 as i16;
    assert(h == signed_half(v)) by (bit_vector)
        requires
            v < 0x10000,
            h == v as u16 as i16,
    ;
    h as i32
}

/// The point carried by a version-4 tray notification.
pub fn point_from_wparam(wparam: usize) -> (p: Point)
    ensures
        p == point_of_word(wparam),
{
    let w = wparam as u32;
    Point { x: signed16(loword(w)), y: signed16(hiword(w)) }
}

/// Whether the pointer is at the bottom edge of the monitor.
pub fn at_bottom_edge_of(x: i32, y: i32, monitor: ScreenRect) -> (res: bool)
    requires
        monitor.bottom >= i32::MIN + 2,
    ensures
        res == at_bottom_edge(x, y, monitor),
{
    y >= monitor.bottom - 2 && y < monitor.bottom && x >= monitor.left && x < monitor.right
}

fn saturating_less_one(v: i32) -> (res: i32)
    ensures
        res == one_less(v),
{
    if v == i32::MIN {
        v
    } else {
        v - 1
    }
}

fn clamp_between(v: i32, lo: i32, hi: i32) -> (res: i32)
    requires
        lo <= hi,
    ensures
        res == clamped(v, lo, hi),
{
    if v < lo {
        lo
    } else if v > hi {
        hi
    } else {
        v
    }
}

/// Where the tray menu opens for a requested point. The work area must not
/// be empty.
pub fn menu_placement(x: i32, y: i32, work: ScreenRect) -> (p: MenuPlacement)
    requires
        work.left <= one_less(work.right),
        work.top <= one_less(work.bottom),
    ensures
        p == menu_placement_for(x, y, work),
{
    let right = saturating_less_one(work.right);
    let bottom = saturating_less_one(work.bottom);
    let cx = clamp_between(x, work.left, right);
    let cy = clamp_between(y, work.top, bottom);
    let mut flags = TPM_NONOTIFY | TPM_RETURNCMD | TPM_RIGHTBUTTON;
    assert(TPM_NONOTIFY | TPM_RETURNCMD | TPM_RIGHTBUTTON == 0x182u32) by (bit_vector);
    if cy >= bottom {
        assert(0x182u32 | 0x20u32 == 0x1a2u32) by (bit_vector);
        flags = flags | TPM_BOTTOMALIGN;
    }
    if cx >= right {
        assert(0x182u32 | 0x8u32 == 0x18au32) by (bit_vector);
        assert(0x1a2u32 | 0x8u32 == 0x1aau32) by (bit_vector);
        flags = flags | TPM_RIGHTALIGN;
    }
    MenuPlacement { x: cx, y: cy, flags }
}

/// Where the shortcut field of the settings dialog goes.
pub fn hotkey_field_placement(field_left: i32, clear_top_left: Point, clear_bottom_right: Point) -> (p:
    Placement)
    requires
        i32::MIN <= clear_top_left.x - field_left <= i32::MAX,
        i32::MIN <= clear_top_left.x - field_left - 4 <= i32::MAX,
        i32::MIN <= clear_bottom_right.y - clear_top_left.y <= i32::MAX,
    ensures
        p == field_placement(field_left, clear_top_left, clear_bottom_right),
{
    Placement {
        x: field_left,
        y: clear_top_left.y,
        width: clear_top_left.x - field_left - 4,
        height: clear_bottom_right.y - clear_top_left.y,
    }
}

/// The menu opens inside the work area of its monitor.
pub proof fn lemma_menu_inside_work_area(x: i32, y: i32, work: ScreenRect)
    requires
        work.left < work.right,
        work.top < work.bottom,
    ensures
        ({
            let p = menu_placement_for(x, y, work);
            work.left <= p.x < work.right && work.top <= p.y < work.bottom
        }),
{
}

} // verus!
