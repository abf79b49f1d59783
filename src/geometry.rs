//! Screen geometry: points, the tray icon's rectangle, and the anchor rule.
use vstd::prelude::*;

verus! {

/// A point on the screen, in physical pixels.
#[derive(Clone, Copy, Debug, PartialEq, Eq, Structural)]
pub struct Point {
    pub x: i64,
    pub y: i64,
}

/// The tray icon's rectangle on the screen, in physical pixels.
#[derive(Clone, Copy, Debug, PartialEq, Eq, Structural)]
pub struct TrayRect {
    pub x: i32,
    pub y: i32,
    pub width: u32,
    pub height: u32,
}

/// Where a window `window_width` pixels wide goes so that it sits
/// bottom-center on the tray icon: centred horizontally on the icon, its top
/// edge at the icon's top edge. Without the icon's geometry there is none.
pub open spec fn tray_bottom_center(tray: Option<TrayRect>, window_width: u32) -> Option<Point> {
    match tray {
        Some(r) => Some(
            Point {
                x: (r.x + r.width / 2 - window_width / 2) as i64,
                y: r.y as i64,
            },
        ),
        None => None,
    }
}

/// The anchor for a window of the given width next to the tray icon, or
/// `None` when the icon's geometry is unknown (the move is then skipped).
pub fn anchor_for(tray: Option<TrayRect>, window_width: u32) -> (r: Option<Point>)
    ensures
        r == tray_bottom_center(tray, window_width),
{
    match tray {
        Some(rect) => {
            let x: i64 = rect.x as i64 + (rect.width / 2) as i64 - (window_width / 2) as i64;
            Some(Point { x, y: rect.y as i64 })
        },
        None => None,
    }
}

} // verus!
