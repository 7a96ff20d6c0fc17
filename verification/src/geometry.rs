use vstd::prelude::*;

verus! {

/// A bounds rectangle in the host window system's coordinate space.
#[derive(Clone, Copy, PartialEq, Eq, Structural, Debug)]
pub struct Rect {
    pub left: i32,
    pub top: i32,
    pub right: i32,
    pub bottom: i32,
}

/// The rectangle synthesized from the frame's last-known logical position and
/// size, used when the native client-area query failed.
pub open spec fn fallback_rect(position: (i32, i32), size: (i32, i32)) -> Rect {
    Rect { left: position.0, top: position.1, right: size.0, bottom: size.1 }
}

/// The bounds the geometry synchronizer applies to the embedded control:
/// the queried client-area rectangle when the query succeeded, otherwise the
/// fallback synthesized from the frame's tracked position and size.
pub open spec fn aligned_rect(client_rect: Option<Rect>, position: (i32, i32), size: (i32, i32)) -> Rect {
    match client_rect {
        Option::Some(rect) => rect,
        Option::None => fallback_rect(position, size),
    }
}

/// Geometry synchronizer. `client_rect` is the container frame's current
/// client-area rectangle as reported by the host window system, or `None`
/// when that query failed; `position` and `size` are the frame's last-known
/// logical position and size. Returns the rectangle to apply to the embedded
/// control's bounds: a failed query is not fatal, it falls back to the
/// tracked position and size.
pub fn align_webview_2_container(client_rect: Option<Rect>, position: (i32, i32), size: (i32, i32)) -> (r: Rect)
    ensures
        r == aligned_rect(client_rect, position, size),
{
    match client_rect {
        Some(rect) => rect,
        None => Rect { left: position.0, top: position.1, right: size.0, bottom: size.1 },
    }
}

} // verus!
