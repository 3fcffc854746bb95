//! Initial window placement: an explicit rectangle, or the platform's
//! default-placement sentinel when absent.

use vstd::prelude::*;

verus! {

/// The sentinel value the host windowing subsystem understands as "pick a
/// default" for a position or size field (`CW_USEDEFAULT`, the minimum
/// signed 32-bit value).
pub const CW_USEDEFAULT: i32 = -2147483648;

/// A requested window rectangle: position `(x, y)` and extent
/// `(width, height)`, in host screen coordinates.  Negative extents are
/// not rejected here; the host defines their effect.
#[derive(Clone, Copy, Debug, PartialEq, Eq, Structural)]
pub struct WinRect {
    pub x: i32,
    pub y: i32,
    pub width: i32,
    pub height: i32,
}

impl WinRect {
    /// Builds the rectangle with exactly the four given fields.
    pub fn new(x: i32, y: i32, width: i32, height: i32) -> (r: Self)
        ensures
            r == (WinRect { x, y, width, height }),
    {
        WinRect { x, y, width, height }
    }

    /// Builds an explicit placement, ready to hand to window creation.
    pub fn some(x: i32, y: i32, width: i32, height: i32) -> (r: Option<Self>)
        ensures
            r == Some((WinRect { x, y, width, height })),
    {
        Some(WinRect { x, y, width, height })
    }
}

/// Resolves an optional placement to the four values handed to window
/// creation: the rectangle's own fields when one is given, and the
/// default sentinel for all four fields at once when none is.
pub fn resolve_placement(placement: Option<WinRect>) -> (b: (i32, i32, i32, i32))
    ensures
        placement matches Some(p) ==> b == (p.x, p.y, p.width, p.height),
        placement is None ==> b == (CW_USEDEFAULT, CW_USEDEFAULT, CW_USEDEFAULT, CW_USEDEFAULT),
{
    match placement {
        Some(p) => (p.x, p.y, p.width, p.height),
        None => (CW_USEDEFAULT, CW_USEDEFAULT, CW_USEDEFAULT, CW_USEDEFAULT),
    }
}

} // verus!
