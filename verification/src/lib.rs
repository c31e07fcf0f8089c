use vstd::prelude::*;

pub mod digits;
pub mod handler;
pub mod model;
pub mod photos;
pub mod record;
pub mod urls;

verus! {

/// Widths of photo renditions that are retained for processing.
pub open spec fn width_allowed(w: int) -> bool {
    w == 450 || w == 600 || w == 800
}

pub fn is_width_allowed(w: i64) -> (r: bool)
    ensures
        r == width_allowed(w as int),
{
    w == 450 || w == 600 || w == 800
}

} // verus!
