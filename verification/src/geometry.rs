use vstd::prelude::*;

verus! {

/// A physical window or surface size, in pixels.
#[derive(Clone, Copy, Debug, PartialEq, Eq, Structural)]
pub struct Extent {
    pub width: u32,
    pub height: u32,
}

impl Extent {
    /// Both dimensions are positive: the only sizes a surface may be
    /// configured with.
    pub open spec fn is_positive(self) -> bool {
        self.width > 0 && self.height > 0
    }

    pub fn new(width: u32, height: u32) -> (r: Extent)
        ensures
            r.width == width,
            r.height == height,
    {
        Extent { width, height }
    }
}

/// The size that a resize request leaves in place: a request with a zero
/// dimension is ignored (this happens while a window is minimized), any
/// other request is applied exactly.
pub open spec fn resized(current: Extent, request: Extent) -> Extent {
    if request.width > 0 && request.height > 0 {
        request
    } else {
        current
    }
}

/// Apply a resize request to the current size.
pub fn apply_resize(current: Extent, request: Extent) -> (r: Extent)
    ensures
        r == resized(current, request),
        request.width == 0 || request.height == 0 ==> r == current,
        request.is_positive() ==> r == request,
{
    if request.width > 0 && request.height > 0 {
        request
    } else {
        current
    }
}

} // verus!
