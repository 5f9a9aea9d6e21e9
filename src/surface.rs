//! Size of the presentation surface and how resize requests change it.
use vstd::prelude::*;

verus! {

/// Surface extent in physical pixels; both sides are at least one.
#[derive(Clone, Copy, Debug, PartialEq, Eq, Structural)]
pub struct SurfaceSize {
    pub width: u32,
    pub height: u32,
}

impl SurfaceSize {
    pub open spec fn wf(self) -> bool {
        self.width > 0 && self.height > 0
    }

    /// The size a surface is first configured with: a side reported as
    /// zero (a minimised window) is raised to one.
    pub fn initial(width: u32, height: u32) -> (r: SurfaceSize)
        ensures
            r.wf(),
            r.width == if width == 0 { 1 } else { width },
            r.height == if height == 0 { 1 } else { height },
    {
        SurfaceSize {
            width: if width == 0 { 1 } else { width },
            height: if height == 0 { 1 } else { height },
        }
    }

    /// A resize request. It is taken, and the surface and depth target must
    /// then be recreated, only when both sides are positive; otherwise the
    /// size stays as it was.
    pub fn accept_resize(&mut self, width: u32, height: u32) -> (r: bool)
        ensures
            r == (width > 0 && height > 0),
            r ==> *final(self) == (SurfaceSize { width, height }),
            !r ==> *final(self) == *old(self),
            old(self).wf() ==> final(self).wf(),
    {
        if width > 0 && height > 0 {
            self.width = width;
            self.height = height;
            true
        } else {
            false
        }
    }
}

} // verus!
