//! Viewport size, used only to compute the aspect ratio at draw time.

use vstd::prelude::*;
use crate::fixed::{div_trunc, mul_div, FX_ONE};

verus! {

/// Framebuffer size in pixels; both sides are positive.
pub struct ViewportSize {
    pub width: i32,
    pub height: i32,
}

impl ViewportSize {
    /// Both sides are positive.
    pub open spec fn wf(self) -> bool {
        self.width > 0 && self.height > 0
    }

    pub fn new(width: i32, height: i32) -> (v: ViewportSize)
        requires
            width > 0,
            height > 0,
        ensures
            v.width == width,
            v.height == height,
            v.wf(),
    {
        ViewportSize { width, height }
    }

    /// Record a resize event.
    pub fn set_size(&mut self, width: i32, height: i32)
        requires
            width > 0,
            height > 0,
        ensures
            final(self).width == width,
            final(self).height == height,
            final(self).wf(),
    {
        self.width = width;
        self.height = height;
    }

    /// Width over height in fixed point, truncated toward zero.
    pub fn aspect_ratio(&self) -> (r: i64)
        requires
            self.wf(),
        ensures
            r == div_trunc(self.width * FX_ONE, self.height as int),
            r >= 0,
    {
        proof {
            crate::fixed::lemma_div_trunc_fits_i64(
                self.width * FX_ONE,
                self.height as int,
            );
            crate::fixed::lemma_div_trunc_bounds(
                self.width * FX_ONE,
                self.height as int,
            );
        }
        mul_div(self.width as i64, FX_ONE, self.height as i64)
    }
}

} // verus!
