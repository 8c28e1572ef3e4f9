use vstd::prelude::*;

verus! {

/// Size in pixels of the surface that the particles are drawn on. Neither
/// side is ever zero, so the aspect ratio and the cursor's normalised
/// coordinates are always defined.
pub struct SurfaceSize {
    width: u32,
    height: u32,
}

impl View for SurfaceSize {
    type V = (u32, u32);

    closed spec fn view(&self) -> (u32, u32) {
        (self.width, self.height)
    }
}

/// A window side as the surface takes it at start: at least one pixel.
pub open spec fn at_least_one(side: u32) -> u32 {
    if side == 0 { 1 } else { side }
}

/// A nonzero side is kept as it is; only a zero side is raised, to one pixel.
pub proof fn lemma_side_kept_unless_zero(side: u32)
    ensures
        side != 0 ==> at_least_one(side) == side,
        side == 0 ==> at_least_one(side) == 1,
        at_least_one(side) >= 1,
        at_least_one(side) >= side,
{
}

impl SurfaceSize {
    #[verifier::type_invariant]
    spec fn sides_positive(self) -> bool {
        self.width >= 1 && self.height >= 1
    }

    /// The surface for a window of `width` by `height` pixels; a zero side
    /// becomes one pixel.
    pub fn new(width: u32, height: u32) -> (r: Self)
        ensures
            r@ == (at_least_one(width), at_least_one(height)),
            width != 0 ==> r@.0 == width,
            height != 0 ==> r@.1 == height,
            width == 0 ==> r@.0 == 1,
            height == 0 ==> r@.1 == 1,
            r@.0 >= 1,
            r@.1 >= 1,
    {
        SurfaceSize { width: if width == 0 { 1 } else { width }, height: if height == 0 { 1 } else { height } }
    }

    /// Takes the window's new size; a size with a zero side (a minimised
    /// window) is ignored. Returns whether the size was taken, that is,
    /// whether the surface has to be configured anew.
    pub fn resize(&mut self, width: u32, height: u32) -> (taken: bool)
        ensures
            taken == (width != 0 && height != 0),
            taken ==> final(self)@ == (width, height),
            !taken ==> final(self)@ == old(self)@,
            final(self)@.0 >= 1,
            final(self)@.1 >= 1,
    {
        proof {
            use_type_invariant(&*self);
        }
        if width == 0 || height == 0 {
            return false;
        }
        self.width = width;
        self.height = height;
        true
    }

    /// Width in pixels.
    pub fn width(&self) -> (r: u32)
        ensures
            r == self@.0,
            r >= 1,
    {
        proof {
            use_type_invariant(self);
        }
        self.width
    }

    /// Height in pixels.
    pub fn height(&self) -> (r: u32)
        ensures
            r == self@.1,
            r >= 1,
    {
        proof {
            use_type_invariant(self);
        }
        self.height
    }
}

} // verus!
