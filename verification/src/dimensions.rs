//! Target frame size of a transcoding job.

use vstd::prelude::*;

verus! {

/// Width and height of a video frame, in pixels.
#[derive(Debug, Clone, Copy, PartialEq, Eq, Structural)]
pub struct Dimensions {
    width: u32,
    height: u32,
}

impl Dimensions {
    /// The frame width in pixels, for use in contracts.
    pub closed spec fn spec_width(&self) -> u32 {
        self.width
    }

    /// The frame height in pixels, for use in contracts.
    pub closed spec fn spec_height(&self) -> u32 {
        self.height
    }

    /// Two frame sizes of the same width and the same height are the same.
    pub proof fn lemma_equal_sides(self, other: Dimensions)
        requires
            self.spec_width() == other.spec_width(),
            self.spec_height() == other.spec_height(),
        ensures
            self == other,
    {
    }

    /// Builds a frame size from its width and height.
    pub fn new(width: u32, height: u32) -> (dimensions: Dimensions)
        ensures
            dimensions.spec_width() == width,
            dimensions.spec_height() == height,
    {
        Dimensions { width, height }
    }

    /// Returns the frame width in pixels.
    #[verifier::when_used_as_spec(spec_width)]
    pub fn width(&self) -> (width: u32)
        ensures
            width == self.spec_width(),
    {
        self.width
    }

    /// Returns the frame height in pixels.
    #[verifier::when_used_as_spec(spec_height)]
    pub fn height(&self) -> (height: u32)
        ensures
            height == self.spec_height(),
    {
        self.height
    }
}

} // verus!
