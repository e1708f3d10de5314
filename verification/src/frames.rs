use vstd::prelude::*;

verus! {

/// The fixed output dimensions shared by every frame of the animation.
///
/// Both axes fit the container format's 16-bit size fields, and a
/// well-formed canvas has no zero axis.
#[derive(Clone, Copy, PartialEq, Eq, Structural, Debug)]
pub struct Canvas {
    pub width: u16,
    pub height: u16,
}

impl Canvas {
    /// A canvas is well formed when neither axis is zero.
    pub open spec fn wf(self) -> bool {
        self.width > 0 && self.height > 0
    }
}

/// One normalized frame: a canvas-sized pixel buffer in row-major
/// RGB order, 8 bits per channel, plus its display delay in
/// hundredths of a second.
pub struct Frame {
    pub width: u16,
    pub height: u16,
    pub delay: u16,
    pub pixels: Vec<u8>,
}

impl Frame {
    /// The pixel buffer holds exactly three bytes per pixel.
    pub open spec fn wf(self) -> bool {
        self.pixels@.len() == 3 * self.width * self.height
    }

    /// The frame's dimensions equal the canvas exactly.
    pub open spec fn fits(self, canvas: Canvas) -> bool {
        self.width == canvas.width && self.height == canvas.height
    }
}

} // verus!
