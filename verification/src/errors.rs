use vstd::prelude::*;

verus! {

/// The failure kinds of the pipeline.
///
/// Every failure is fatal: the run stops at the first one, and the
/// operator sees which stage gave up. The presentation layer adds the
/// offending path where it knows one; the kinds themselves carry none.
#[derive(Clone, Copy, PartialEq, Eq, Structural, Debug)]
pub enum GifError {
    /// The source directory could not be opened or iterated.
    DirectoryRead,
    /// The directory holds no eligible source image.
    NoInput,
    /// A source image could not be decoded.
    ImageDecode,
    /// The target dimensions are degenerate or not representable
    /// in the container's 16-bit size fields.
    Resize,
    /// The output file could not be created.
    OutputCreate,
    /// The container encoder session could not be started.
    EncoderInit,
    /// A frame record could not be written.
    FrameWrite,
}

} // verus!
