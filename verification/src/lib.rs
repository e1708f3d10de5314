//! Turns an ordered set of still images into one looping animated
//! container file: the enumerator picks and orders the sources, the
//! resolver fixes the canvas from the first of them, the normalizer
//! stretches every image to that canvas, and the encoder streams the
//! frames out with a uniform delay and infinite repeat.

pub mod codec;
pub mod encoder;
pub mod errors;
pub mod frames;
pub mod normalize;
pub mod pipeline;
pub mod sources;
