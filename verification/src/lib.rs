//! Recolours the frames of an animation with a gradient that changes over time.
//!
//! The crate holds the gradient engine, the blending policies, the palette and
//! frame model, and the decoders and encoder that carry frames in and out of
//! their container formats.
pub mod buffer;
pub mod codec;
pub mod color;
pub mod commandline;
pub mod file;
pub mod mixing;
