//! The control side of the per-track codec: what an encoder and a decoder
//! are set up with, which frames they take, and what they count. The codec
//! itself runs outside this crate; its results are handed in.

pub mod decoder;
pub mod encoder;

pub use decoder::OpusDecoder;
pub use encoder::OpusEncoder;
