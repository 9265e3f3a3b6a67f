//! PNG encode/decode of pixel buffers through the lodepng codec, with the
//! shape of every buffer that crosses the codec boundary checked.

pub mod codec;
pub mod native;
