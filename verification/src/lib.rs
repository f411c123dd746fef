//! An image container with a PNG codec boundary: an in-memory pixel buffer
//! tagged with a pixel format, decoded from and encoded to PNG byte streams.

pub mod codec;
pub mod image;
