//! Screen-capture bitmap library: region geometry, byte-exact bitmap header
//! serialization, capture-buffer assembly, JPEG transcoding, and a raw-parts
//! handle for passing buffers across an ABI boundary.

pub mod capture;
pub mod geometry;
pub mod handle;
pub mod headers;
pub mod transcode;
