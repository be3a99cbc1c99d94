//! Safe, verified builders for the records that a native multimedia and GPU
//! library consumes, and the decisions around its clipboard.
pub mod clipboard;
pub mod error;
pub mod gpu;
pub mod info_struct;
pub mod pixels;
