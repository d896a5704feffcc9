//! The format-abstraction layer of an embroidery toolkit: the stitch and
//! pattern model, the error type that collects context on its way up, and the
//! contract between file formats and their callers.

pub mod errors;
pub mod format;
pub mod formats;
pub mod pattern;
pub mod stitch;
pub mod stream;
