//! Loader and compatibility layer that runs a 64-bit Windows shader-compiler
//! image on a POSIX host: the verified parts that decide how the image is laid
//! out, relocated and bound, and the bookkeeping its shims rely on.

pub mod bytes;
pub mod imports;
pub mod image;
pub mod target;
pub mod flags;
pub mod error;
pub mod blob;
pub mod headers;
pub mod reflect;
pub mod outcome;
pub mod handles;
pub mod module;
pub mod bridge;
pub mod printf;
pub mod crypto;
pub mod shims;
pub mod report;
