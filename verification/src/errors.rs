//! The pipeline's error taxonomy: both kinds are fatal at startup, since the
//! pipeline assumes a fixed, known-good target configuration and performs no
//! retry or degraded-mode fallback.

use vstd::prelude::*;

verus! {

/// The device refused to create a resource (for example, an unsupported
/// texture size). Raised before any partial resource is recorded.
#[derive(Clone, Copy, Debug, PartialEq, Eq, Structural)]
pub struct ResourceAllocationError;

/// A decoded raster image does not describe a well-formed RGBA pixel buffer
/// (zero dimensions, or a byte length that disagrees with them).
#[derive(Clone, Copy, Debug, PartialEq, Eq, Structural)]
pub struct ImageDecodeError;

} // verus!
