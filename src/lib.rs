//! Builder layer for the server endpoint of a request/response service.
//!
//! A builder lives in a cell that is tagged with the locality of its service
//! (inter-process or intra-process). Configuration calls replace the value in
//! the cell by a new one of the same locality; the creation call consumes the
//! cell exactly once and yields either a server of the same locality or an
//! error code.
use vstd::prelude::*;

pub mod builder;
pub mod config;
pub mod error;

verus! {

/// The status code that signals success; every error code lies above it.
pub const IOX2_OK: i32 = 0;

} // verus!
