//! Host resolution with a bounded wait.
//!
//! The library holds the decisions of a resolver whose waits are bounded:
//! how a target string splits into host and port, how raw socket-address
//! records are decoded, how the caller's port is put on every address, and
//! the step functions of the three resolution engines. The native calls that
//! perform the work are made by the surrounding program.
use vstd::prelude::*;

pub mod addr;
pub mod codec;
pub mod error;
pub mod fallback;
pub mod gai;
pub mod laws;
pub mod lookup;
pub mod overlapped;
pub mod target;

verus! {

} // verus!
