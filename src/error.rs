//! The error surface of a resolution.
use vstd::prelude::*;

verus! {

/// Why a resolution produced no addresses.
#[derive(Clone, Copy, Debug, PartialEq, Eq, Structural)]
pub enum ResolveError {
    /// The target was malformed: no `:` before the port, a port that is not a
    /// 16-bit number, a NUL byte in the host name, or a host name too long.
    InvalidInput,
    /// The bound on the wait elapsed before a definitive result.
    TimedOut,
    /// The native resolver reported this status code.
    Resolver(i32),
    /// The native resolver reported a system error; this is the OS error value.
    Os(i32),
    /// A hand-off broke in a way correct operation never allows.
    Unreachable,
}

} // verus!
