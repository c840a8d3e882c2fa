//! The thread engine: a worker performs an ordinary blocking lookup and hands
//! its result over a one-slot channel; the caller waits on the channel with
//! the bound.
use vstd::prelude::*;
use crate::error::ResolveError;
use crate::target::MAX_HOST_LEN;

verus! {

/// What the caller's bounded receive on the channel gave.
#[derive(Debug)]
pub enum Received<T> {
    /// The worker's result arrived within the bound.
    Value(T),
    /// The bound elapsed first.
    Timeout,
    /// The channel closed with nothing sent.
    Disconnected,
}

/// Decides whether a worker may be started for `host`: a name longer than
/// the worker's buffer is refused before any work.
pub fn fallback_admit(host: &str) -> (r: Result<(), ResolveError>)
    ensures
        host.len() > MAX_HOST_LEN ==> r == Err::<(), ResolveError>(
            ResolveError::InvalidInput,
        ),
        host.len() <= MAX_HOST_LEN ==> r == Ok::<(), ResolveError>(()),
{
    if host.len() > MAX_HOST_LEN {
        Err(ResolveError::InvalidInput)
    } else {
        Ok(())
    }
}

/// The outcome of a resolution on the thread engine, from what the receive
/// gave: the worker's own result, unchanged, when it came in time.
pub fn fallback_outcome<T>(received: Received<T>) -> (r: Result<T, ResolveError>)
    ensures
        received matches Received::Value(v) ==> r == Ok::<T, ResolveError>(v),
        received is Timeout ==> r == Err::<T, ResolveError>(ResolveError::TimedOut),
        received is Disconnected ==> r == Err::<T, ResolveError>(ResolveError::Unreachable),
{
    match received {
        Received::Value(v) => Ok(v),
        Received::Timeout => Err(ResolveError::TimedOut),
        Received::Disconnected => Err(ResolveError::Unreachable),
    }
}

} // verus!
