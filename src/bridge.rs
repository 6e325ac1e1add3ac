use vstd::prelude::*;

verus! {

/// Why a worker could not hand back the result of the blocking call it
/// was given. This is distinct from any error that the call itself returns.
#[derive(Clone, Copy, Debug, PartialEq, Eq, Structural)]
pub enum BridgeFailure {
    /// The worker panicked while running the call.
    Panicked,
    /// The task was dropped before it ran to completion.
    Cancelled,
}

/// What a caller receives for one single-device command.
#[derive(Debug)]
pub enum Reply<T, E> {
    /// The device answered; the payload is the client's value, untouched.
    Done(T),
    /// The device, or the client on its behalf, reported an error.
    Failed(E),
    /// The worker pool could not run the call; the request is lost.
    Fatal(BridgeFailure),
}

impl<T, E> Reply<T, E> {
    /// True for the one outcome that the caller cannot recover from.
    pub fn is_fatal(&self) -> (r: bool)
        ensures
            r == (self is Fatal),
    {
        match self {
            Reply::Fatal(_) => true,
            _ => false,
        }
    }
}

/// Turns what the worker handed back into the caller's reply: the client's
/// value passes through unchanged, its error keeps its classification, and
/// a worker failure is reported as fatal rather than as either of those.
pub fn settle<T, E>(joined: Result<Result<T, E>, BridgeFailure>) -> (r: Reply<T, E>)
    ensures
        joined matches Ok(Ok(v)) ==> r == Reply::<T, E>::Done(v),
        joined matches Ok(Err(e)) ==> r == Reply::<T, E>::Failed(e),
        joined matches Err(f) ==> r == Reply::<T, E>::Fatal(f),
{
    match joined {
        Ok(Ok(v)) => Reply::Done(v),
        Ok(Err(e)) => Reply::Failed(e),
        Err(f) => Reply::Fatal(f),
    }
}

} // verus!
