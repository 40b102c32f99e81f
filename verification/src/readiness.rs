//! Whether an awaited value has arrived, and what a poll of the connect future reports.

use vstd::prelude::*;

verus! {

/// The answer to a poll: the value, or word that it has not arrived yet.
#[derive(Debug)]
pub enum Readiness<T> {
    /// The value is there.
    Ready(T),
    /// The value is not there yet; poll again later.
    NotReady,
}

/// What a poll finds on the reading side of a one-shot hand-off.
#[derive(Debug)]
pub enum Handoff<T> {
    /// The writer holds its side and has not written yet.
    Pending,
    /// The writer has written this value.
    Resolved(T),
    /// The writer has gone without writing.
    Abandoned,
}

/// What a poll of the connect future reports for what it found on the one-shot.
pub open spec fn settled<C>(found: Handoff<Result<C, std::io::Error>>) -> Result<
    Readiness<C>,
    std::io::Error,
>
    recommends
        !(found is Abandoned),
{
    match found {
        Handoff::Pending => Ok(Readiness::NotReady),
        Handoff::Resolved(Ok(client)) => Ok(Readiness::Ready(client)),
        Handoff::Resolved(Err(cause)) => Err(cause),
        Handoff::Abandoned => arbitrary(),
    }
}

/// Turns what was found on the one-shot into the answer of the connect future's poll:
/// not ready while nothing was written, then the client or the connection error, with
/// the two layers of results folded into one.
///
/// The writer resolves the one-shot on every path, so a reader never finds it
/// abandoned; that case is left out.
pub fn settle<C>(found: Handoff<Result<C, std::io::Error>>) -> (polled: Result<
    Readiness<C>,
    std::io::Error,
>)
    requires
        !(found is Abandoned),
    ensures
        polled == settled(found),
        polled matches Ok(Readiness::NotReady) <==> found is Pending,
        polled matches Ok(Readiness::Ready(_)) <==> found matches Handoff::Resolved(Ok(_)),
        polled is Err <==> found matches Handoff::Resolved(Err(_)),
{
    match found {
        Handoff::Pending => Ok(Readiness::NotReady),
        Handoff::Resolved(Ok(client)) => Ok(Readiness::Ready(client)),
        Handoff::Resolved(Err(cause)) => Err(cause),
        Handoff::Abandoned => unreached(),
    }
}

} // verus!
