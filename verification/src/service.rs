//! What the client handle decides by itself, and what holds of the calls made on one
//! channel once the error layer has been applied to each.

use crate::error::{flattened, Delivered, Error, WireError};
use crate::readiness::Readiness;
use bincode::serde::DeserializeError;
use vstd::prelude::*;

verus! {

/// Whether the client takes another call now. It always does: holding calls back is
/// the channel's business, not the handle's.
pub fn poll_ready() -> (ready: Readiness<()>)
    ensures
        ready == Readiness::Ready(()),
{
    Readiness::Ready(())
}

/// The text by which a client handle shows itself. It is the same for every handle and
/// says nothing of the channel behind it.
pub fn handle_text() -> (text: &'static str)
    ensures
        text@ == "Client { .. }"@,
{
    "Client { .. }"
}

/// What the calls made on one channel resolve to: `delivered` holds, in the order of the
/// calls, what the channel delivers for each.
pub open spec fn resolutions<Resp, E>(delivered: Seq<Delivered<Resp, E>>) -> Seq<
    Result<Resp, Error<E>>,
> {
    Seq::new(delivered.len(), |k: int| flattened(delivered[k]))
}

/// The error layer keeps the order of the calls: there are as many resolutions as
/// deliveries, and the resolution in place `k` is the folded delivery in place `k`.
pub proof fn lemma_resolutions_keep_order<Resp, E>(delivered: Seq<Delivered<Resp, E>>, k: int)
    requires
        0 <= k < delivered.len(),
    ensures
        resolutions(delivered).len() == delivered.len(),
        resolutions(delivered)[k] == flattened(delivered[k]),
{
}

/// Calls made one run after another resolve to what each run resolves to by itself, the
/// earlier run first.
pub proof fn lemma_resolutions_of_consecutive_calls<Resp, E>(
    earlier: Seq<Delivered<Resp, E>>,
    later: Seq<Delivered<Resp, E>>,
)
    ensures
        resolutions(earlier + later) == resolutions(earlier) + resolutions(later),
{
    assert(resolutions(earlier + later) =~= resolutions(earlier) + resolutions(later));
}

/// A call resolves by its own delivery alone: where another delivery takes the place of
/// the one for call `k`, the resolution of call `k` follows it and every other
/// resolution stays as it was.
pub proof fn lemma_resolution_is_per_call<Resp, E>(
    delivered: Seq<Delivered<Resp, E>>,
    k: int,
    other: Delivered<Resp, E>,
)
    requires
        0 <= k < delivered.len(),
    ensures
        resolutions(delivered.update(k, other)) == resolutions(delivered).update(
            k,
            flattened(other),
        ),
{
    assert(resolutions(delivered.update(k, other)) =~= resolutions(delivered).update(
        k,
        flattened(other),
    ));
}

/// A response that cannot be decoded fails the call that waits for it, with the
/// decoder's error, and no other call.
pub proof fn lemma_decode_failure_reaches_its_call_alone<Resp, E>(
    delivered: Seq<Delivered<Resp, E>>,
    k: int,
    cause: DeserializeError,
)
    requires
        0 <= k < delivered.len(),
    ensures
        resolutions(delivered.update(k, Ok(Err(cause))))[k] == Err::<Resp, Error<E>>(
            Error::ClientDeserialize(cause),
        ),
        forall|j: int|
            0 <= j < delivered.len() && j != k ==> #[trigger] resolutions(
                delivered.update(k, Ok(Err(cause))),
            )[j] == resolutions(delivered)[j],
{
}

/// An application error that the server reports for call `k` fails call `k`, with that
/// error, and no other call.
pub proof fn lemma_application_error_reaches_its_call_alone<Resp, E>(
    delivered: Seq<Delivered<Resp, E>>,
    k: int,
    refusal: E,
)
    requires
        0 <= k < delivered.len(),
    ensures
        resolutions(delivered.update(k, Ok(Ok(Err(WireError::App(refusal))))))[k] == Err::<
            Resp,
            Error<E>,
        >(Error::App(refusal)),
        forall|j: int|
            0 <= j < delivered.len() && j != k ==> #[trigger] resolutions(
                delivered.update(k, Ok(Ok(Err(WireError::App(refusal))))),
            )[j] == resolutions(delivered)[j],
{
}

} // verus!
