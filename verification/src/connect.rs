//! Establishing a connection: which of the resolved addresses is dialled, and the steps
//! by which the work on the reactor's thread arrives at the one resolution of the
//! one-shot that the connect future reads.

use crate::outside::{io_error, io_error_kind};
use crate::readiness::{settled, Handoff, Readiness};
use std::io::ErrorKind;
use vstd::prelude::*;

verus! {

/// The message of the error that reports an empty resolution.
pub const EMPTY_RESOLUTION: &'static str =
    "`ToSocketAddrs::to_socket_addrs` returned an empty iterator.";

/// Picks the address to dial from what the resolver returned.
///
/// A failed resolution is handed on as it is. A resolution without addresses fails at
/// once with an error of the kind `AddrNotAvailable`. Otherwise the first address is
/// taken, however many follow it. Whenever the result is an error, nothing is to be
/// dialled.
pub fn select_address<A>(resolution: Result<Vec<A>, std::io::Error>) -> (selected: Result<
    A,
    std::io::Error,
>)
    ensures
        selected is Ok <==> resolution is Ok && resolution->Ok_0@.len() > 0,
        selected is Ok ==> selected->Ok_0 == resolution->Ok_0@[0],
        resolution is Err ==> selected is Err && selected->Err_0 == resolution->Err_0,
        resolution is Ok && resolution->Ok_0@.len() == 0 ==> selected is Err && io_error_kind(
            selected->Err_0,
        ) == ErrorKind::AddrNotAvailable,
{
    match resolution {
        Ok(mut addresses) => {
            if addresses.len() == 0 {
                Err(io_error(ErrorKind::AddrNotAvailable, EMPTY_RESOLUTION))
            } else {
                Ok(addresses.swap_remove(0))
            }
        },
        Err(cause) => Err(cause),
    }
}

/// How far the work of establishing one connection has come.
#[derive(Debug, Clone, Copy, PartialEq, Eq, Structural)]
pub enum Phase {
    /// The transport connection is being opened.
    Opening,
    /// The connection is open; the channel is being built on it.
    Binding,
    /// The one-shot has been resolved. Nothing follows.
    Resolved,
}

/// What the outside work reports back.
#[derive(Debug)]
pub enum Event<T, C> {
    /// Opening the transport connection ended: with the connection, or with the reason
    /// why there is none.
    Opened(Result<T, std::io::Error>),
    /// Building the channel ended: with the client that wraps it, or with the reason
    /// why there is none.
    Bound(Result<C, std::io::Error>),
}

/// What is to be done next.
#[derive(Debug)]
pub enum Command<T, C> {
    /// Frame this connection, build the channel on it and wrap the channel in a client.
    Bind(T),
    /// Resolve the one-shot with this.
    Resolve(Result<C, std::io::Error>),
}

/// Whether `event` is the one that the work waits for in `phase`.
pub open spec fn awaits<T, C>(phase: Phase, event: Event<T, C>) -> bool {
    match event {
        Event::Opened(_) => phase == Phase::Opening,
        Event::Bound(_) => phase == Phase::Binding,
    }
}

/// The phase that follows and the command that is given when `event` arrives in its
/// turn.
pub open spec fn stepped<T, C>(event: Event<T, C>) -> (Phase, Command<T, C>) {
    match event {
        Event::Opened(Ok(transport)) => (Phase::Binding, Command::Bind(transport)),
        Event::Opened(Err(cause)) => (Phase::Resolved, Command::Resolve(Err(cause))),
        Event::Bound(outcome) => (Phase::Resolved, Command::Resolve(outcome)),
    }
}

/// Takes one step: for the event that the phase waits for, the next phase and the
/// command; for any other event, nothing.
///
/// A connection that opened is bound. A failure, of opening or of binding, resolves the
/// one-shot with that failure; a client resolves it with the client.
pub fn step<T, C>(phase: Phase, event: Event<T, C>) -> (next: Option<(Phase, Command<T, C>)>)
    ensures
        next is Some <==> awaits(phase, event),
        next matches Some(taken) ==> taken == stepped(event),
{
    match event {
        Event::Opened(outcome) => {
            if phase == Phase::Opening {
                match outcome {
                    Ok(transport) => Some((Phase::Binding, Command::Bind(transport))),
                    Err(cause) => Some((Phase::Resolved, Command::Resolve(Err(cause)))),
                }
            } else {
                None
            }
        },
        Event::Bound(outcome) => {
            if phase == Phase::Binding {
                Some((Phase::Resolved, Command::Resolve(outcome)))
            } else {
                None
            }
        },
    }
}

/// Does the work that follows the attempt to open the transport connection, step by
/// step, and returns what the one-shot is to be resolved with.
///
/// `bind` frames an open connection, builds the channel on it and wraps the channel in
/// a client. It is called only where the connection opened, and then once. Every path
/// ends in a resolution: the failure to open, or whatever `bind` returned.
pub fn establish<T, C, B>(opened: Result<T, std::io::Error>, bind: B) -> (resolution: Result<
    C,
    std::io::Error,
>) where B: FnOnce(T) -> Result<C, std::io::Error>
    requires
        forall|transport: T| call_requires(bind, (transport,)),
    ensures
        opened is Err ==> resolution is Err && resolution->Err_0 == opened->Err_0,
        opened is Ok ==> call_ensures(bind, (opened->Ok_0,), resolution),
{
    match step::<T, C>(Phase::Opening, Event::Opened(opened)) {
        Some((phase, Command::Bind(transport))) => {
            let bound = bind(transport);
            match step::<T, C>(phase, Event::Bound(bound)) {
                Some((_, Command::Resolve(resolution))) => resolution,
                _ => unreached(),
            }
        },
        Some((_, Command::Resolve(resolution))) => resolution,
        None => unreached(),
    }
}

/// Whether the events of `events` arrive each in its turn, the first of them in `phase`.
pub open spec fn in_turn<T, C>(phase: Phase, events: Seq<Event<T, C>>) -> bool
    decreases events.len(),
{
    events.len() > 0 ==> awaits(phase, events[0]) && in_turn(
        stepped(events[0]).0,
        events.drop_first(),
    )
}

/// The phase that is reached from `phase` once the events of `events` have been taken.
pub open spec fn phase_after<T, C>(phase: Phase, events: Seq<Event<T, C>>) -> Phase
    decreases events.len(),
{
    if events.len() == 0 {
        phase
    } else {
        phase_after(stepped(events[0]).0, events.drop_first())
    }
}

/// The commands that are given for the events of `events`, in their order.
pub open spec fn commands<T, C>(events: Seq<Event<T, C>>) -> Seq<Command<T, C>> {
    Seq::new(events.len(), |i: int| stepped(events[i]).1)
}

/// The one-shot is resolved at most once for a connection, and exactly once when the
/// work is done: of the commands given for events that arrive in their turn, only the
/// last can be a resolution, and it is one exactly if the last phase is `Resolved`.
/// No such run has more than two events.
pub proof fn lemma_resolved_exactly_once<T, C>(events: Seq<Event<T, C>>)
    requires
        in_turn(Phase::Opening, events),
    ensures
        events.len() <= 2,
        forall|i: int|
            0 <= i < events.len() - 1 ==> !(#[trigger] commands(events)[i] is Resolve),
        phase_after(Phase::Opening, events) == Phase::Resolved <==> events.len() > 0
            && commands(events).last() is Resolve,
{
    reveal_with_fuel(in_turn, 4);
    reveal_with_fuel(phase_after, 4);
    if events.len() > 1 {
        let rest = events.drop_first();
        assert(rest[0] == events[1]);
        if events.len() > 2 {
            assert(rest.drop_first()[0] == events[2]);
        } else {
            assert(rest.drop_first().len() == 0);
        }
    } else if events.len() == 1 {
        assert(events.drop_first().len() == 0);
    }
}

/// Once the one-shot is resolved, no event is waited for: nothing can resolve it again.
pub proof fn lemma_nothing_follows_resolution<T, C>(event: Event<T, C>)
    ensures
        !awaits(Phase::Resolved, event),
{
}

/// Until the one-shot is resolved, the work waits for what the outside work reports
/// next, whatever that is, and the step taken for it comes nearer to the resolution:
/// from `Opening` to `Binding` or `Resolved`, from `Binding` to `Resolved`.
pub proof fn lemma_always_on_the_way_to_resolution<T, C>(
    opened: Result<T, std::io::Error>,
    bound: Result<C, std::io::Error>,
)
    ensures
        awaits(Phase::Opening, Event::<T, C>::Opened(opened)),
        stepped(Event::<T, C>::Opened(opened)).0 != Phase::Opening,
        awaits(Phase::Binding, Event::<T, C>::Bound(bound)),
        stepped(Event::<T, C>::Bound(bound)).0 == Phase::Resolved,
{
}

/// A failure resolves the one-shot with that failure, at whichever step it occurs: a
/// connection that cannot be opened is not bound, and no failure is passed over.
pub proof fn lemma_failure_resolves<T, C>(cause: std::io::Error)
    ensures
        stepped(Event::<T, C>::Opened(Err(cause))) == (
            Phase::Resolved,
            Command::<T, C>::Resolve(Err(cause)),
        ),
        stepped(Event::<T, C>::Bound(Err(cause))) == (
            Phase::Resolved,
            Command::<T, C>::Resolve(Err(cause)),
        ),
{
}

/// What the connect future reports once the work is done: the client where the
/// connection opened and was bound, else the first failure, of opening or of binding.
pub proof fn lemma_future_reports_client_or_first_failure<T, C>(events: Seq<Event<T, C>>)
    requires
        in_turn(Phase::Opening, events),
        phase_after(Phase::Opening, events) == Phase::Resolved,
    ensures
        events.len() > 0,
        commands(events).last() is Resolve,
        events[0] matches Event::Opened(Err(cause)) ==> events.len() == 1 && settled(
            Handoff::Resolved(commands(events).last()->Resolve_0),
        ) == Err::<Readiness<C>, std::io::Error>(cause),
        events[0] matches Event::Opened(Ok(_)) ==> events.len() == 2 && events[1] is Bound,
        events.len() == 2 ==> (events[1] matches Event::Bound(Ok(client)) ==> settled(
            Handoff::Resolved(commands(events).last()->Resolve_0),
        ) == Ok::<Readiness<C>, std::io::Error>(Readiness::Ready(client))),
        events.len() == 2 ==> (events[1] matches Event::Bound(Err(cause)) ==> settled(
            Handoff::Resolved(commands(events).last()->Resolve_0),
        ) == Err::<Readiness<C>, std::io::Error>(cause)),
{
    lemma_resolved_exactly_once(events);
    reveal_with_fuel(in_turn, 4);
    reveal_with_fuel(phase_after, 4);
    if events.len() > 1 {
        let rest = events.drop_first();
        assert(rest[0] == events[1]);
        assert(rest.drop_first().len() == 0);
    } else {
        assert(events.drop_first().len() == 0);
    }
}

} // verus!
