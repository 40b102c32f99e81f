//! The error layer: one flat error type for every way in which a call can fail, and the
//! rules that fold the nested outcome of a call into it.

use bincode::serde::DeserializeError;
use vstd::prelude::*;
use vstd::std_specs::convert::FromSpecImpl;

verus! {

/// A failure that the server reports inside a response.
#[derive(Debug)]
pub enum WireError<E> {
    /// The server could not decode the request. The text is the server's account of it.
    ServerDeserialize(String),
    /// The server's application code refused the request.
    App(E),
}

/// Every way in which a call can fail, as the caller sees it.
#[derive(Debug)]
pub enum Error<E> {
    /// The transport failed.
    Io(std::io::Error),
    /// The response arrived and could not be decoded here.
    ClientDeserialize(DeserializeError),
    /// The server reported that it could not decode the request.
    ServerDeserialize(String),
    /// The server's application code refused the request.
    App(E),
}

/// A response as the decoder hands it over: decoded, or the reason why it could not be.
pub type Decoded<Resp, E> = Result<Result<Resp, WireError<E>>, DeserializeError>;

/// The outcome of a call as the channel delivers it: a decoder's result, or the reason
/// why the transport delivered none.
pub type Delivered<Resp, E> = Result<Decoded<Resp, E>, std::io::Error>;

impl<E> From<WireError<E>> for Error<E> {
    fn from(wire: WireError<E>) -> (error: Error<E>) {
        match wire {
            WireError::ServerDeserialize(account) => Error::ServerDeserialize(account),
            WireError::App(refusal) => Error::App(refusal),
        }
    }
}

impl<E> FromSpecImpl<WireError<E>> for Error<E> {
    open spec fn obeys_from_spec() -> bool {
        true
    }

    open spec fn from_spec(wire: WireError<E>) -> Error<E> {
        match wire {
            WireError::ServerDeserialize(account) => Error::ServerDeserialize(account),
            WireError::App(refusal) => Error::App(refusal),
        }
    }
}

impl<E> From<std::io::Error> for Error<E> {
    fn from(cause: std::io::Error) -> (error: Error<E>) {
        Error::Io(cause)
    }
}

impl<E> FromSpecImpl<std::io::Error> for Error<E> {
    open spec fn obeys_from_spec() -> bool {
        true
    }

    open spec fn from_spec(cause: std::io::Error) -> Error<E> {
        Error::Io(cause)
    }
}

/// What a decoder's result comes to once the two layers below the transport are folded.
pub open spec fn flattened_response<Resp, E>(decoded: Decoded<Resp, E>) -> Result<Resp, Error<E>> {
    match decoded {
        Ok(Ok(response)) => Ok(response),
        Ok(Err(WireError::ServerDeserialize(account))) => Err(Error::ServerDeserialize(account)),
        Ok(Err(WireError::App(refusal))) => Err(Error::App(refusal)),
        Err(cause) => Err(Error::ClientDeserialize(cause)),
    }
}

/// What the outcome of a call comes to once all three layers are folded.
pub open spec fn flattened<Resp, E>(delivered: Delivered<Resp, E>) -> Result<Resp, Error<E>> {
    match delivered {
        Ok(decoded) => flattened_response(decoded),
        Err(cause) => Err(Error::Io(cause)),
    }
}

/// Folds a decoder's result: the response where there is one, else the error that says
/// which side failed to decode, or that the application refused.
pub fn flatten_response<Resp, E>(decoded: Decoded<Resp, E>) -> (result: Result<Resp, Error<E>>)
    ensures
        result == flattened_response(decoded),
        result is Ok <==> decoded matches Ok(Ok(_)),
        result matches Err(Error::ClientDeserialize(_)) <==> decoded is Err,
        !(result matches Err(Error::Io(_))),
{
    match decoded {
        Ok(Ok(response)) => Ok(response),
        Ok(Err(wire)) => Err(Error::from(wire)),
        Err(cause) => Err(Error::ClientDeserialize(cause)),
    }
}

/// Folds the outcome of a call, transport included, into what the caller sees.
pub fn flatten<Resp, E>(delivered: Delivered<Resp, E>) -> (result: Result<Resp, Error<E>>)
    ensures
        result == flattened(delivered),
        result is Ok <==> delivered matches Ok(Ok(Ok(_))),
        result matches Err(Error::Io(_)) <==> delivered is Err,
        result matches Err(Error::ClientDeserialize(_)) <==> delivered matches Ok(Err(_)),
        result matches Err(Error::ServerDeserialize(_)) <==> delivered matches Ok(
            Ok(Err(WireError::ServerDeserialize(_))),
        ),
        result matches Err(Error::App(_)) <==> delivered matches Ok(Ok(Err(WireError::App(_)))),
{
    match delivered {
        Ok(decoded) => flatten_response(decoded),
        Err(cause) => Err(Error::from(cause)),
    }
}

/// A failure that the server reports surfaces as its conversion, neither more nor less:
/// folding keeps the variant and what it carries.
pub proof fn lemma_wire_error_surfaces_converted<Resp, E>(wire: WireError<E>)
    ensures
        flattened::<Resp, E>(Ok(Ok(Err(wire)))) == Err::<Resp, Error<E>>(
            <Error<E> as vstd::std_specs::convert::FromSpec<WireError<E>>>::from_spec(wire),
        ),
        flattened_response::<Resp, E>(Ok(Err(wire))) == flattened::<Resp, E>(Ok(Ok(Err(wire)))),
{
}

/// Folding a decoder's result and folding the delivery that holds it come to the same:
/// the transport adds a way to fail and changes nothing else.
pub proof fn lemma_transport_layer_adds_only_io<Resp, E>(delivered: Delivered<Resp, E>)
    ensures
        delivered matches Ok(decoded) ==> flattened(delivered) == flattened_response(decoded),
        delivered matches Err(cause) ==> flattened(delivered) == Err::<Resp, Error<E>>(
            Error::Io(cause),
        ),
{
}

} // verus!
