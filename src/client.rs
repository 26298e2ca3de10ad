use vstd::prelude::*;

use crate::error::{ErrorKind, RelayError};
use crate::routes::{
    route_label, unpack_outcome, ConnectionId, ConnectionRoutes, ConnectionRoutesV, EmptyState,
    Envelope, EnvelopeV, Routes, RoutesV, Url,
};
use crate::wire::{decode, encode, fits_frame, frame_of, lemma_round_trip, parse_frame, wire_label};

verus! {

pub open spec fn create_request_v(url: Seq<char>) -> RoutesV {
    RoutesV::Connection(ConnectionRoutesV::Create(EnvelopeV::Request(url)))
}

pub open spec fn close_request_v(id: Seq<char>) -> RoutesV {
    RoutesV::Connection(ConnectionRoutesV::Close(EnvelopeV::Request(id)))
}

pub open spec fn check_request_v(id: Seq<char>) -> RoutesV {
    RoutesV::Connection(ConnectionRoutesV::Check(EnvelopeV::Request(id)))
}

/// What a reply frame to a create request means: the new id, or a failure.
pub open spec fn create_reply_outcome(s: Seq<char>) -> Result<Seq<char>, (ErrorKind, Seq<char>)> {
    match parse_frame(s) {
        None => Err((ErrorKind::Serialization, wire_label())),
        Some(RoutesV::Fault(k, c)) => Err((k, c)),
        Some(RoutesV::Connection(ConnectionRoutesV::Create(w))) => unpack_outcome(w),
        Some(_) => Err((ErrorKind::RouteMismatch, route_label())),
    }
}

/// What a reply frame to a close request means.
pub open spec fn close_reply_outcome(s: Seq<char>) -> Result<EmptyState, (ErrorKind, Seq<char>)> {
    match parse_frame(s) {
        None => Err((ErrorKind::Serialization, wire_label())),
        Some(RoutesV::Fault(k, c)) => Err((k, c)),
        Some(RoutesV::Connection(ConnectionRoutesV::Close(w))) => unpack_outcome(w),
        Some(_) => Err((ErrorKind::RouteMismatch, route_label())),
    }
}

/// What a reply frame to a check request means.
pub open spec fn check_reply_outcome(s: Seq<char>) -> Result<bool, (ErrorKind, Seq<char>)> {
    match parse_frame(s) {
        None => Err((ErrorKind::Serialization, wire_label())),
        Some(RoutesV::Fault(k, c)) => Err((k, c)),
        Some(RoutesV::Connection(ConnectionRoutesV::Check(w))) => unpack_outcome(w),
        Some(_) => Err((ErrorKind::RouteMismatch, route_label())),
    }
}

/// The frame that asks for a new connection to `url`.
pub fn create_request(url: String) -> (r: Result<String, RelayError>)
    ensures
        r is Ok <==> fits_frame(create_request_v(url@)),
        match r {
            Ok(s) => s@ == frame_of(create_request_v(url@)),
            Err(e) => e@ == (ErrorKind::Serialization, wire_label()),
        },
{
    let env: Envelope<Url, ConnectionId> = Envelope::package(Url { url });
    encode(&Routes::Connection(ConnectionRoutes::Create(env)))
}

/// The frame that asks for the connection `id` to be closed.
pub fn close_request(id: String) -> (r: Result<String, RelayError>)
    ensures
        r is Ok <==> fits_frame(close_request_v(id@)),
        match r {
            Ok(s) => s@ == frame_of(close_request_v(id@)),
            Err(e) => e@ == (ErrorKind::Serialization, wire_label()),
        },
{
    let env: Envelope<ConnectionId, EmptyState> = Envelope::package(ConnectionId { connection_id: id });
    encode(&Routes::Connection(ConnectionRoutes::Close(env)))
}

/// The frame that asks whether the connection `id` is open.
pub fn check_request(id: String) -> (r: Result<String, RelayError>)
    ensures
        r is Ok <==> fits_frame(check_request_v(id@)),
        match r {
            Ok(s) => s@ == frame_of(check_request_v(id@)),
            Err(e) => e@ == (ErrorKind::Serialization, wire_label()),
        },
{
    let env: Envelope<ConnectionId, bool> = Envelope::package(ConnectionId { connection_id: id });
    encode(&Routes::Connection(ConnectionRoutes::Check(env)))
}

fn mismatch() -> (e: RelayError)
    ensures
        e@ == (ErrorKind::RouteMismatch, route_label()),
{
    RelayError::new(ErrorKind::RouteMismatch, "route")
}

/// Reads the reply to a create request.
pub fn create_reply(frame: &String) -> (r: Result<String, RelayError>)
    ensures
        match r {
            Ok(id) => create_reply_outcome(frame@) == Ok::<Seq<char>, (ErrorKind, Seq<char>)>(id@),
            Err(e) => create_reply_outcome(frame@) == Err::<Seq<char>, (ErrorKind, Seq<char>)>(e@),
        },
{
    match decode(frame) {
        Err(e) => Err(e),
        Ok(Routes::Fault(e)) => Err(e),
        Ok(Routes::Connection(ConnectionRoutes::Create(env))) => match env.unpack() {
            Ok(id) => Ok(id.connection_id),
            Err(e) => Err(e),
        },
        Ok(_) => Err(mismatch()),
    }
}

/// Reads the reply to a close request.
pub fn close_reply(frame: &String) -> (r: Result<EmptyState, RelayError>)
    ensures
        match r {
            Ok(v) => close_reply_outcome(frame@) == Ok::<EmptyState, (ErrorKind, Seq<char>)>(v),
            Err(e) => close_reply_outcome(frame@) == Err::<EmptyState, (ErrorKind, Seq<char>)>(e@),
        },
{
    match decode(frame) {
        Err(e) => Err(e),
        Ok(Routes::Fault(e)) => Err(e),
        Ok(Routes::Connection(ConnectionRoutes::Close(env))) => env.unpack(),
        Ok(_) => Err(mismatch()),
    }
}

/// Reads the reply to a check request.
pub fn check_reply(frame: &String) -> (r: Result<bool, RelayError>)
    ensures
        match r {
            Ok(v) => check_reply_outcome(frame@) == Ok::<bool, (ErrorKind, Seq<char>)>(v),
            Err(e) => check_reply_outcome(frame@) == Err::<bool, (ErrorKind, Seq<char>)>(e@),
        },
{
    match decode(frame) {
        Err(e) => Err(e),
        Ok(Routes::Fault(e)) => Err(e),
        Ok(Routes::Connection(ConnectionRoutes::Check(env))) => env.unpack(),
        Ok(_) => Err(mismatch()),
    }
}

/// A well-formed message of one connection operation, read as the reply of
/// another, yields a route mismatch.
pub proof fn lemma_wrong_operation(r: RoutesV)
    requires
        fits_frame(r),
        r is Connection,
    ensures
        !(r->Connection_0 is Create) ==> create_reply_outcome(frame_of(r)) == Err::<
            Seq<char>,
            (ErrorKind, Seq<char>),
        >((ErrorKind::RouteMismatch, route_label())),
        !(r->Connection_0 is Close) ==> close_reply_outcome(frame_of(r)) == Err::<
            EmptyState,
            (ErrorKind, Seq<char>),
        >((ErrorKind::RouteMismatch, route_label())),
        !(r->Connection_0 is Check) ==> check_reply_outcome(frame_of(r)) == Err::<
            bool,
            (ErrorKind, Seq<char>),
        >((ErrorKind::RouteMismatch, route_label())),
{
    lemma_round_trip(r);
}

} // verus!
