use vstd::prelude::*;

use crate::error::{ErrorKind, RelayError};

verus! {

/// Where a new connection should go.
#[derive(Debug, Clone, PartialEq, Eq)]
pub struct Url {
    pub url: String,
}

/// The id under which a live connection is held.
#[derive(Debug, Clone, PartialEq, Eq)]
pub struct ConnectionId {
    pub connection_id: String,
}

/// The reply of an operation that returns nothing.
#[derive(Debug, Clone, Copy, PartialEq, Eq, Structural)]
pub struct EmptyState;

/// A message on one route: the request, the response that the route pairs
/// with it, or a failure in place of that response.
#[derive(Debug, Clone, PartialEq, Eq)]
pub enum Envelope<Req, Resp> {
    Request(Req),
    Response(Resp),
    Failure(RelayError),
}

/// The operations of the connection subsystem.
#[derive(Debug, Clone, PartialEq, Eq)]
pub enum ConnectionRoutes {
    Create(Envelope<Url, ConnectionId>),
    Close(Envelope<ConnectionId, EmptyState>),
    Check(Envelope<ConnectionId, bool>),
}

/// The top of the route tree: one variant per subsystem, and a fault reply
/// for a message that could not be routed at all.
#[derive(Debug, Clone, PartialEq, Eq)]
pub enum Routes {
    Connection(ConnectionRoutes),
    Fault(RelayError),
}

/// What an envelope holds, as plain values.
pub enum EnvelopeV<Q, S> {
    Request(Q),
    Response(S),
    Failure(ErrorKind, Seq<char>),
}

pub enum ConnectionRoutesV {
    Create(EnvelopeV<Seq<char>, Seq<char>>),
    Close(EnvelopeV<Seq<char>, EmptyState>),
    Check(EnvelopeV<Seq<char>, bool>),
}

pub enum RoutesV {
    Connection(ConnectionRoutesV),
    Fault(ErrorKind, Seq<char>),
}

impl View for Url {
    type V = Seq<char>;

    open spec fn view(&self) -> Seq<char> {
        self.url@
    }
}

impl View for ConnectionId {
    type V = Seq<char>;

    open spec fn view(&self) -> Seq<char> {
        self.connection_id@
    }
}

impl View for EmptyState {
    type V = EmptyState;

    open spec fn view(&self) -> EmptyState {
        *self
    }
}

impl<Req: View, Resp: View> View for Envelope<Req, Resp> {
    type V = EnvelopeV<Req::V, Resp::V>;

    open spec fn view(&self) -> EnvelopeV<Req::V, Resp::V> {
        match self {
            Envelope::Request(q) => EnvelopeV::Request(q@),
            Envelope::Response(s) => EnvelopeV::Response(s@),
            Envelope::Failure(e) => EnvelopeV::Failure(e.kind, e.context@),
        }
    }
}

impl View for ConnectionRoutes {
    type V = ConnectionRoutesV;

    open spec fn view(&self) -> ConnectionRoutesV {
        match self {
            ConnectionRoutes::Create(e) => ConnectionRoutesV::Create(e@),
            ConnectionRoutes::Close(e) => ConnectionRoutesV::Close(e@),
            ConnectionRoutes::Check(e) => ConnectionRoutesV::Check(e@),
        }
    }
}

impl View for Routes {
    type V = RoutesV;

    open spec fn view(&self) -> RoutesV {
        match self {
            Routes::Connection(c) => RoutesV::Connection(c@),
            Routes::Fault(e) => RoutesV::Fault(e.kind, e.context@),
        }
    }
}

/// The label of failures that arise from routing.
pub open spec fn route_label() -> Seq<char> {
    "route"@
}

/// What unpacking an envelope gives: its response, the failure it carries,
/// or a mismatch where it holds a request.
pub open spec fn unpack_outcome<Q, S>(w: EnvelopeV<Q, S>) -> Result<S, (ErrorKind, Seq<char>)> {
    match w {
        EnvelopeV::Request(_) => Err((ErrorKind::RouteMismatch, route_label())),
        EnvelopeV::Response(s) => Ok(s),
        EnvelopeV::Failure(k, c) => Err((k, c)),
    }
}

impl<Req: View, Resp: View> Envelope<Req, Resp> {
    /// Wraps a request for sending.
    pub fn package(req: Req) -> (r: Self)
        ensures
            r == Envelope::<Req, Resp>::Request(req),
    {
        Envelope::Request(req)
    }

    /// The response that was received, or the failure that came in its place.
    pub fn unpack(self) -> (r: Result<Resp, RelayError>)
        ensures
            match r {
                Ok(s) => unpack_outcome(self@) == Ok::<Resp::V, (ErrorKind, Seq<char>)>(s@),
                Err(e) => unpack_outcome(self@) == Err::<Resp::V, (ErrorKind, Seq<char>)>(e@),
            },
    {
        match self {
            Envelope::Request(_) => Err(RelayError::new(ErrorKind::RouteMismatch, "route")),
            Envelope::Response(s) => Ok(s),
            Envelope::Failure(e) => Err(e),
        }
    }
}

} // verus!
