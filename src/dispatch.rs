use vstd::prelude::*;

use crate::error::{ErrorKind, RelayError};
use crate::registry::{
    after_get, after_insert, after_remove, after_return, get_outcome, remove_outcome,
    return_outcome, CheckoutTicket, Registry, Slots,
};
use crate::routes::{
    route_label, ConnectionId, ConnectionRoutes, ConnectionRoutesV, EmptyState, Envelope,
    EnvelopeV, Routes, RoutesV,
};
use crate::wire::{
    decode, encode, fits_frame, frame_of, hex_digits, lemma_hex_digits, p16, parse_frame, push_hex,
    wire_label,
};

verus! {

broadcast use vstd::string::axiom_str_literal_len;

/// Number of hex digits in a connection id.
pub const ID_DIGITS: usize = 16;

/// The label of failures that the connection subsystem reports.
pub open spec fn connection_label() -> Seq<char> {
    "connection"@
}

/// What the transport side must do next for one request.
pub enum Action<R> {
    /// Send this frame back.
    Reply(String),
    /// Open a connection to this url, then hand the result to `opened`.
    Open(String),
    /// Find out whether this checked-out connection is healthy, then hand it
    /// to `probed`.
    Probe(CheckoutTicket<R>),
    /// Close this connection, then send this frame back.
    Release(R, String),
}

pub open spec fn fault_reply(k: ErrorKind, c: Seq<char>) -> Seq<char> {
    frame_of(RoutesV::Fault(k, c))
}

pub open spec fn create_reply_v(w: EnvelopeV<Seq<char>, Seq<char>>) -> Seq<char> {
    frame_of(RoutesV::Connection(ConnectionRoutesV::Create(w)))
}

pub open spec fn close_reply_v(w: EnvelopeV<Seq<char>, EmptyState>) -> Seq<char> {
    frame_of(RoutesV::Connection(ConnectionRoutesV::Close(w)))
}

pub open spec fn check_reply_v(w: EnvelopeV<Seq<char>, bool>) -> Seq<char> {
    frame_of(RoutesV::Connection(ConnectionRoutesV::Check(w)))
}

pub open spec fn is_reply<R>(a: Action<R>, s: Seq<char>) -> bool {
    match a {
        Action::Reply(t) => t@ == s,
        _ => false,
    }
}

pub open spec fn is_open<R>(a: Action<R>, url: Seq<char>) -> bool {
    match a {
        Action::Open(u) => u@ == url,
        _ => false,
    }
}

pub open spec fn is_probe<R>(a: Action<R>, id: Seq<char>, res: R) -> bool {
    match a {
        Action::Probe(t) => t.id@ == id && t.resource == res,
        _ => false,
    }
}

pub open spec fn is_release<R>(a: Action<R>, res: R, s: Seq<char>) -> bool {
    match a {
        Action::Release(x, t) => x == res && t@ == s,
        _ => false,
    }
}

proof fn lemma_p16_sixteen()
    ensures
        p16(16) == 0x1_0000_0000_0000_0000,
{
    reveal_with_fuel(p16, 17);
}

/// Ids made from distinct counters differ.
proof fn lemma_ids_differ(a: nat, b: nat)
    requires
        a < 0x1_0000_0000_0000_0000,
        b < 0x1_0000_0000_0000_0000,
        a != b,
    ensures
        hex_digits(a, ID_DIGITS as nat) != hex_digits(b, ID_DIGITS as nat),
{
    lemma_p16_sixteen();
    lemma_hex_digits(a, 16);
    lemma_hex_digits(b, 16);
}

/// A connection stored under a fresh id can be checked out under that id,
/// giving that connection; closing it hands the connection back for
/// release, and a later check of the id finds nothing.
pub proof fn lemma_open_check_close<R>(m: Slots<R>, id: Seq<char>, res: R)
    requires
        !m.contains_key(id),
    ensures
        get_outcome(after_insert(m, id, res), id) == Ok::<R, ErrorKind>(res),
        remove_outcome(after_insert(m, id, res), id) == Ok::<R, ErrorKind>(res),
        get_outcome(after_remove(after_insert(m, id, res), id), id) == Err::<R, ErrorKind>(
            ErrorKind::NotFound,
        ),
        after_remove(after_insert(m, id, res), id) == m,
{
    assert(after_remove(after_insert(m, id, res), id) =~= m);
}

/// Routes requests to the connection registry and frames the replies.
pub struct Dispatcher<R> {
    registry: Registry<R>,
    next_id: u64,
}

impl<R> View for Dispatcher<R> {
    type V = (Slots<R>, nat);

    closed spec fn view(&self) -> (Slots<R>, nat) {
        (self.registry@, self.next_id as nat)
    }
}

fn reply(msg: Routes) -> (r: String)
    requires
        fits_frame(msg@),
    ensures
        r@ == frame_of(msg@),
{
    match encode(&msg) {
        Ok(s) => s,
        Err(_) => String::new(),
    }
}

fn failure<Q: View, S: View>(kind: ErrorKind, context: &str) -> (r: Envelope<Q, S>)
    ensures
        r@ == EnvelopeV::<Q::V, S::V>::Failure(kind, context@),
{
    Envelope::Failure(RelayError::new(kind, context))
}

impl<R> Dispatcher<R> {
    /// The registry is well formed, and holds only ids that were handed out.
    pub closed spec fn wf(&self) -> bool {
        &&& self.registry.wf()
        &&& forall|k: Seq<char>|
            #[trigger] self.registry@.contains_key(k) ==> exists|n: nat|
                n < self.next_id && k == #[trigger] hex_digits(n, ID_DIGITS as nat)
    }

    pub fn new() -> (r: Dispatcher<R>)
        ensures
            r.wf(),
            r@ == (Map::<Seq<char>, Option<R>>::empty(), 0nat),
    {
        Dispatcher { registry: Registry::new(), next_id: 0 }
    }

    /// Takes the outcome of opening a connection: stores a new connection
    /// under a fresh id and replies with that id.
    pub fn opened(&mut self, conn: Option<R>) -> (r: String)
        requires
            old(self).wf(),
        ensures
            final(self).wf(),
            ({
                let (m, n) = old(self)@;
                let id = hex_digits(n, ID_DIGITS as nat);
                match conn {
                    None => final(self)@ == old(self)@ && r@ == create_reply_v(
                        EnvelopeV::Failure(ErrorKind::Transport, connection_label()),
                    ),
                    Some(res) => if n == u64::MAX {
                        final(self)@ == old(self)@ && r@ == create_reply_v(
                            EnvelopeV::Failure(ErrorKind::IdsExhausted, connection_label()),
                        )
                    } else {
                        &&& !m.contains_key(id)
                        &&& final(self)@ == (after_insert(m, id, res), n + 1)
                        &&& r@ == create_reply_v(EnvelopeV::Response(id))
                    },
                }
            }),
    {
        proof {
            reveal_strlit("connection");
        }
        let res = match conn {
            None => {
                return reply(
                    Routes::Connection(
                        ConnectionRoutes::Create(failure(ErrorKind::Transport, "connection")),
                    ),
                );
            },
            Some(res) => res,
        };
        if self.next_id == u64::MAX {
            return reply(
                Routes::Connection(
                    ConnectionRoutes::Create(failure(ErrorKind::IdsExhausted, "connection")),
                ),
            );
        }
        let n = self.next_id;
        let mut id = String::new();
        push_hex(&mut id, n, ID_DIGITS);
        proof {
            assert(id@ =~= hex_digits(n as nat, ID_DIGITS as nat));
            lemma_p16_sixteen();
            lemma_hex_digits(n as nat, 16);
            if self.registry@.contains_key(id@) {
                let k = choose|k: nat| k < n && id@ == #[trigger] hex_digits(k, ID_DIGITS as nat);
                lemma_ids_differ(k, n as nat);
            }
        }
        let id_copy = id.clone();
        self.registry.insert(id, res);
        self.next_id = n + 1;
        proof {
            assert forall|k: Seq<char>| #[trigger] self.registry@.contains_key(k) implies exists|j: nat|
                j < self.next_id && k == #[trigger] hex_digits(j, ID_DIGITS as nat) by {
                if k != id_copy@ {
                    assert(old(self).registry@.contains_key(k));
                } else {
                    assert(k == hex_digits(n as nat, ID_DIGITS as nat));
                }
            }
        }
        reply(
            Routes::Connection(
                ConnectionRoutes::Create(Envelope::Response(ConnectionId { connection_id: id_copy })),
            ),
        )
    }

    /// Takes back a probed connection and replies with its health. A ticket
    /// that the registry refuses comes back beside the failure reply, so that
    /// its connection can be closed rather than lost.
    pub fn probed(&mut self, ticket: CheckoutTicket<R>, healthy: bool) -> (r: (String, Option<R>))
        requires
            old(self).wf(),
        ensures
            final(self).wf(),
            final(self)@ == (after_return(old(self)@.0, ticket.id@, ticket.resource), old(self)@.1),
            match return_outcome(old(self)@.0, ticket.id@) {
                Ok(_) => r.0@ == check_reply_v(EnvelopeV::Response(healthy)) && r.1 is None,
                Err(k) => r.0@ == check_reply_v(EnvelopeV::Failure(k, connection_label())) && r.1
                    == Some(ticket.resource),
            },
    {
        proof {
            reveal_strlit("connection");
        }
        match self.registry.give_back(ticket) {
            Ok(()) => (
                reply(Routes::Connection(ConnectionRoutes::Check(Envelope::Response(healthy)))),
                None,
            ),
            Err((k, back)) => (
                reply(Routes::Connection(ConnectionRoutes::Check(failure(k, "connection")))),
                Some(back.resource),
            ),
        }
    }

    /// Decides what one request frame calls for. Requests that cannot be
    /// read, or that are not requests, get a failure reply.
    pub fn handle(&mut self, frame: &String) -> (r: Action<R>)
        requires
            old(self).wf(),
        ensures
            final(self).wf(),
            final(self)@.1 == old(self)@.1,
            ({
                let m = old(self)@.0;
                let m2 = final(self)@.0;
                match parse_frame(frame@) {
                    None => m2 == m && is_reply(r, fault_reply(ErrorKind::Serialization, wire_label())),
                    Some(RoutesV::Connection(ConnectionRoutesV::Create(EnvelopeV::Request(u)))) => m2
                        == m && is_open(r, u),
                    Some(RoutesV::Connection(ConnectionRoutesV::Close(EnvelopeV::Request(id)))) => {
                        &&& m2 == after_remove(m, id)
                        &&& match remove_outcome(m, id) {
                            Ok(res) => is_release(r, res, close_reply_v(EnvelopeV::Response(EmptyState))),
                            Err(k) => is_reply(r, close_reply_v(EnvelopeV::Failure(k, connection_label()))),
                        }
                    },
                    Some(RoutesV::Connection(ConnectionRoutesV::Check(EnvelopeV::Request(id)))) => {
                        &&& m2 == after_get(m, id)
                        &&& match get_outcome(m, id) {
                            Ok(res) => is_probe(r, id, res),
                            Err(k) => is_reply(r, check_reply_v(EnvelopeV::Failure(k, connection_label()))),
                        }
                    },
                    Some(RoutesV::Connection(ConnectionRoutesV::Create(_))) => m2 == m && is_reply(
                        r,
                        create_reply_v(EnvelopeV::Failure(ErrorKind::RouteMismatch, route_label())),
                    ),
                    Some(RoutesV::Connection(ConnectionRoutesV::Close(_))) => m2 == m && is_reply(
                        r,
                        close_reply_v(EnvelopeV::Failure(ErrorKind::RouteMismatch, route_label())),
                    ),
                    Some(RoutesV::Connection(ConnectionRoutesV::Check(_))) => m2 == m && is_reply(
                        r,
                        check_reply_v(EnvelopeV::Failure(ErrorKind::RouteMismatch, route_label())),
                    ),
                    Some(RoutesV::Fault(_, _)) => m2 == m && is_reply(
                        r,
                        fault_reply(ErrorKind::RouteMismatch, route_label()),
                    ),
                }
            }),
    {
        proof {
            reveal_strlit("wire");
            reveal_strlit("route");
            reveal_strlit("connection");
        }
        let msg = match decode(frame) {
            Ok(m) => m,
            Err(_) => {
                return Action::Reply(
                    reply(Routes::Fault(RelayError::new(ErrorKind::Serialization, "wire"))),
                );
            },
        };
        match msg {
            Routes::Fault(_) => Action::Reply(
                reply(Routes::Fault(RelayError::new(ErrorKind::RouteMismatch, "route"))),
            ),
            Routes::Connection(ConnectionRoutes::Create(env)) => match env {
                Envelope::Request(u) => Action::Open(u.url),
                _ => Action::Reply(
                    reply(
                        Routes::Connection(
                            ConnectionRoutes::Create(failure(ErrorKind::RouteMismatch, "route")),
                        ),
                    ),
                ),
            },
            Routes::Connection(ConnectionRoutes::Close(env)) => match env {
                Envelope::Request(id) => {
                    let ack = Routes::Connection(ConnectionRoutes::Close(Envelope::Response(EmptyState)));
                    match self.registry.remove(&id.connection_id) {
                        Ok(res) => Action::Release(res, reply(ack)),
                        Err(k) => Action::Reply(
                            reply(
                                Routes::Connection(
                                    ConnectionRoutes::Close(failure(k, "connection")),
                                ),
                            ),
                        ),
                    }
                },
                _ => Action::Reply(
                    reply(
                        Routes::Connection(
                            ConnectionRoutes::Close(failure(ErrorKind::RouteMismatch, "route")),
                        ),
                    ),
                ),
            },
            Routes::Connection(ConnectionRoutes::Check(env)) => match env {
                Envelope::Request(id) => match self.registry.get(&id.connection_id) {
                    Ok(t) => Action::Probe(t),
                    Err(k) => Action::Reply(
                        reply(
                            Routes::Connection(ConnectionRoutes::Check(failure(k, "connection"))),
                        ),
                    ),
                },
                _ => Action::Reply(
                    reply(
                        Routes::Connection(
                            ConnectionRoutes::Check(failure(ErrorKind::RouteMismatch, "route")),
                        ),
                    ),
                ),
            },
        }
    }
}

} // verus!
