use vstd::prelude::*;

verus! {

/// The kinds of failure that the relay reports.
#[derive(Debug, PartialEq, Eq, Structural, Clone, Copy)]
pub enum ErrorKind {
    /// The id is absent, or its resource is checked out already.
    NotFound,
    /// A ticket came back for an id that has no live checkout.
    UnknownTicket,
    /// A wire message was malformed or truncated.
    Serialization,
    /// A message did not have the operation that was expected.
    RouteMismatch,
    /// Connecting, writing or reading failed.
    Transport,
    /// The registry is no longer running.
    MailboxClosed,
    /// No fresh connection id is left.
    IdsExhausted,
}

/// A failure together with a short label naming where it arose.
#[derive(Debug, Clone, PartialEq, Eq)]
pub struct RelayError {
    pub kind: ErrorKind,
    pub context: String,
}

impl View for RelayError {
    type V = (ErrorKind, Seq<char>);

    open spec fn view(&self) -> (ErrorKind, Seq<char>) {
        (self.kind, self.context@)
    }
}

impl RelayError {
    pub fn new(kind: ErrorKind, context: &str) -> (r: RelayError)
        ensures
            r.kind == kind,
            r.context@ == context@,
    {
        RelayError { kind, context: context.to_string() }
    }

    /// A description of the failure, its label first.
    pub fn describe(&self) -> (r: String)
        ensures
            r@ == self.context@ + ": "@ + kind_text(self.kind),
    {
        let s = self.context.clone();
        let s = s.concat(": ");
        let r = s.concat(kind_str(self.kind));
        r
    }
}

pub open spec fn kind_text(k: ErrorKind) -> Seq<char> {
    match k {
        ErrorKind::NotFound => "not found"@,
        ErrorKind::UnknownTicket => "unknown ticket"@,
        ErrorKind::Serialization => "malformed message"@,
        ErrorKind::RouteMismatch => "route mismatch"@,
        ErrorKind::Transport => "transport failure"@,
        ErrorKind::MailboxClosed => "registry closed"@,
        ErrorKind::IdsExhausted => "no connection id left"@,
    }
}

fn kind_str(k: ErrorKind) -> (r: &'static str)
    ensures
        r@ == kind_text(k),
{
    match k {
        ErrorKind::NotFound => "not found",
        ErrorKind::UnknownTicket => "unknown ticket",
        ErrorKind::Serialization => "malformed message",
        ErrorKind::RouteMismatch => "route mismatch",
        ErrorKind::Transport => "transport failure",
        ErrorKind::MailboxClosed => "registry closed",
        ErrorKind::IdsExhausted => "no connection id left",
    }
}

} // verus!
