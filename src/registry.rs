use vstd::prelude::*;

use crate::error::{ErrorKind, RelayError};

verus! {

/// The registry's state: for each known id, `Some(r)` while its resource is
/// available and `None` while it is checked out.
pub type Slots<R> = Map<Seq<char>, Option<R>>;

/// A resource taken out of the registry, with the id it goes back under.
pub struct CheckoutTicket<R> {
    pub id: String,
    pub resource: R,
}

pub open spec fn is_available<R>(m: Slots<R>, k: Seq<char>) -> bool {
    m.contains_key(k) && m[k] is Some
}

pub open spec fn is_checked_out<R>(m: Slots<R>, k: Seq<char>) -> bool {
    m.contains_key(k) && m[k] is None
}

pub open spec fn after_insert<R>(m: Slots<R>, k: Seq<char>, r: R) -> Slots<R> {
    m.insert(k, Some(r))
}

pub open spec fn get_outcome<R>(m: Slots<R>, k: Seq<char>) -> Result<R, ErrorKind> {
    if is_available(m, k) {
        Ok(m[k]->Some_0)
    } else {
        Err(ErrorKind::NotFound)
    }
}

pub open spec fn after_get<R>(m: Slots<R>, k: Seq<char>) -> Slots<R> {
    if is_available(m, k) {
        m.insert(k, None)
    } else {
        m
    }
}

pub open spec fn return_outcome<R>(m: Slots<R>, k: Seq<char>) -> Result<(), ErrorKind> {
    if is_checked_out(m, k) {
        Ok(())
    } else {
        Err(ErrorKind::UnknownTicket)
    }
}

pub open spec fn after_return<R>(m: Slots<R>, k: Seq<char>, r: R) -> Slots<R> {
    if is_checked_out(m, k) {
        m.insert(k, Some(r))
    } else {
        m
    }
}

pub open spec fn remove_outcome<R>(m: Slots<R>, k: Seq<char>) -> Result<R, ErrorKind> {
    if is_available(m, k) {
        Ok(m[k]->Some_0)
    } else {
        Err(ErrorKind::NotFound)
    }
}

pub open spec fn after_remove<R>(m: Slots<R>, k: Seq<char>) -> Slots<R> {
    if is_available(m, k) {
        m.remove(k)
    } else {
        m
    }
}

/// After `insert(k, r)`, checking out `k` yields `r`, and checking `k` out a
/// second time, before anything is given back, fails with `NotFound`.
pub proof fn lemma_insert_then_get<R>(m: Slots<R>, k: Seq<char>, r: R)
    ensures
        get_outcome(after_insert(m, k, r), k) == Ok::<R, ErrorKind>(r),
        get_outcome(after_get(after_insert(m, k, r), k), k) == Err::<R, ErrorKind>(ErrorKind::NotFound),
{
}

/// Giving back the ticket of a successful checkout succeeds, restores the
/// registry as it was, and lets the same id be checked out again with the
/// same resource.
pub proof fn lemma_get_return_get<R>(m: Slots<R>, k: Seq<char>)
    requires
        get_outcome(m, k) is Ok,
    ensures
        return_outcome(after_get(m, k), k) == Ok::<(), ErrorKind>(()),
        after_return(after_get(m, k), k, get_outcome(m, k)->Ok_0) == m,
        get_outcome(after_return(after_get(m, k), k, get_outcome(m, k)->Ok_0), k) == get_outcome(m, k),
{
    let r = get_outcome(m, k)->Ok_0;
    assert(after_return(after_get(m, k), k, r) =~= m);
}

/// An id that is checked out cannot be removed: removing it fails with
/// `NotFound` and leaves the registry as it was, so its ticket can still be
/// given back.
pub proof fn lemma_no_remove_while_checked_out<R>(m: Slots<R>, k: Seq<char>)
    requires
        get_outcome(m, k) is Ok,
    ensures
        remove_outcome(after_get(m, k), k) == Err::<R, ErrorKind>(ErrorKind::NotFound),
        after_remove(after_get(m, k), k) == after_get(m, k),
        return_outcome(after_remove(after_get(m, k), k), k) == Ok::<(), ErrorKind>(()),
{
}

/// A request to the registry, as its owner receives it from a mailbox.
pub enum Command<R> {
    Insert(String, R),
    Get(String),
    Return(CheckoutTicket<R>),
    Remove(String),
}

/// The registry's answer to one command.
pub enum Reply<R> {
    Done,
    Ticket(CheckoutTicket<R>),
    Removed(R),
    Failed(ErrorKind),
    /// A ticket that could not be taken back, handed back to its holder.
    Refused(ErrorKind, CheckoutTicket<R>),
}

/// What a checkout comes to, given the registry's reply to its `Get`.
/// Failures carry `label`, naming who asked.
pub fn checkout_result<R>(reply: Reply<R>, label: &str) -> (r: Result<CheckoutTicket<R>, RelayError>)
    ensures
        match reply {
            Reply::Ticket(t) => r == Ok::<CheckoutTicket<R>, RelayError>(t),
            Reply::Failed(k) => r is Err && r->Err_0@ == (k, label@),
            _ => r is Err && r->Err_0@ == (ErrorKind::RouteMismatch, label@),
        },
{
    match reply {
        Reply::Ticket(t) => Ok(t),
        Reply::Failed(k) => Err(RelayError::new(k, label)),
        _ => Err(RelayError::new(ErrorKind::RouteMismatch, label)),
    }
}

/// What giving a ticket back comes to, given the registry's reply to its
/// `Return`. Failures carry `label`.
/// A refused ticket comes back with the error, so that its resource is not lost.
pub fn release_result<R>(reply: Reply<R>, label: &str) -> (r: Result<
    (),
    (RelayError, Option<CheckoutTicket<R>>),
>)
    ensures
        match reply {
            Reply::Done => r is Ok,
            Reply::Refused(k, t) => r is Err && r->Err_0.0@ == (k, label@) && r->Err_0.1 == Some(t),
            Reply::Failed(k) => r is Err && r->Err_0.0@ == (k, label@) && r->Err_0.1 is None,
            _ => r is Err && r->Err_0.0@ == (ErrorKind::RouteMismatch, label@) && r->Err_0.1 is None,
        },
{
    match reply {
        Reply::Done => Ok(()),
        Reply::Refused(k, t) => Err((RelayError::new(k, label), Some(t))),
        Reply::Failed(k) => Err((RelayError::new(k, label), None)),
        _ => Err((RelayError::new(ErrorKind::RouteMismatch, label), None)),
    }
}

/// Owns resources keyed by id and hands each out to one holder at a time.
pub struct Registry<R> {
    entries: Vec<(String, Option<R>)>,
    slots: Ghost<Slots<R>>,
}

impl<R> View for Registry<R> {
    type V = Slots<R>;

    closed spec fn view(&self) -> Slots<R> {
        self.slots@
    }
}

impl<R> Registry<R> {
    /// The entries hold each id once, and agree with the model.
    pub closed spec fn wf(&self) -> bool {
        &&& forall|i: int, j: int|
            0 <= i < j < self.entries@.len() ==> #[trigger] self.entries@[i].0@
                != #[trigger] self.entries@[j].0@
        &&& forall|i: int|
            0 <= i < self.entries@.len() ==> self.slots@.contains_key(
                #[trigger] self.entries@[i].0@,
            ) && self.slots@[self.entries@[i].0@] == self.entries@[i].1
        &&& forall|k: Seq<char>|
            #[trigger] self.slots@.contains_key(k) ==> exists|i: int|
                0 <= i < self.entries@.len() && #[trigger] self.entries@[i].0@ == k
    }

    pub fn new() -> (r: Registry<R>)
        ensures
            r.wf(),
            r@ == Map::<Seq<char>, Option<R>>::empty(),
    {
        Registry { entries: Vec::new(), slots: Ghost(Map::empty()) }
    }

    fn find(&self, k: &String) -> (r: Option<usize>)
        requires
            self.wf(),
        ensures
            match r {
                Some(i) => i < self.entries@.len() && self.entries@[i as int].0@ == k@,
                None => !self@.contains_key(k@),
            },
    {
        let mut i: usize = 0;
        while i < self.entries.len()
            invariant
                i <= self.entries@.len(),
                forall|j: int| 0 <= j < i ==> self.entries@[j].0@ != k@,
            decreases self.entries@.len() - i,
        {
            if self.entries[i].0 == *k {
                return Some(i);
            }
            i = i + 1;
        }
        None
    }

    /// Takes entry `i` out of the vector, keeping the model as it is.
    fn take(&mut self, i: usize) -> (r: (String, Option<R>))
        requires
            old(self).wf(),
            i < old(self).entries@.len(),
        ensures
            r == old(self).entries@[i as int],
            final(self).slots@ == old(self).slots@.remove(r.0@),
            final(self).entries@ == old(self).entries@.remove(i as int),
            final(self).wf(),
    {
        let ghost old_entries = self.entries@;
        let r = self.entries.remove(i);
        self.slots = Ghost(self.slots@.remove(r.0@));
        proof {
            assert forall|k: Seq<char>| #[trigger] self.slots@.contains_key(k) implies exists|j: int|
                0 <= j < self.entries@.len() && #[trigger] self.entries@[j].0@ == k by {
                let j = choose|j: int| 0 <= j < old_entries.len() && #[trigger] old_entries[j].0@ == k;
                if j < i {
                    assert(self.entries@[j] == old_entries[j]);
                } else {
                    assert(j != i);
                    assert(self.entries@[j - 1] == old_entries[j]);
                }
            }
            assert forall|a: int, b: int|
                0 <= a < b < self.entries@.len() implies #[trigger] self.entries@[a].0@
                != #[trigger] self.entries@[b].0@ by {
                let oa = if a < i { a } else { a + 1 };
                let ob = if b < i { b } else { b + 1 };
                assert(self.entries@[a] == old_entries[oa]);
                assert(self.entries@[b] == old_entries[ob]);
            }
            assert forall|a: int| 0 <= a < self.entries@.len() implies self.slots@.contains_key(
                #[trigger] self.entries@[a].0@,
            ) && self.slots@[self.entries@[a].0@] == self.entries@[a].1 by {
                let oa = if a < i { a } else { a + 1 };
                assert(self.entries@[a] == old_entries[oa]);
                assert(old_entries[oa].0@ != old_entries[i as int].0@);
            }
        }
        r
    }

    /// Adds an entry for an id that the registry does not hold.
    fn put(&mut self, k: String, slot: Option<R>)
        requires
            old(self).wf(),
            !old(self)@.contains_key(k@),
        ensures
            final(self)@ == old(self)@.insert(k@, slot),
            final(self).wf(),
    {
        let ghost kv = k@;
        let ghost old_entries = self.entries@;
        self.entries.push((k, slot));
        self.slots = Ghost(self.slots@.insert(kv, slot));
        proof {
            let n = self.entries@.len() - 1;
            assert(self.entries@[n].0@ == kv);
            assert forall|k2: Seq<char>| #[trigger] self.slots@.contains_key(k2) implies exists|j: int|
                0 <= j < self.entries@.len() && #[trigger] self.entries@[j].0@ == k2 by {
                if k2 == kv {
                    assert(self.entries@[n].0@ == k2);
                } else {
                    assert(old(self).slots@.contains_key(k2));
                    let j = choose|j: int| 0 <= j < n && #[trigger] old_entries[j].0@ == k2;
                    assert(self.entries@[j] == old_entries[j]);
                }
            }
        }
    }

    /// Stores `resource` under `id`, replacing whatever was held there.
    pub fn insert(&mut self, id: String, resource: R)
        requires
            old(self).wf(),
        ensures
            final(self).wf(),
            final(self)@ == after_insert(old(self)@, id@, resource),
    {
        match self.find(&id) {
            Some(i) => {
                self.take(i);
            },
            None => {},
        }
        self.put(id, Some(resource));
        proof {
            assert(self@ =~= after_insert(old(self)@, id@, resource));
        }
    }

    /// Checks out the resource under `id`; while it is out, the id cannot be
    /// checked out again.
    pub fn get(&mut self, id: &String) -> (r: Result<CheckoutTicket<R>, ErrorKind>)
        requires
            old(self).wf(),
        ensures
            final(self).wf(),
            final(self)@ == after_get(old(self)@, id@),
            match r {
                Ok(t) => t.id@ == id@ && get_outcome(old(self)@, id@) == Ok::<R, ErrorKind>(t.resource),
                Err(e) => get_outcome(old(self)@, id@) == Err::<R, ErrorKind>(e),
            },
    {
        match self.find(id) {
            None => Err(ErrorKind::NotFound),
            Some(i) => {
                if self.entries[i].1.is_none() {
                    return Err(ErrorKind::NotFound);
                }
                let (key, slot) = self.take(i);
                let ticket_id = key.clone();
                self.put(key, None);
                proof {
                    assert(self@ =~= after_get(old(self)@, id@));
                }
                match slot {
                    Some(resource) => Ok(CheckoutTicket { id: ticket_id, resource }),
                    None => Err(ErrorKind::NotFound),
                }
            },
        }
    }

    /// Puts a checked-out resource back under its id. A ticket with no live
    /// checkout is handed back with the error.
    pub fn give_back(&mut self, ticket: CheckoutTicket<R>) -> (r: Result<
        (),
        (ErrorKind, CheckoutTicket<R>),
    >)
        requires
            old(self).wf(),
        ensures
            final(self).wf(),
            final(self)@ == after_return(old(self)@, ticket.id@, ticket.resource),
            match r {
                Ok(()) => return_outcome(old(self)@, ticket.id@) is Ok,
                Err((e, t)) => return_outcome(old(self)@, ticket.id@) == Err::<(), ErrorKind>(e)
                    && t == ticket,
            },
    {
        match self.find(&ticket.id) {
            None => Err((ErrorKind::UnknownTicket, ticket)),
            Some(i) => {
                if self.entries[i].1.is_some() {
                    return Err((ErrorKind::UnknownTicket, ticket));
                }
                let (key, _slot) = self.take(i);
                self.put(key, Some(ticket.resource));
                proof {
                    assert(self@ =~= after_return(old(self)@, ticket.id@, ticket.resource));
                }
                Ok(())
            },
        }
    }

    /// Deletes the entry for `id` and hands back its resource. An id that is
    /// absent or checked out gives `NotFound`, and nothing changes.
    pub fn remove(&mut self, id: &String) -> (r: Result<R, ErrorKind>)
        requires
            old(self).wf(),
        ensures
            final(self).wf(),
            final(self)@ == after_remove(old(self)@, id@),
            r == remove_outcome(old(self)@, id@),
    {
        match self.find(id) {
            None => {
                proof {
                    assert(self@ =~= after_remove(old(self)@, id@));
                }
                Err(ErrorKind::NotFound)
            },
            Some(i) => {
                if self.entries[i].1.is_none() {
                    return Err(ErrorKind::NotFound);
                }
                let (_key, slot) = self.take(i);
                match slot {
                    Some(res) => Ok(res),
                    None => Err(ErrorKind::NotFound),
                }
            },
        }
    }

    /// Whether `id` names a resource that can be checked out now.
    pub fn is_available(&self, id: &String) -> (r: bool)
        requires
            self.wf(),
        ensures
            r == is_available(self@, id@),
    {
        match self.find(id) {
            None => false,
            Some(i) => self.entries[i].1.is_some(),
        }
    }

    /// Carries out one command, in the order the mailbox delivers them.
    pub fn apply(&mut self, cmd: Command<R>) -> (r: Reply<R>)
        requires
            old(self).wf(),
        ensures
            final(self).wf(),
            match cmd {
                Command::Insert(k, res) => final(self)@ == after_insert(old(self)@, k@, res)
                    && r is Done,
                Command::Get(k) => final(self)@ == after_get(old(self)@, k@) && match get_outcome(
                    old(self)@,
                    k@,
                ) {
                    Ok(res) => r matches Reply::Ticket(t) && t.id@ == k@ && t.resource == res,
                    Err(e) => r == Reply::<R>::Failed(e),
                },
                Command::Return(t) => final(self)@ == after_return(old(self)@, t.id@, t.resource)
                    && match return_outcome(old(self)@, t.id@) {
                    Ok(_) => r is Done,
                    Err(e) => r == Reply::<R>::Refused(e, t),
                },
                Command::Remove(k) => final(self)@ == after_remove(old(self)@, k@) && match remove_outcome(
                    old(self)@,
                    k@,
                ) {
                    Ok(v) => r == Reply::<R>::Removed(v),
                    Err(e) => r == Reply::<R>::Failed(e),
                },
            },
    {
        match cmd {
            Command::Insert(k, res) => {
                self.insert(k, res);
                Reply::Done
            },
            Command::Get(k) => match self.get(&k) {
                Ok(t) => Reply::Ticket(t),
                Err(e) => Reply::Failed(e),
            },
            Command::Return(t) => match self.give_back(t) {
                Ok(()) => Reply::Done,
                Err((e, back)) => Reply::Refused(e, back),
            },
            Command::Remove(k) => match self.remove(&k) {
                Ok(v) => Reply::Removed(v),
                Err(e) => Reply::Failed(e),
            },
        }
    }
}

} // verus!
