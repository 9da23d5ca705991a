//! Tickets and the service that stores them.
//!
//! The store is a sequence of slots: a ticket's id is the index of its slot,
//! a new ticket takes the next slot, and deleting a ticket empties its slot,
//! so ids are never reused.
use crate::auth::extractor::AuthContext;
use crate::error::Error;
use vstd::prelude::*;

verus! {

/// A ticket, owned by the user who created it.
#[derive(Debug, PartialEq, Eq)]
pub struct Ticket {
    pub id: u64,
    pub user_id: u64,
    pub title: String,
}

impl Clone for Ticket {
    fn clone(&self) -> (r: Self)
        ensures
            r == *self,
    {
        Ticket { id: self.id, user_id: self.user_id, title: self.title.clone() }
    }
}

/// What a client asks for when creating a ticket.
#[derive(Debug)]
pub struct TicketRequest {
    pub title: String,
}

/// The store of all tickets.
pub struct TicketService {
    ticket_repo: Vec<Option<Ticket>>,
}

/// Every ticket sits in the slot whose index is its id.
pub open spec fn ids_match_slots(store: Seq<Option<Ticket>>) -> bool {
    forall|i: int| 0 <= i < store.len() && #[trigger] store[i] is Some ==> store[i]->Some_0.id == i
}

/// The ticket that creating one with `title` for `user_id` adds to `store`.
pub open spec fn ticket_created(store: Seq<Option<Ticket>>, user_id: u64, title: String) -> Ticket {
    Ticket { id: store.len() as u64, user_id, title }
}

/// The tickets of `store` owned by `user_id`, in the order of their slots.
pub open spec fn owned_tickets(store: Seq<Option<Ticket>>, user_id: u64) -> Seq<Ticket>
    decreases store.len(),
{
    if store.len() == 0 {
        Seq::empty()
    } else {
        let before = owned_tickets(store.drop_last(), user_id);
        match store.last() {
            Some(t) => if t.user_id == user_id {
                before.push(t)
            } else {
                before
            },
            None => before,
        }
    }
}

/// Whether `user_id` may delete the ticket `id`: the ticket exists (its slot
/// is occupied) and belongs to that user.
pub open spec fn deletable(store: Seq<Option<Ticket>>, user_id: u64, id: u64) -> bool {
    &&& id < store.len()
    &&& store[id as int] is Some
    &&& store[id as int]->Some_0.user_id == user_id
}

/// A user's list holds exactly the tickets of the store that the user owns.
pub proof fn law_listed_tickets_are_owned(store: Seq<Option<Ticket>>, user_id: u64, t: Ticket)
    ensures
        owned_tickets(store, user_id).contains(t) <==> (t.user_id == user_id && store.contains(
            Some(t),
        )),
    decreases store.len(),
{
    if store.len() > 0 {
        let prefix = store.drop_last();
        law_listed_tickets_are_owned(prefix, user_id, t);
        assert(store =~= prefix.push(store.last()));
        if store.contains(Some(t)) {
            let i = choose|i: int| 0 <= i < store.len() && store[i] == Some(t);
            if i < store.len() - 1 {
                assert(prefix[i] == Some(t));
            }
        }
        if prefix.contains(Some(t)) {
            let i = choose|i: int| 0 <= i < prefix.len() && prefix[i] == Some(t);
            assert(store[i] == Some(t));
        }
        let before = owned_tickets(prefix, user_id);
        match store.last() {
            Some(last) => {
                if last.user_id == user_id {
                    if before.push(last).contains(t) && t != last {
                        let k = choose|k: int| 0 <= k < before.push(last).len() && before.push(last)[k] == t;
                        assert(before[k] == t);
                    }
                    if t == last {
                        assert(before.push(last)[before.len() as int] == t);
                    }
                    if before.contains(t) {
                        let k = choose|k: int| 0 <= k < before.len() && before[k] == t;
                        assert(before.push(last)[k] == t);
                    }
                }
            },
            None => {},
        }
    }
}

/// In a well-formed store, a user's tickets are listed in increasing order
/// of their ids, and every listed ticket's id is the index of its slot.
pub proof fn law_listed_tickets_in_id_order(store: Seq<Option<Ticket>>, user_id: u64)
    requires
        ids_match_slots(store),
    ensures
        forall|j: int, k: int|
            0 <= j < k < owned_tickets(store, user_id).len() ==> (#[trigger] owned_tickets(
                store,
                user_id,
            )[j]).id < (#[trigger] owned_tickets(store, user_id)[k]).id,
        forall|k: int|
            0 <= k < owned_tickets(store, user_id).len() ==> (#[trigger] owned_tickets(
                store,
                user_id,
            )[k]).id < store.len(),
    decreases store.len(),
{
    if store.len() > 0 {
        let prefix = store.drop_last();
        assert(ids_match_slots(prefix)) by {
            assert forall|i: int| 0 <= i < prefix.len() && #[trigger] prefix[i] is Some implies prefix[i]->Some_0.id
                == i by {
                assert(store[i] == prefix[i]);
            }
        }
        law_listed_tickets_in_id_order(prefix, user_id);
        let before = owned_tickets(prefix, user_id);
        match store.last() {
            Some(last) => {
                assert(store[store.len() - 1] is Some);
                assert(last.id == store.len() - 1);
                if last.user_id == user_id {
                    let after = before.push(last);
                    assert(owned_tickets(store, user_id) == after);
                    assert forall|j: int, k: int| 0 <= j < k < after.len() implies (#[trigger] after[j]).id
                        < (#[trigger] after[k]).id by {
                        if k == before.len() {
                            assert(after[j] == before[j]);
                        } else {
                            assert(after[j] == before[j]);
                            assert(after[k] == before[k]);
                        }
                    }
                    assert forall|k: int| 0 <= k < after.len() implies (#[trigger] after[k]).id < store.len() by {
                        if k < before.len() {
                            assert(after[k] == before[k]);
                        }
                    }
                }
            },
            None => {},
        }
    }
}

/// Creating a ticket appends it to its owner's list, leaves every other
/// user's list as it was, gives it an id that no ticket in the store has,
/// and keeps every ticket in the slot of its id.
pub proof fn law_create_appends_fresh_ticket(store: Seq<Option<Ticket>>, user_id: u64, title: String)
    requires
        ids_match_slots(store),
        store.len() <= u64::MAX,
    ensures
        ({
            let t = ticket_created(store, user_id, title);
            let after = store.push(Some(t));
            &&& owned_tickets(after, user_id) == owned_tickets(store, user_id).push(t)
            &&& forall|other: u64|
                other != user_id ==> #[trigger] owned_tickets(after, other) == owned_tickets(
                    store,
                    other,
                )
            &&& forall|i: int|
                0 <= i < store.len() && #[trigger] store[i] is Some ==> store[i]->Some_0.id != t.id
            &&& ids_match_slots(after)
        }),
{
    let t = ticket_created(store, user_id, title);
    let after = store.push(Some(t));
    assert(after.drop_last() =~= store);
    assert forall|other: u64| other != user_id implies #[trigger] owned_tickets(after, other)
        == owned_tickets(store, other) by {
        assert(after.drop_last() =~= store);
    }
    assert forall|i: int| 0 <= i < after.len() && #[trigger] after[i] is Some implies after[i]->Some_0.id
        == i by {
        if i < store.len() {
            assert(after[i] == store[i]);
        }
    }
}

/// Emptying the slot `id` of a ticket that `owner` does not own leaves
/// `owner`'s list as it was.
proof fn lemma_emptying_foreign_slot(store: Seq<Option<Ticket>>, id: int, owner: u64)
    requires
        0 <= id < store.len(),
        store[id] matches Some(t) ==> t.user_id != owner,
    ensures
        owned_tickets(store.update(id, None), owner) == owned_tickets(store, owner),
    decreases store.len(),
{
    let after = store.update(id, None);
    if id == store.len() - 1 {
        assert(after.drop_last() =~= store.drop_last());
    } else {
        lemma_emptying_foreign_slot(store.drop_last(), id, owner);
        assert(after.drop_last() =~= store.drop_last().update(id, None));
        assert(after.last() == store.last());
    }
}

/// Deleting a ticket removes it from its owner's list, keeps every other
/// ticket of that owner listed, leaves every other user's list as it was,
/// and keeps every ticket in the slot of its id. The same ticket cannot be
/// deleted a second time, and no other user could have deleted it.
pub proof fn law_delete_removes_exactly_that_ticket(store: Seq<Option<Ticket>>, user_id: u64, id: u64)
    requires
        ids_match_slots(store),
        deletable(store, user_id, id),
    ensures
        ({
            let t = store[id as int]->Some_0;
            let after = store.update(id as int, None);
            &&& !owned_tickets(after, user_id).contains(t)
            &&& forall|t2: Ticket|
                owned_tickets(store, user_id).contains(t2) && t2.id != id
                    ==> #[trigger] owned_tickets(after, user_id).contains(t2)
            &&& forall|t2: Ticket|
                #[trigger] owned_tickets(after, user_id).contains(t2) ==> owned_tickets(
                    store,
                    user_id,
                ).contains(t2)
            &&& forall|other: u64|
                other != user_id ==> #[trigger] owned_tickets(after, other) == owned_tickets(
                    store,
                    other,
                )
            &&& ids_match_slots(after)
            &&& forall|anyone: u64| !#[trigger] deletable(after, anyone, id)
            &&& forall|other: u64| other != user_id ==> !#[trigger] deletable(store, other, id)
        }),
{
    let t = store[id as int]->Some_0;
    let after = store.update(id as int, None);
    assert forall|i: int| 0 <= i < after.len() && #[trigger] after[i] is Some implies after[i]->Some_0.id
        == i by {
        assert(after[i] == store[i]);
    }
    law_listed_tickets_are_owned(after, user_id, t);
    if after.contains(Some(t)) {
        let i = choose|i: int| 0 <= i < after.len() && after[i] == Some(t);
        assert(after[i] is Some);
        assert(store[id as int] is Some);
    }
    assert forall|t2: Ticket|
        owned_tickets(store, user_id).contains(t2) && t2.id != id implies #[trigger] owned_tickets(
        after,
        user_id,
    ).contains(t2) by {
        law_listed_tickets_are_owned(store, user_id, t2);
        law_listed_tickets_are_owned(after, user_id, t2);
        let i = choose|i: int| 0 <= i < store.len() && store[i] == Some(t2);
        assert(store[i] is Some);
        assert(after[i] == Some(t2));
    }
    assert forall|t2: Ticket| #[trigger] owned_tickets(after, user_id).contains(t2) implies owned_tickets(
        store,
        user_id,
    ).contains(t2) by {
        law_listed_tickets_are_owned(store, user_id, t2);
        law_listed_tickets_are_owned(after, user_id, t2);
        let i = choose|i: int| 0 <= i < after.len() && after[i] == Some(t2);
        assert(store[i] == Some(t2));
    }
    assert forall|other: u64| other != user_id implies #[trigger] owned_tickets(after, other)
        == owned_tickets(store, other) by {
        lemma_emptying_foreign_slot(store, id as int, other);
    }
}

/// Deleting a ticket takes exactly that ticket out of its owner's list and
/// keeps the owner's other tickets in the order they had.
pub proof fn law_delete_keeps_order_of_rest(store: Seq<Option<Ticket>>, user_id: u64, id: u64)
    requires
        deletable(store, user_id, id),
    ensures
        exists|k: int|
            {
                &&& 0 <= k < owned_tickets(store, user_id).len()
                &&& #[trigger] owned_tickets(store, user_id)[k] == store[id as int]->Some_0
                &&& owned_tickets(store.update(id as int, None), user_id) == owned_tickets(
                    store,
                    user_id,
                ).remove(k)
            },
    decreases store.len(),
{
    let after = store.update(id as int, None);
    let prefix = store.drop_last();
    let before = owned_tickets(prefix, user_id);
    if id == store.len() - 1 {
        assert(after.drop_last() =~= prefix);
        let k = before.len() as int;
        assert(owned_tickets(store, user_id) == before.push(store[id as int]->Some_0));
        assert(before.push(store[id as int]->Some_0).remove(k) =~= before);
        assert(owned_tickets(store, user_id)[k] == store[id as int]->Some_0);
    } else {
        assert(deletable(prefix, user_id, id));
        law_delete_keeps_order_of_rest(prefix, user_id, id);
        let k = choose|k: int|
            {
                &&& 0 <= k < owned_tickets(prefix, user_id).len()
                &&& #[trigger] owned_tickets(prefix, user_id)[k] == prefix[id as int]->Some_0
                &&& owned_tickets(prefix.update(id as int, None), user_id) == owned_tickets(
                    prefix,
                    user_id,
                ).remove(k)
            };
        assert(after.drop_last() =~= prefix.update(id as int, None));
        assert(after.last() == store.last());
        match store.last() {
            Some(last) => {
                if last.user_id == user_id {
                    assert(before.push(last).remove(k) =~= before.remove(k).push(last));
                    assert(before.push(last)[k] == before[k]);
                }
            },
            None => {},
        }
        assert(owned_tickets(store, user_id)[k] == store[id as int]->Some_0);
    }
}

/// A user may delete exactly the tickets that are theirs: for every slot,
/// deleting `id` succeeds precisely when the slot exists, holds a ticket, and
/// that ticket's owner is the user.
pub proof fn law_delete_allowed_exactly_for_own_ticket(store: Seq<Option<Ticket>>, user_id: u64, id: u64)
    ensures
        deletable(store, user_id, id) <==> (id < store.len() && store[id as int] is Some
            && store[id as int]->Some_0.user_id == user_id),
{
}

/// Every ticket a user sees listed, that user can delete, and deleting it
/// gives back that very ticket.
pub proof fn law_listed_tickets_are_deletable(store: Seq<Option<Ticket>>, user_id: u64, t: Ticket)
    requires
        ids_match_slots(store),
        owned_tickets(store, user_id).contains(t),
    ensures
        deletable(store, user_id, t.id),
        store[t.id as int] == Some(t),
{
    law_listed_tickets_are_owned(store, user_id, t);
    let i = choose|i: int| 0 <= i < store.len() && store[i] == Some(t);
    assert(store[i] is Some);
}

/// The ticket created for a user with a title carries that user, that
/// title, and as its id the number of slots before it.
pub proof fn law_created_ticket_fields(store: Seq<Option<Ticket>>, user_id: u64, title: String)
    ensures
        ticket_created(store, user_id, title).id == store.len() as u64,
        ticket_created(store, user_id, title).user_id == user_id,
        ticket_created(store, user_id, title).title == title,
{
}

/// A ticket just created can be deleted by its creator, and deleting it
/// gives back exactly the created ticket.
pub proof fn law_created_ticket_deletable_by_creator(store: Seq<Option<Ticket>>, user_id: u64, title: String)
    requires
        store.len() <= u64::MAX,
    ensures
        ({
            let t = ticket_created(store, user_id, title);
            let after = store.push(Some(t));
            &&& deletable(after, user_id, t.id)
            &&& after[t.id as int]->Some_0 == t
        }),
{
}

impl View for TicketService {
    type V = Seq<Option<Ticket>>;

    closed spec fn view(&self) -> Seq<Option<Ticket>> {
        self.ticket_repo@
    }
}

impl TicketService {
    #[verifier::type_invariant]
    closed spec fn well_formed(&self) -> bool {
        ids_match_slots(self.ticket_repo@)
    }

    /// An empty store.
    pub fn new() -> (r: Result<Self, Error>)
        ensures
            r matches Ok(service) && service@ == Seq::<Option<Ticket>>::empty(),
            r matches Ok(service) && ids_match_slots(service@),
    {
        Ok(TicketService { ticket_repo: Vec::new() })
    }

    /// Creates a ticket with the requested title for the authenticated user.
    /// Its id is the number of tickets ever created before it.
    pub fn create_ticket(&mut self, auth_context: AuthContext, ticket_request: TicketRequest) -> (r:
        Result<Ticket, Error>)
        ensures
            r matches Ok(t) && t == ticket_created(
                old(self)@,
                auth_context.spec_user_id(),
                ticket_request.title,
            ),
            final(self)@ == old(self)@.push(Some(r->Ok_0)),
            ids_match_slots(final(self)@),
    {
        proof {
            use_type_invariant(&*self);
        }
        let id = self.ticket_repo.len() as u64;
        let ticket = Ticket { id, user_id: auth_context.user_id(), title: ticket_request.title };
        let mut repo: Vec<Option<Ticket>> = Vec::new();
        std::mem::swap(&mut repo, &mut self.ticket_repo);
        repo.push(Some(ticket.clone()));
        self.ticket_repo = repo;
        Ok(ticket)
    }

    /// The tickets of the authenticated user, in the order they were created.
    pub fn list_tickets(&self, auth_context: AuthContext) -> (r: Result<Vec<Ticket>, Error>)
        ensures
            r matches Ok(v) && v@ == owned_tickets(self@, auth_context.spec_user_id()),
            ids_match_slots(self@),
    {
        proof {
            use_type_invariant(self);
        }
        let user_id = auth_context.user_id();
        let mut tickets: Vec<Ticket> = Vec::new();
        let n = self.ticket_repo.len();
        for i in 0..n
            invariant
                n == self@.len(),
                tickets@ == owned_tickets(self@.take(i as int), user_id),
        {
            assert(self@.take(i + 1).drop_last() =~= self@.take(i as int));
            match &self.ticket_repo[i] {
                Some(ticket) => {
                    if ticket.user_id == user_id {
                        tickets.push(ticket.clone());
                    }
                },
                None => {},
            }
        }
        assert(self@.take(n as int) =~= self@);
        Ok(tickets)
    }

    /// Deletes the ticket `id` if it exists and belongs to the authenticated
    /// user, and returns it; otherwise fails with `TicketNotFound` and leaves
    /// the store as it was.
    pub fn delete_ticket(&mut self, auth_context: AuthContext, id: u64) -> (r: Result<Ticket, Error>)
        ensures
            deletable(old(self)@, auth_context.spec_user_id(), id) ==> {
                &&& r == Ok::<Ticket, Error>(old(self)@[id as int]->Some_0)
                &&& final(self)@ == old(self)@.update(id as int, None)
            },
            !deletable(old(self)@, auth_context.spec_user_id(), id) ==> {
                &&& r matches Err(Error::TicketNotFound { id: missing }) && missing == id
                &&& final(self)@ == old(self)@
            },
            ids_match_slots(final(self)@),
    {
        proof {
            use_type_invariant(&*self);
        }
        let user_id = auth_context.user_id();
        if id < self.ticket_repo.len() as u64 {
            let idx = id as usize;
            let owned = match &self.ticket_repo[idx] {
                Some(ticket) => ticket.user_id == user_id,
                None => false,
            };
            if owned {
                let mut repo: Vec<Option<Ticket>> = Vec::new();
                std::mem::swap(&mut repo, &mut self.ticket_repo);
                let taken = repo[idx].take();
                self.ticket_repo = repo;
                match taken {
                    Some(ticket) => {
                        return Ok(ticket);
                    },
                    None => {},
                }
            }
        }
        Err(Error::TicketNotFound { id })
    }
}

} // verus!
