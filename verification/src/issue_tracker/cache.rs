//! The tickets that were fetched, by number.
//!
//! The cache is the sequence of its tickets in the order of their numbers,
//! each number at most once. A ticket that is stored takes the place of the
//! one with its number; nothing is ever taken out.

use vstd::prelude::*;
use crate::issue_tracker::{ticket_views, Ticket, TicketView};

verus! {

/// The numbers rise strictly, so that none occurs twice.
pub open spec fn sorted_by_id(c: Seq<TicketView>) -> bool {
    forall|i: int, j: int| 0 <= i < j < c.len() ==> c[i].id < c[j].id
}

/// The first index at or after `from` whose ticket has a number of at least
/// `id`, or the length of `c`.
pub open spec fn lower_bound(c: Seq<TicketView>, id: u64, from: int) -> int
    decreases c.len() - from,
{
    if from < 0 || from >= c.len() {
        c.len() as int
    } else if c[from].id >= id {
        from
    } else {
        lower_bound(c, id, from + 1)
    }
}

/// The ticket with the number `id`, if the cache holds one.
pub open spec fn lookup(c: Seq<TicketView>, id: u64) -> Option<TicketView> {
    let p = lower_bound(c, id, 0);
    if p < c.len() && c[p].id == id {
        Some(c[p])
    } else {
        None
    }
}

/// The cache after `t` was stored: `t` stands where the ticket with its
/// number stood, or, if there was none, where its number belongs.
pub open spec fn stored(c: Seq<TicketView>, t: TicketView) -> Seq<TicketView> {
    let p = lower_bound(c, t.id, 0);
    if p < c.len() && c[p].id == t.id {
        c.update(p, t)
    } else {
        c.insert(p, t)
    }
}

/// The cache after the tickets were stored one after the other.
pub open spec fn merged(c: Seq<TicketView>, tickets: Seq<TicketView>) -> Seq<TicketView>
    decreases tickets.len(),
{
    if tickets.len() == 0 {
        c
    } else {
        stored(merged(c, tickets.drop_last()), tickets.last())
    }
}

pub proof fn lemma_lower_bound(c: Seq<TicketView>, id: u64, from: int)
    requires
        0 <= from <= c.len(),
    ensures
        from <= lower_bound(c, id, from) <= c.len(),
        lower_bound(c, id, from) < c.len() ==> c[lower_bound(c, id, from)].id >= id,
        forall|i: int| from <= i < lower_bound(c, id, from) ==> (#[trigger] c[i]).id < id,
    decreases c.len() - from,
{
    if from < c.len() && c[from].id < id {
        lemma_lower_bound(c, id, from + 1);
    }
}

/// In a sorted cache a ticket is found exactly where its number is.
pub proof fn lemma_lookup_at(c: Seq<TicketView>, i: int)
    requires
        sorted_by_id(c),
        0 <= i < c.len(),
    ensures
        lower_bound(c, c[i].id, 0) == i,
        lookup(c, c[i].id) == Some(c[i]),
{
    lemma_lower_bound(c, c[i].id, 0);
    let p = lower_bound(c, c[i].id, 0);
    if p < i {
        assert(c[p].id < c[i].id);
    } else if p > i {
        assert(c[i].id < c[i].id);
    }
}

/// What is not found is in no place of a sorted cache.
pub proof fn lemma_lookup_none(c: Seq<TicketView>, id: u64)
    requires
        sorted_by_id(c),
        lookup(c, id) is None,
    ensures
        forall|i: int| 0 <= i < c.len() ==> (#[trigger] c[i]).id != id,
{
    assert forall|i: int| 0 <= i < c.len() implies (#[trigger] c[i]).id != id by {
        if c[i].id == id {
            lemma_lookup_at(c, i);
        }
    }
}

/// Storing keeps a cache sorted.
pub proof fn lemma_stored_sorted(c: Seq<TicketView>, t: TicketView)
    requires
        sorted_by_id(c),
    ensures
        sorted_by_id(stored(c, t)),
{
    lemma_lower_bound(c, t.id, 0);
    let p = lower_bound(c, t.id, 0);
    let s = stored(c, t);
    assert forall|i: int, j: int| 0 <= i < j < s.len() implies s[i].id < s[j].id by {
        if p < c.len() && c[p].id == t.id {
            if i == p {
                assert(c[p].id < c[j].id);
            } else if j == p {
                assert(c[i].id < c[p].id);
            } else {
                assert(c[i].id < c[j].id);
            }
        } else {
            if i < p && j < p {
                assert(c[i].id < c[j].id);
            } else if i < p && j == p {
                assert(c[i].id < t.id);
            } else if i < p && j > p {
                assert(c[i].id < c[j - 1].id);
            } else if i == p {
                if p < c.len() {
                    assert(c[p].id > t.id);
                    if j - 1 > p {
                        assert(c[p].id < c[j - 1].id);
                    }
                }
            } else {
                assert(c[i - 1].id < c[j - 1].id);
            }
        }
    }
}

/// A ticket that was stored is found under its number.
pub proof fn lemma_stored_found(c: Seq<TicketView>, t: TicketView)
    requires
        sorted_by_id(c),
    ensures
        lookup(stored(c, t), t.id) == Some(t),
{
    lemma_lower_bound(c, t.id, 0);
    lemma_stored_sorted(c, t);
    let p = lower_bound(c, t.id, 0);
    let s = stored(c, t);
    assert(s[p] == t);
    lemma_lookup_at(s, p);
}

/// Storing a ticket changes nothing about the tickets with other numbers.
pub proof fn lemma_stored_others(c: Seq<TicketView>, t: TicketView, id: u64)
    requires
        sorted_by_id(c),
        id != t.id,
    ensures
        lookup(stored(c, t), id) == lookup(c, id),
{
    lemma_lower_bound(c, t.id, 0);
    lemma_stored_sorted(c, t);
    let p = lower_bound(c, t.id, 0);
    let s = stored(c, t);
    let replaced = p < c.len() && c[p].id == t.id;
    match lookup(c, id) {
        Some(found) => {
            lemma_lower_bound(c, id, 0);
            let q = lower_bound(c, id, 0);
            let q2 = if replaced || q < p {
                q
            } else {
                q + 1
            };
            assert(s[q2] == c[q]);
            lemma_lookup_at(s, q2);
        },
        None => {
            lemma_lookup_none(c, id);
            if lookup(s, id) is Some {
                lemma_lower_bound(s, id, 0);
                let q = lower_bound(s, id, 0);
                assert(s[q].id == id);
                if replaced {
                    assert(q != p);
                    assert(s[q] == c[q]);
                } else if q < p {
                    assert(s[q] == c[q]);
                } else {
                    assert(q != p);
                    assert(s[q] == c[q - 1]);
                }
            }
        },
    }
}

/// Merging keeps a cache sorted.
pub proof fn lemma_merged_sorted(c: Seq<TicketView>, tickets: Seq<TicketView>)
    requires
        sorted_by_id(c),
    ensures
        sorted_by_id(merged(c, tickets)),
    decreases tickets.len(),
{
    if tickets.len() > 0 {
        lemma_merged_sorted(c, tickets.drop_last());
        lemma_stored_sorted(merged(c, tickets.drop_last()), tickets.last());
    }
}

/// No ticket leaves the cache by storing: what was found before is found
/// after, under the same number.
pub proof fn lemma_stored_keeps(c: Seq<TicketView>, t: TicketView, id: u64)
    requires
        sorted_by_id(c),
        lookup(c, id) is Some,
    ensures
        lookup(stored(c, t), id) is Some,
{
    if id == t.id {
        lemma_stored_found(c, t);
    } else {
        lemma_stored_others(c, t, id);
    }
}

/// The cache of tickets.
pub struct TicketCache {
    tickets: Vec<Ticket>,
}

impl View for TicketCache {
    type V = Seq<TicketView>;

    closed spec fn view(&self) -> Seq<TicketView> {
        ticket_views(self.tickets@)
    }
}

impl TicketCache {
    /// The tickets stand in the order of their numbers, each number once.
    pub open spec fn well_formed(&self) -> bool {
        sorted_by_id(self@)
    }

    /// Whether the tickets stand in the order of their numbers, each number
    /// once.
    pub fn is_well_formed(&self) -> (r: bool)
        ensures
            r == self.well_formed(),
    {
        let ghost views = ticket_views(self.tickets@);
        if self.tickets.len() < 2 {
            return true;
        }
        let mut i: usize = 1;
        while i < self.tickets.len()
            invariant
                1 <= i <= self.tickets@.len(),
                views == ticket_views(self.tickets@),
                sorted_by_id(views.take(i as int)),
            decreases self.tickets@.len() - i,
        {
            if self.tickets[i - 1].id() >= self.tickets[i].id() {
                assert(views[i - 1].id >= views[i as int].id);
                return false;
            }
            proof {
                let shorter = views.take(i as int);
                let longer = views.take(i + 1);
                assert forall|a: int, b: int| 0 <= a < b < longer.len() implies (#[trigger] longer[a]).id
                    < (#[trigger] longer[b]).id by {
                    if b < i {
                        assert(shorter[a].id < shorter[b].id);
                    } else if a < i - 1 {
                        assert(shorter[a].id < shorter[i - 1].id);
                    }
                }
            }
            i += 1;
        }
        assert(views.take(self.tickets@.len() as int) =~= views);
        true
    }

    /// An empty cache.
    pub fn new() -> (r: Self)
        ensures
            r@ == Seq::<TicketView>::empty(),
            r.well_formed(),
    {
        let r = Self { tickets: Vec::new() };
        assert(ticket_views(r.tickets@) =~= Seq::<TicketView>::empty());
        r
    }

    /// Index of the first ticket whose number is at least `id`.
    fn position(&self, id: u64) -> (p: usize)
        ensures
            p == lower_bound(self@, id, 0),
            p <= self@.len(),
            self@.len() == self.tickets@.len(),
    {
        let mut i: usize = 0;
        while i < self.tickets.len() && self.tickets[i].id() < id
            invariant
                i <= self.tickets@.len(),
                lower_bound(ticket_views(self.tickets@), id, 0) == lower_bound(
                    ticket_views(self.tickets@),
                    id,
                    i as int,
                ),
            decreases self.tickets@.len() - i,
        {
            i += 1;
        }
        i
    }

    /// The ticket with the number `id`, if the cache holds one.
    pub fn get(&self, id: u64) -> (r: Option<&Ticket>)
        ensures
            match r {
                Some(t) => lookup(self@, id) == Some(t@),
                None => lookup(self@, id) is None,
            },
    {
        let p = self.position(id);
        if p < self.tickets.len() && self.tickets[p].id() == id {
            Some(&self.tickets[p])
        } else {
            None
        }
    }

    /// Stores a ticket in place of the one with its number, if there is one.
    pub fn insert(&mut self, ticket: Ticket)
        requires
            old(self).well_formed(),
        ensures
            final(self)@ == stored(old(self)@, ticket@),
            final(self).well_formed(),
    {
        proof {
            lemma_stored_sorted(self@, ticket@);
        }
        let p = self.position(ticket.id());
        let ghost before = ticket_views(self.tickets@);
        if p < self.tickets.len() && self.tickets[p].id() == ticket.id() {
            self.tickets.set(p, ticket);
            assert(ticket_views(self.tickets@) =~= before.update(p as int, ticket@));
        } else {
            self.tickets.insert(p, ticket);
            assert(ticket_views(self.tickets@) =~= before.insert(p as int, ticket@));
        }
    }

    /// Stores the tickets one after the other.
    pub fn extend(&mut self, tickets: &Vec<Ticket>)
        requires
            old(self).well_formed(),
        ensures
            final(self)@ == merged(old(self)@, ticket_views(tickets@)),
            final(self).well_formed(),
    {
        let ghost all = ticket_views(tickets@);
        let ghost start = self@;
        let mut i: usize = 0;
        assert(all.take(0) =~= Seq::<TicketView>::empty());
        while i < tickets.len()
            invariant
                i <= tickets@.len(),
                all == ticket_views(tickets@),
                self@ == merged(start, all.take(i as int)),
                sorted_by_id(self@),
            decreases tickets@.len() - i,
        {
            proof {
                let cur = all.take(i + 1);
                assert(cur.drop_last() =~= all.take(i as int));
                assert(cur.last() == tickets@[i as int]@);
            }
            self.insert(tickets[i].clone());
            i += 1;
        }
        assert(all.take(tickets@.len() as int) =~= all);
    }

    /// A copy of every ticket, in the order of the numbers.
    pub fn values(&self) -> (r: Vec<Ticket>)
        ensures
            ticket_views(r@) == self@,
    {
        let mut out: Vec<Ticket> = Vec::new();
        let mut i: usize = 0;
        while i < self.tickets.len()
            invariant
                i <= self.tickets@.len(),
                ticket_views(out@) == ticket_views(self.tickets@).take(i as int),
            decreases self.tickets@.len() - i,
        {
            let copy = self.tickets[i].clone();
            let ghost before = ticket_views(out@);
            out.push(copy);
            assert(ticket_views(out@) =~= before.push(copy@));
            assert(ticket_views(out@) =~= ticket_views(self.tickets@).take(i + 1));
            i += 1;
        }
        assert(ticket_views(out@) =~= ticket_views(self.tickets@));
        out
    }
}

} // verus!
