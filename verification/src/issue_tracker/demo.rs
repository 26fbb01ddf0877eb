//! A tracker made of files: one file for each ticket, named by the ticket's
//! number, with the title on its first line and the body from the third on.
//!
//! Reading the directory and the files is the caller's part.

use vstd::prelude::*;
use crate::issue_tracker::{ticket_views, Ticket, TicketView, UpstreamError};
use crate::text::{
    decimal_of, join_from, joined, lines, lines_of, parse_u64, parsed_u64, texts, to_chars,
    u64_to_string,
};

verus! {

/// The adapter for a directory of ticket files.
pub struct DemoAdapter {
    source_folder: String,
}

/// The numbers that file names write, in the order of the names; a name that
/// writes no number is left out.
pub open spec fn numbered(names: Seq<Seq<char>>) -> Seq<u64>
    decreases names.len(),
{
    if names.len() == 0 {
        Seq::<u64>::empty()
    } else {
        let before = numbered(names.drop_last());
        match parsed_u64(names.last()) {
            Some(n) => before.push(n),
            None => before,
        }
    }
}

/// The lines of a ticket file from the third on.
pub open spec fn body_lines(lines: Seq<Seq<char>>) -> Seq<Seq<char>> {
    if lines.len() >= 2 {
        lines.skip(2)
    } else {
        Seq::<Seq<char>>::empty()
    }
}

/// The ticket that a file holds: none if the file has no line; otherwise its
/// first line is the title, its second line is passed over, and the lines
/// after it, joined by line feeds, are the body.
pub open spec fn ticket_in(id: u64, content: Seq<char>) -> Option<TicketView> {
    let lines = lines_of(content);
    if lines.len() == 0 {
        None
    } else {
        Some(TicketView { id, title: lines[0], text: joined(body_lines(lines), "\n"@) })
    }
}

/// The ticket for `id` in what was read of its file; none where the file
/// could not be read.
pub open spec fn ticket_of(id: u64, content: Option<String>) -> Option<TicketView> {
    match content {
        Some(c) => ticket_in(id, c@),
        None => None,
    }
}

/// The tickets in the first `n` files, each read as the file for the number
/// at its place in `ids`; files that hold no ticket are left out.
pub open spec fn demo_tickets_upto(ids: Seq<u64>, contents: Seq<Option<String>>, n: int) -> Seq<
    TicketView,
>
    decreases n,
{
    if n <= 0 {
        Seq::<TicketView>::empty()
    } else {
        let before = demo_tickets_upto(ids, contents, n - 1);
        match ticket_of(ids[n - 1], contents[n - 1]) {
            Some(t) => before.push(t),
            None => before,
        }
    }
}

/// The tickets in the files for `ids`, one content for each in order, as far
/// as both reach.
pub open spec fn demo_tickets(ids: Seq<u64>, contents: Seq<Option<String>>) -> Seq<TicketView> {
    demo_tickets_upto(
        ids,
        contents,
        if ids.len() <= contents.len() {
            ids.len() as int
        } else {
            contents.len() as int
        },
    )
}

impl DemoAdapter {
    /// The directory that holds the ticket files.
    pub closed spec fn folder(&self) -> Seq<char> {
        self.source_folder@
    }

    pub fn new(source_folder: String) -> (r: Self)
        ensures
            r.folder() == source_folder@,
    {
        Self { source_folder }
    }

    /// The directory that holds the ticket files.
    pub fn source_folder(&self) -> (r: &str)
        ensures
            r@ == self.folder(),
    {
        self.source_folder.as_str()
    }

    /// The name of the file of the ticket `id`.
    pub fn file_name(id: u64) -> (r: String)
        ensures
            r@ == decimal_of(id as nat),
    {
        u64_to_string(id)
    }

    /// The ticket that the content of the file for `id` holds.
    pub fn load_ticket(&self, id: u64, content: &str) -> (r: Option<Ticket>)
        ensures
            match r {
                Some(t) => ticket_in(id, content@) == Some(t@),
                None => ticket_in(id, content@) is None,
            },
    {
        let all = lines(content);
        if all.len() == 0 {
            return None;
        }
        let title = all[0].clone();
        let text = if all.len() >= 2 {
            join_from(&all, 2, "\n")
        } else {
            assert(joined(Seq::<Seq<char>>::empty(), "\n"@) =~= Seq::<char>::empty());
            String::new()
        };
        Some(Ticket::new(id, title, text))
    }

    /// The numbers of the tickets, from the names of the files in the directory.
    pub fn list_ticket_numbers(&self, names: &Vec<String>) -> (r: Result<Vec<u64>, UpstreamError>)
        ensures
            r matches Ok(ids) && ids@ == numbered(texts(names@)),
    {
        let mut ids: Vec<u64> = Vec::new();
        let mut i: usize = 0;
        assert(texts(names@).take(0) =~= Seq::<Seq<char>>::empty());
        while i < names.len()
            invariant
                i <= names@.len(),
                ids@ == numbered(texts(names@).take(i as int)),
            decreases names@.len() - i,
        {
            proof {
                let cur = texts(names@).take(i + 1);
                assert(cur.drop_last() =~= texts(names@).take(i as int));
                assert(cur.last() == names@[i as int]@);
            }
            let name = to_chars(names[i].as_str());
            match parse_u64(&name) {
                Some(n) => {
                    ids.push(n);
                },
                None => {},
            }
            i += 1;
        }
        assert(texts(names@).take(names@.len() as int) =~= texts(names@));
        Ok(ids)
    }

    /// The tickets in the files for `ids`, given what was read of each file
    /// in order; a file that could not be read or holds no ticket is passed
    /// over.
    pub fn get_ticket_details(&self, ids: &[u64], contents: &Vec<Option<String>>) -> (r: Result<
        Vec<Ticket>,
        UpstreamError,
    >)
        ensures
            r matches Ok(tickets) && ticket_views(tickets@) == demo_tickets(ids@, contents@),
    {
        let n: usize = if ids.len() <= contents.len() {
            ids.len()
        } else {
            contents.len()
        };
        let mut tickets: Vec<Ticket> = Vec::new();
        let mut i: usize = 0;
        assert(ticket_views(tickets@) =~= Seq::<TicketView>::empty());
        while i < n
            invariant
                i <= n,
                n <= ids@.len(),
                n <= contents@.len(),
                ticket_views(tickets@) == demo_tickets_upto(ids@, contents@, i as int),
            decreases n - i,
        {
            let found = match &contents[i] {
                Some(c) => self.load_ticket(ids[i], c.as_str()),
                None => None,
            };
            match found {
                Some(t) => {
                    let ghost before = ticket_views(tickets@);
                    tickets.push(t);
                    assert(ticket_views(tickets@) =~= before.push(t@));
                },
                None => {},
            }
            i += 1;
        }
        Ok(tickets)
    }
}

} // verus!
