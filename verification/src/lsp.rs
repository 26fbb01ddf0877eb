//! What the editor is told: the text of a hover and the entries of a
//! completion. Talking to the editor is the caller's part.

use vstd::prelude::*;
use crate::analysis::{definition_at, item_at, ItemKind, Position, Range, State};
use crate::config::CommitElementDefinition;
use crate::issue_tracker::{Ticket, TicketView};
use crate::text::{decimal_of, owned, push_decimal};
use crate::text_util::{truncated, Ellipse};

verus! {

/// How long the short form of a title is at most, its ellipse not counted.
pub const SHORT_TITLE_LENGTH: usize = 20;

/// The ellipse that ends a shortened title.
pub open spec fn title_ellipse() -> Seq<char> {
    "…"@
}

/// A heading and, after an empty line, what stands under it.
pub open spec fn headed_text(heading: Seq<char>, body: Seq<char>) -> Seq<char> {
    "# "@ + heading + "\n\n"@ + body
}

/// What is shown for a ticket that was looked up: its title over its text,
/// or the word that the ticket was not found.
pub open spec fn ticket_hover_text(id: u64, ticket: Option<TicketView>) -> Seq<char> {
    match ticket {
        Some(t) => headed_text(t.title, t.text),
        None => "#"@ + decimal_of(id as nat) + " not found!"@,
    }
}

/// What a hover shows.
#[derive(Debug)]
pub enum Hovered {
    /// Nothing.
    Nothing,
    /// This text, for this stretch of the commit text.
    Text { text: String, range: Range },
    /// The ticket `id`, once it is looked up; `text` is the word that refers
    /// to it, to be shown where there is no tracker.
    Reference { id: u64, text: String, range: Range },
}

pub enum HoveredView {
    Nothing,
    Text { text: Seq<char>, range: Range },
    Reference { id: u64, text: Seq<char>, range: Range },
}

impl View for Hovered {
    type V = HoveredView;

    open spec fn view(&self) -> HoveredView {
        match self {
            Hovered::Nothing => HoveredView::Nothing,
            Hovered::Text { text, range } => HoveredView::Text { text: text@, range: *range },
            Hovered::Reference { id, text, range } => HoveredView::Reference {
                id: *id,
                text: text@,
                range: *range,
            },
        }
    }
}

/// What a hover over a definition shows, if there is one.
pub open spec fn definition_hover(info: Option<CommitElementDefinition>, range: Range) -> HoveredView {
    match info {
        Some(d) => HoveredView::Text { text: headed_text(d.summary@, d.description@), range },
        None => HoveredView::Nothing,
    }
}

/// What a hover at a position shows: for the type and the scope of the
/// header what the repository says about them, if it says anything; for a
/// reference to a ticket, the ticket.
pub open spec fn hovered(state: State, pos: Position) -> HoveredView {
    match item_at(state.lines(), state.ty(), state.scope(), pos) {
        None => HoveredView::Nothing,
        Some(item) => match item.kind {
            ItemKind::Ty => definition_hover(
                definition_at(state.types(), state.lines(), state.ty()),
                item.range,
            ),
            ItemKind::Scope => definition_hover(
                definition_at(state.scopes(), state.lines(), state.scope()),
                item.range,
            ),
            ItemKind::Ref(id) => HoveredView::Reference { id, text: item.text, range: item.range },
        },
    }
}

/// An entry of a completion: a ticket that can be referred to.
#[derive(Debug)]
pub struct CompletionEntry {
    /// What is inserted: `#` and the number.
    pub label: String,
    /// The title.
    pub detail: String,
    /// The title in short.
    pub description: String,
    /// The text.
    pub documentation: String,
}

pub struct CompletionEntryView {
    pub label: Seq<char>,
    pub detail: Seq<char>,
    pub description: Seq<char>,
    pub documentation: Seq<char>,
}

impl View for CompletionEntry {
    type V = CompletionEntryView;

    open spec fn view(&self) -> CompletionEntryView {
        CompletionEntryView {
            label: self.label@,
            detail: self.detail@,
            description: self.description@,
            documentation: self.documentation@,
        }
    }
}

/// The entry for a ticket.
pub open spec fn entry_of(t: TicketView) -> CompletionEntryView {
    CompletionEntryView {
        label: "#"@ + decimal_of(t.id as nat),
        detail: t.title,
        description: truncated(t.title, SHORT_TITLE_LENGTH as nat, title_ellipse()),
        documentation: t.text,
    }
}

/// The entries for tickets, in order.
pub open spec fn entries_of(tickets: Seq<TicketView>) -> Seq<CompletionEntryView> {
    Seq::new(tickets.len(), |i: int| entry_of(tickets[i]))
}

/// The views of a sequence of entries.
pub open spec fn entry_views(entries: Seq<CompletionEntry>) -> Seq<CompletionEntryView> {
    Seq::new(entries.len(), |i: int| entries[i]@)
}

fn headed(heading: &str, body: &str) -> (r: String)
    ensures
        r@ == headed_text(heading@, body@),
{
    let mut out = owned("# ");
    out.append(heading);
    out.append("\n\n");
    out.append(body);
    out
}

fn hover_definition(info: Option<CommitElementDefinition>, range: Range) -> (r: Hovered)
    ensures
        r@ == definition_hover(info, range),
{
    match info {
        Some(d) => Hovered::Text { text: headed(d.summary.as_str(), d.description.as_str()), range },
        None => Hovered::Nothing,
    }
}

/// What a hover at a position shows.
pub fn hover(state: &State, pos: Position) -> (r: Hovered)
    requires
        state.well_formed(),
    ensures
        r@ == hovered(*state, pos),
{
    let item = match state.lookup(pos) {
        Some(item) => item,
        None => {
            return Hovered::Nothing;
        },
    };
    match item.kind {
        ItemKind::Ty => hover_definition(state.commit_type_info(), item.range),
        ItemKind::Scope => hover_definition(state.commit_scope_info(), item.range),
        ItemKind::Ref(id) => Hovered::Reference { id, text: item.text, range: item.range },
    }
}

/// What is shown for the ticket `id` once it was looked up.
pub fn ticket_hover(id: u64, ticket: Option<&Ticket>) -> (r: String)
    ensures
        r@ == ticket_hover_text(
            id,
            match ticket {
                Some(t) => Some(t@),
                None => None,
            },
        ),
{
    match ticket {
        Some(t) => headed(t.title(), t.text()),
        None => {
            let mut out = owned("#");
            push_decimal(&mut out, id);
            out.append(" not found!");
            out
        },
    }
}

/// The entry of a completion for a ticket.
pub fn completion_entry(ticket: &Ticket) -> (r: CompletionEntry)
    ensures
        r@ == entry_of(ticket@),
{
    let mut label = owned("#");
    push_decimal(&mut label, ticket.id());
    let title = ticket.title();
    CompletionEntry {
        label,
        detail: owned(title),
        description: (&title).truncate_ellipse_with(SHORT_TITLE_LENGTH, "…"),
        documentation: owned(ticket.text()),
    }
}

/// The entries of a completion for the tickets; none if there are no tickets.
pub fn completion(tickets: &Vec<Ticket>) -> (r: Option<Vec<CompletionEntry>>)
    ensures
        match r {
            Some(entries) => tickets@.len() > 0 && entry_views(entries@) == entries_of(
                crate::issue_tracker::ticket_views(tickets@),
            ),
            None => tickets@.len() == 0,
        },
{
    if tickets.len() == 0 {
        return None;
    }
    let mut entries: Vec<CompletionEntry> = Vec::new();
    let mut i: usize = 0;
    let ghost all = entries_of(crate::issue_tracker::ticket_views(tickets@));
    while i < tickets.len()
        invariant
            i <= tickets@.len(),
            all == entries_of(crate::issue_tracker::ticket_views(tickets@)),
            entry_views(entries@) == all.take(i as int),
        decreases tickets@.len() - i,
    {
        let entry = completion_entry(&tickets[i]);
        let ghost before = entry_views(entries@);
        let ghost added = entry@;
        entries.push(entry);
        assert(entry_views(entries@) =~= before.push(added));
        assert(entry_views(entries@) =~= all.take(i + 1));
        i += 1;
    }
    assert(entry_views(entries@) =~= all);
    Some(entries)
}

} // verus!
