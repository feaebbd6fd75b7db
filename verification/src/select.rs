//! Random selection of a title, and the steps of the random-book command.
//!
//! The command fetches one page of a genre's listing, picks a title from it,
//! searches for that title with limit 1, and prints the record found. The
//! caller performs each request and hands back what came of it.

use vstd::prelude::*;
use vstd::string::*;
use crate::error::ErrorKind;
use crate::json::{json_document, Json};
use crate::normalize::{
    name_search_outcome, normalize_name_search, normalize_subject, outcome_view, subject_outcome,
    titles_view,
};
use crate::present::{listing, render_books, Layout};
use crate::query::{name_search_url, name_url};
use crate::record::{texts, views, BookRecord, BookRecordView};

verus! {

/// The index picked in a listing of `len` entries by the draw: the draw
/// reduced modulo `len`. An empty listing has nothing to pick.
pub open spec fn picked_index(draw: u32, len: nat) -> Result<int, ErrorKind> {
    if len == 0 {
        Err(ErrorKind::NoResults)
    } else {
        Ok(draw as int % len as int)
    }
}

/// The title picked from a listing by the draw.
pub open spec fn picked_title(titles: Seq<Seq<char>>, draw: u32) -> Result<
    Seq<char>,
    ErrorKind,
> {
    match picked_index(draw, titles.len()) {
        Ok(i) => Ok(titles[i]),
        Err(e) => Err(e),
    }
}

/// Calls `rand::random` for a `u32`. Nothing is claimed of the value.
#[verifier::external_body]
fn draw_u32() -> u32 {
    rand::random::<u32>()
}

/// Reduces a draw to an index below `len`; `NoResults` for `len` 0.
pub fn pick_index(draw: u32, len: usize) -> (r: Result<usize, ErrorKind>)
    ensures
        match r {
            Ok(i) => picked_index(draw, len as nat) == Ok::<int, ErrorKind>(i as int) && i < len,
            Err(e) => picked_index(draw, len as nat) == Err::<int, ErrorKind>(e),
        },
{
    if len == 0 {
        Err(ErrorKind::NoResults)
    } else {
        Ok(draw as usize % len)
    }
}

/// Picks the title that the draw selects; `NoResults` for an empty listing.
pub fn select_title(titles: &Vec<String>, draw: u32) -> (r: Result<String, ErrorKind>)
    ensures
        match r {
            Ok(t) => picked_title(texts(titles@), draw) == Ok::<Seq<char>, ErrorKind>(t@),
            Err(e) => picked_title(texts(titles@), draw) == Err::<Seq<char>, ErrorKind>(e),
        },
{
    match pick_index(draw, titles.len()) {
        Ok(i) => Ok(titles[i].clone()),
        Err(e) => Err(e),
    }
}

/// Picks a title with a fresh draw. Every entry of a listing of one is that
/// entry; an empty listing gives `NoResults`, and only it does.
pub fn random_title(titles: &Vec<String>) -> (r: Result<String, ErrorKind>)
    ensures
        match r {
            Ok(t) => exists|draw: u32|
                #[trigger] picked_title(texts(titles@), draw) == Ok::<Seq<char>, ErrorKind>(t@),
            Err(e) => e == ErrorKind::NoResults && titles.len() == 0,
        },
        titles.len() == 1 ==> r is Ok && r->Ok_0@ == titles[0]@,
{
    let draw = draw_u32();
    let r = select_title(titles, draw);
    proof {
        if titles.len() == 1 {
            assert(draw as int % 1 == 0);
        }
    }
    r
}

/// Where the random-book command stands.
#[derive(Clone, Copy, Debug, PartialEq, Eq, Structural)]
pub enum Stage {
    /// The genre's listing has been asked for.
    AwaitingListing,
    /// A title was picked and its record has been asked for.
    AwaitingRecord,
    /// The command has printed its record or failed.
    Finished,
}

/// What came of a request.
#[derive(Debug)]
pub enum Event {
    /// The body of the response.
    Body(String),
    /// The request failed.
    TransportFailed,
}

/// What the caller does next.
#[derive(Debug)]
pub enum Action {
    /// Search for this title by name: request the address and hand back
    /// what comes of it.
    Get { title: String, url: String },
    /// Print this text; the command has succeeded.
    Print(String),
    /// Report the failure; the command ends.
    Fail(ErrorKind),
    /// Nothing: the command had ended before.
    Idle,
}

/// An [`Action`] with its text as a sequence of characters.
pub enum ActionView {
    Get { title: Seq<char>, url: Seq<char> },
    Print(Seq<char>),
    Fail(ErrorKind),
    Idle,
}

impl View for Action {
    type V = ActionView;

    open spec fn view(&self) -> ActionView {
        match self {
            Action::Get { title, url } => ActionView::Get { title: title@, url: url@ },
            Action::Print(text) => ActionView::Print(text@),
            Action::Fail(e) => ActionView::Fail(*e),
            Action::Idle => ActionView::Idle,
        }
    }
}

/// The step taken once the genre's listing is in: a failure is passed on,
/// an empty listing is `NoResults`, and a title picked by the draw is
/// searched for by name with limit 1.
pub open spec fn listing_step(titles: Result<Seq<Seq<char>>, ErrorKind>, draw: u32) -> (
    Stage,
    ActionView,
) {
    match titles {
        Ok(t) => match picked_title(t, draw) {
            Ok(title) => (
                Stage::AwaitingRecord,
                ActionView::Get { title: title, url: name_url(title, 1) },
            ),
            Err(e) => (Stage::Finished, ActionView::Fail(e)),
        },
        Err(e) => (Stage::Finished, ActionView::Fail(e)),
    }
}

/// The step taken once the picked title's search is in: a failure is passed
/// on, no record is `NoResults`, and what was found is printed as a title
/// search is.
pub open spec fn record_step(records: Result<Seq<BookRecordView>, ErrorKind>) -> (
    Stage,
    ActionView,
) {
    match records {
        Ok(r) => if r.len() == 0 {
            (Stage::Finished, ActionView::Fail(ErrorKind::NoResults))
        } else {
            (Stage::Finished, ActionView::Print(listing(Layout::Books, r)))
        },
        Err(e) => (Stage::Finished, ActionView::Fail(e)),
    }
}

/// The step from a stage on an event. `document` is what the body, if one
/// came, reads as.
pub open spec fn step(stage: Stage, arrived: bool, document: Option<Json>, draw: u32) -> (
    Stage,
    ActionView,
) {
    match stage {
        Stage::Finished => (Stage::Finished, ActionView::Idle),
        _ => if !arrived {
            (Stage::Finished, ActionView::Fail(ErrorKind::Transport))
        } else if stage == Stage::AwaitingListing {
            listing_step(subject_outcome(document), draw)
        } else {
            record_step(name_search_outcome(document))
        },
    }
}

/// Takes the step that follows the genre's listing.
pub fn on_listing(titles: Result<Vec<String>, ErrorKind>, draw: u32) -> (r: (Stage, Action))
    ensures
        (r.0, r.1@) == listing_step(titles_view(titles), draw),
{
    match titles {
        Ok(t) => match select_title(&t, draw) {
            Ok(title) => {
                let url = name_search_url(title.as_str(), 1);
                (Stage::AwaitingRecord, Action::Get { title, url })
            },
            Err(e) => (Stage::Finished, Action::Fail(e)),
        },
        Err(e) => (Stage::Finished, Action::Fail(e)),
    }
}

/// Takes the step that follows the search for the picked title.
pub fn on_records(records: Result<Vec<BookRecord>, ErrorKind>) -> (r: (Stage, Action))
    ensures
        (r.0, r.1@) == record_step(outcome_view(records)),
{
    match records {
        Ok(found) => if found.len() == 0 {
            (Stage::Finished, Action::Fail(ErrorKind::NoResults))
        } else {
            (Stage::Finished, Action::Print(render_books(&found)))
        },
        Err(e) => (Stage::Finished, Action::Fail(e)),
    }
}

/// Which body an event carries, if any.
pub open spec fn event_body(event: Event) -> Option<Seq<char>> {
    match event {
        Event::Body(b) => Some(b@),
        Event::TransportFailed => None,
    }
}

/// The step from a stage on an event, the body read as a document.
pub open spec fn event_step(stage: Stage, event: Event, draw: u32) -> (Stage, ActionView) {
    match event_body(event) {
        Some(b) => step(stage, true, json_document(b), draw),
        None => step(stage, false, None, draw),
    }
}

/// Advances the command by one event. A finished command stays finished.
pub fn advance(stage: Stage, event: &Event, draw: u32) -> (r: (Stage, Action))
    ensures
        (r.0, r.1@) == event_step(stage, *event, draw),
{
    match stage {
        Stage::Finished => (Stage::Finished, Action::Idle),
        Stage::AwaitingListing => match event {
            Event::Body(b) => on_listing(normalize_subject(b.as_str()), draw),
            Event::TransportFailed => (Stage::Finished, Action::Fail(ErrorKind::Transport)),
        },
        Stage::AwaitingRecord => match event {
            Event::Body(b) => on_records(normalize_name_search(b.as_str())),
            Event::TransportFailed => (Stage::Finished, Action::Fail(ErrorKind::Transport)),
        },
    }
}

/// Advances the command by one event with a fresh draw.
pub fn advance_random(stage: Stage, event: &Event) -> (r: (Stage, Action))
    ensures
        exists|draw: u32| (r.0, r.1@) == #[trigger] event_step(stage, *event, draw),
{
    let draw = draw_u32();
    advance(stage, event, draw)
}

} // verus!
