//! The text that each search command prints for a response body.

use vstd::prelude::*;
use crate::error::ErrorKind;
use crate::json::{json_document, Json};
use crate::normalize::{
    isbn_search_outcome, name_search_outcome, normalize_isbn_search, normalize_name_search,
    normalize_subject, subject_outcome,
};
use crate::present::{
    listing, render_books, render_isbn_books, render_subject_titles, title_listing, Layout,
};

verus! {

/// A text or a failure, the text taken by its view.
pub open spec fn text_view(r: Result<String, ErrorKind>) -> Result<Seq<char>, ErrorKind> {
    match r {
        Ok(t) => Ok(t@),
        Err(e) => Err(e),
    }
}

/// What a title search prints, given the document read from the body.
pub open spec fn name_search_text(document: Option<Json>) -> Result<Seq<char>, ErrorKind> {
    match name_search_outcome(document) {
        Ok(records) => Ok(listing(Layout::Books, records)),
        Err(e) => Err(e),
    }
}

/// What an ISBN lookup prints, given the document read from the body.
pub open spec fn isbn_search_text(document: Option<Json>) -> Result<Seq<char>, ErrorKind> {
    match isbn_search_outcome(document) {
        Ok(records) => Ok(listing(Layout::Matches, records)),
        Err(e) => Err(e),
    }
}

/// What a subject search prints, given the document read from the body.
pub open spec fn subject_text(document: Option<Json>) -> Result<Seq<char>, ErrorKind> {
    match subject_outcome(document) {
        Ok(titles) => Ok(title_listing(titles)),
        Err(e) => Err(e),
    }
}

/// The output of a title search for a response body.
pub fn name_search_output(body: &str) -> (r: Result<String, ErrorKind>)
    ensures
        text_view(r) == name_search_text(json_document(body@)),
{
    match normalize_name_search(body) {
        Ok(records) => Ok(render_books(&records)),
        Err(e) => Err(e),
    }
}

/// The output of an ISBN lookup for a response body.
pub fn isbn_search_output(body: &str) -> (r: Result<String, ErrorKind>)
    ensures
        text_view(r) == isbn_search_text(json_document(body@)),
{
    match normalize_isbn_search(body) {
        Ok(records) => Ok(render_isbn_books(&records)),
        Err(e) => Err(e),
    }
}

/// The output of a subject search for a response body.
pub fn subject_output(body: &str) -> (r: Result<String, ErrorKind>)
    ensures
        text_view(r) == subject_text(json_document(body@)),
{
    match normalize_subject(body) {
        Ok(titles) => Ok(render_subject_titles(&titles)),
        Err(e) => Err(e),
    }
}

} // verus!
