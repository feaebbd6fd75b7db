//! Queries and the request address of each.

use vstd::prelude::*;
use vstd::string::*;
use crate::text::{decimal, decimal_string};

verus! {

/// What the user asks for.
#[derive(Debug)]
pub enum Query {
    /// Books by title, at most `limit` of them.
    NameSearch { text: String, limit: u32 },
    /// The volumes with one ISBN, which is passed on as given.
    IsbnSearch { isbn: String },
    /// Works on a subject, at most `limit` of them.
    SubjectSearch { subject: String, limit: u32 },
    /// One book of a genre, picked at random.
    RandomGenre { genre: String },
}

/// The limit of a search when the user gives none.
pub const DEFAULT_LIMIT: u32 = 2;

/// The lowercase form of a text, as `str::to_lowercase` computes it.
pub uninterp spec fn lowercase(s: Seq<char>) -> Seq<char>;

/// Calls `str::to_lowercase`. The claim: the result depends on the text
/// alone, so it is `lowercase` of the text.
#[verifier::external_body]
fn to_lowercase(s: &str) -> (r: String)
    ensures
        r@ == lowercase(s@),
{
    s.to_lowercase()
}

/// Calls `rand::random` for a `u8`. Nothing is claimed of the value.
#[verifier::external_body]
fn draw_u8() -> u8 {
    rand::random::<u8>()
}

/// The address of a title search.
pub open spec fn name_url(text: Seq<char>, limit: nat) -> Seq<char> {
    "https://openlibrary.org/search.json?title="@ + text + "&limit="@ + decimal(limit)
}

/// The address of an ISBN lookup.
pub open spec fn isbn_url(isbn: Seq<char>) -> Seq<char> {
    "https://openlibrary.org/api/volumes/brief/isbn/"@ + isbn + ".json"@
}

/// The address of a subject listing, the subject already in the case wanted.
pub open spec fn subject_url(subject: Seq<char>, limit: nat) -> Seq<char> {
    "https://openlibrary.org/subjects/"@ + subject + ".json?limit="@ + decimal(limit)
}

/// The address of one page of a genre's listing.
pub open spec fn genre_url(genre: Seq<char>, limit: nat, offset: nat) -> Seq<char> {
    subject_url(genre, limit) + "&offset="@ + decimal(offset)
}

impl Query {
    /// A limit, where the query has one, is positive.
    pub open spec fn well_formed(self) -> bool {
        match self {
            Query::NameSearch { text, limit } => limit > 0,
            Query::SubjectSearch { subject, limit } => limit > 0,
            _ => true,
        }
    }

    /// The request address. The two draws place the page of a random-genre
    /// request and play no part in the other three.
    pub open spec fn spec_url(self, limit_draw: u8, offset_draw: u8) -> Seq<char> {
        match self {
            Query::NameSearch { text, limit } => name_url(text@, limit as nat),
            Query::IsbnSearch { isbn } => isbn_url(isbn@),
            Query::SubjectSearch { subject, limit } => subject_url(
                lowercase(subject@),
                limit as nat,
            ),
            Query::RandomGenre { genre } => genre_url(
                genre@,
                limit_draw as nat,
                offset_draw as nat,
            ),
        }
    }

    /// The line that reports that the query failed.
    pub open spec fn spec_failure_message(self) -> Seq<char> {
        match self {
            Query::NameSearch { text, limit } => "No books found with the name: "@ + text@,
            Query::IsbnSearch { isbn } => "No books found with the ISBN: "@ + isbn@,
            Query::SubjectSearch { subject, limit } => "No books found with the subject: "@
                + subject@,
            Query::RandomGenre { genre } => "No books found with the genre: "@ + genre@,
        }
    }

    /// Whether every limit is positive.
    pub fn is_well_formed(&self) -> (r: bool)
        ensures
            r == self.well_formed(),
    {
        match self {
            Query::NameSearch { text, limit } => *limit > 0,
            Query::SubjectSearch { subject, limit } => *limit > 0,
            _ => true,
        }
    }

    /// Builds the request address from the query and the two page draws.
    pub fn url_with(&self, limit_draw: u8, offset_draw: u8) -> (r: String)
        ensures
            r@ == self.spec_url(limit_draw, offset_draw),
    {
        match self {
            Query::NameSearch { text, limit } => name_search_url(text.as_str(), *limit),
            Query::IsbnSearch { isbn } => {
                let mut url = String::from_str("https://openlibrary.org/api/volumes/brief/isbn/");
                url.append(isbn.as_str());
                url.append(".json");
                url
            },
            Query::SubjectSearch { subject, limit } => {
                let lowered = to_lowercase(subject.as_str());
                subject_listing_url(lowered.as_str(), *limit)
            },
            Query::RandomGenre { genre } => {
                let mut url = subject_listing_url(genre.as_str(), limit_draw as u32);
                url.append("&offset=");
                let offset = decimal_string(offset_draw as u64);
                url.append(offset.as_str());
                url
            },
        }
    }

    /// Builds the request address. For a random-genre query the page's limit
    /// and offset are drawn afresh, each from 0 to 255.
    pub fn url(&self) -> (r: String)
        ensures
            exists|limit_draw: u8, offset_draw: u8|
                r@ == #[trigger] self.spec_url(limit_draw, offset_draw),
            !(self is RandomGenre) ==> r@ == self.spec_url(0, 0),
    {
        match self {
            Query::RandomGenre { genre } => {
                let limit_draw = draw_u8();
                let offset_draw = draw_u8();
                self.url_with(limit_draw, offset_draw)
            },
            _ => self.url_with(0, 0),
        }
    }

    /// The line that reports that the query failed.
    pub fn failure_message(&self) -> (r: String)
        ensures
            r@ == self.spec_failure_message(),
    {
        match self {
            Query::NameSearch { text, limit } => {
                String::from_str("No books found with the name: ").concat(text.as_str())
            },
            Query::IsbnSearch { isbn } => {
                String::from_str("No books found with the ISBN: ").concat(isbn.as_str())
            },
            Query::SubjectSearch { subject, limit } => {
                String::from_str("No books found with the subject: ").concat(subject.as_str())
            },
            Query::RandomGenre { genre } => {
                String::from_str("No books found with the genre: ").concat(genre.as_str())
            },
        }
    }
}

/// Builds the address of a title search.
pub fn name_search_url(text: &str, limit: u32) -> (r: String)
    ensures
        r@ == name_url(text@, limit as nat),
{
    let mut url = String::from_str("https://openlibrary.org/search.json?title=");
    url.append(text);
    url.append("&limit=");
    let count = decimal_string(limit as u64);
    url.append(count.as_str());
    url
}

/// Builds the address of a subject listing.
pub fn subject_listing_url(subject: &str, limit: u32) -> (r: String)
    ensures
        r@ == subject_url(subject@, limit as nat),
{
    let mut url = String::from_str("https://openlibrary.org/subjects/");
    url.append(subject);
    url.append(".json?limit=");
    let count = decimal_string(limit as u64);
    url.append(count.as_str());
    url
}

} // verus!
