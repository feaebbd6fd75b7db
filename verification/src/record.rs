//! The canonical book record and its mathematical view.

use vstd::prelude::*;

verus! {

/// One book, as every response shape is reduced to it.
#[derive(Debug, PartialEq, Eq)]
pub struct BookRecord {
    pub title: String,
    pub authors: Vec<String>,
    pub isbn: String,
    pub url: Option<String>,
}

/// What a [`BookRecord`] says, as sequences of characters.
pub struct BookRecordView {
    pub title: Seq<char>,
    pub authors: Seq<Seq<char>>,
    pub isbn: Seq<char>,
    pub url: Option<Seq<char>>,
}

/// The texts of a list of strings, in order.
pub open spec fn texts(v: Seq<String>) -> Seq<Seq<char>> {
    Seq::new(v.len(), |i: int| v[i]@)
}

/// The views of a list of records, in order.
pub open spec fn views(v: Seq<BookRecord>) -> Seq<BookRecordView> {
    Seq::new(v.len(), |i: int| v[i]@)
}

impl View for BookRecord {
    type V = BookRecordView;

    open spec fn view(&self) -> BookRecordView {
        BookRecordView {
            title: self.title@,
            authors: texts(self.authors@),
            isbn: self.isbn@,
            url: match self.url {
                Some(u) => Some(u@),
                None => None,
            },
        }
    }
}

impl BookRecord {
    /// A record is well formed when it has a title.
    pub open spec fn well_formed(&self) -> bool {
        self.title@.len() > 0
    }
}

/// The entries of `s` that hold something, in order.
pub open spec fn keep_some<T>(s: Seq<Option<T>>) -> Seq<T>
    decreases s.len(),
{
    if s.len() == 0 {
        Seq::empty()
    } else {
        match s.last() {
            Some(x) => keep_some(s.drop_last()).push(x),
            None => keep_some(s.drop_last()),
        }
    }
}

/// The stand-in for an absent author or ISBN.
pub open spec fn unknown() -> Seq<char> {
    "Unknown"@
}

/// The catalogue's origin, which a work's key is appended to.
pub open spec fn origin() -> Seq<char> {
    "https://openlibrary.org"@
}

} // verus!
