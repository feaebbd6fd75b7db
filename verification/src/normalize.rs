//! Extraction of book records from the three response shapes.
//!
//! A title search lists documents under `docs` (or `works`); an ISBN lookup
//! lists `items` that point into a `records` map; a subject listing lists
//! `works`. An entry without what it must have is dropped and the batch goes
//! on; only a body that is no JSON, or lacks the listing array, fails.

use vstd::prelude::*;
use vstd::string::*;
use crate::error::ErrorKind;
use crate::json::{json_document, parse, Json};
use crate::record::{keep_some, origin, texts, unknown, views, BookRecord, BookRecordView};

verus! {

/// Whether a document carries a non-empty string under `title`.
pub open spec fn has_title(doc: Json) -> bool {
    match doc.field_text("title"@) {
        Some(t) => t.len() > 0,
        None => false,
    }
}

/// The first element of the array under `key` if it is a string, else
/// "Unknown" (no array, an empty one, or a first element of another kind).
pub open spec fn first_or_unknown(doc: Json, key: Seq<char>) -> Seq<char> {
    match doc.field_items(key) {
        Some(items) => if items.len() > 0 {
            match items[0].text() {
                Some(t) => t,
                None => unknown(),
            }
        } else {
            unknown()
        },
        None => unknown(),
    }
}

/// The record of one title-search document: none without a title or a key.
pub open spec fn name_record(doc: Json) -> Option<BookRecordView> {
    if has_title(doc) && doc.field_text("key"@) is Some {
        Some(
            BookRecordView {
                title: doc.field_text("title"@).unwrap(),
                authors: seq![first_or_unknown(doc, "author_name"@)],
                isbn: first_or_unknown(doc, "isbn"@),
                url: Some(origin() + doc.field_text("key"@).unwrap()),
            },
        )
    } else {
        None
    }
}

/// The records of a list of title-search documents, in order.
pub open spec fn name_records(docs: Seq<Json>) -> Seq<BookRecordView> {
    keep_some(Seq::new(docs.len(), |i: int| name_record(docs[i])))
}

/// The array that lists a title search's documents: `docs`, else `works`.
pub open spec fn name_listing(top: Json) -> Option<Seq<Json>> {
    match top.field_items("docs"@) {
        Some(docs) => Some(docs),
        None => top.field_items("works"@),
    }
}

/// What a title-search body yields, given the document read from it.
pub open spec fn name_search_outcome(document: Option<Json>) -> Result<
    Seq<BookRecordView>,
    ErrorKind,
> {
    match document {
        Some(top) => match name_listing(top) {
            Some(docs) => Ok(name_records(docs)),
            None => Err(ErrorKind::Parse),
        },
        None => Err(ErrorKind::Parse),
    }
}

/// A list of records or a failure, with the records taken by their views.
pub open spec fn outcome_view(r: Result<Vec<BookRecord>, ErrorKind>) -> Result<
    Seq<BookRecordView>,
    ErrorKind,
> {
    match r {
        Ok(v) => Ok(views(v@)),
        Err(e) => Err(e),
    }
}

/// Some prefix of the entries kept, extended by one entry.
pub proof fn lemma_keep_some_step<T>(s: Seq<Option<T>>, n: int)
    requires
        0 <= n < s.len(),
    ensures
        keep_some(s.take(n + 1)) == match s[n] {
            Some(x) => keep_some(s.take(n)).push(x),
            None => keep_some(s.take(n)),
        },
{
    assert(s.take(n + 1).drop_last() =~= s.take(n));
    assert(s.take(n + 1).last() == s[n]);
}

/// The first element of the array under `key`, or "Unknown".
pub fn first_or_unknown_string(doc: &Json, key: &str) -> (r: String)
    ensures
        r@ == first_or_unknown(*doc, key@),
{
    match doc.get_array(key) {
        Some(items) => {
            if items.len() > 0 {
                match items[0].as_str() {
                    Some(t) => String::from_str(t),
                    None => String::from_str("Unknown"),
                }
            } else {
                String::from_str("Unknown")
            }
        },
        None => String::from_str("Unknown"),
    }
}

/// Reduces one title-search document to a record. A document without a
/// non-empty title, or without a key, gives `MissingField`.
pub fn extract_name_record(doc: &Json) -> (r: Result<BookRecord, ErrorKind>)
    ensures
        match r {
            Ok(record) => name_record(*doc) == Some(record@) && record.well_formed(),
            Err(e) => e == ErrorKind::MissingField && name_record(*doc) is None,
        },
{
    let title = match doc.get_str("title") {
        Some(t) => t,
        None => { return Err(ErrorKind::MissingField); },
    };
    if title.is_empty() {
        return Err(ErrorKind::MissingField);
    }
    let key = match doc.get_str("key") {
        Some(k) => k,
        None => { return Err(ErrorKind::MissingField); },
    };
    let author = first_or_unknown_string(doc, "author_name");
    let isbn = first_or_unknown_string(doc, "isbn");
    let mut url = String::from_str("https://openlibrary.org");
    url.append(key);
    let mut authors: Vec<String> = Vec::new();
    authors.push(author);
    let record = BookRecord { title: String::from_str(title), authors, isbn, url: Some(url) };
    proof {
        assert(record@.authors =~= seq![first_or_unknown(*doc, "author_name"@)]);
    }
    Ok(record)
}

/// Reduces a list of title-search documents to the records of those that
/// have a title and a key, in order.
pub fn extract_name_records(docs: &Vec<Json>) -> (r: Vec<BookRecord>)
    ensures
        views(r@) == name_records(docs@),
        forall|i: int| 0 <= i < r.len() ==> (#[trigger] r[i]).well_formed(),
{
    let ghost candidates = Seq::new(docs@.len(), |i: int| name_record(docs@[i]));
    let mut out: Vec<BookRecord> = Vec::new();
    let mut n: usize = 0;
    proof {
        assert(views(out@) =~= keep_some(candidates.take(0)));
    }
    while n < docs.len()
        invariant
            n <= docs.len(),
            candidates == Seq::new(docs@.len(), |i: int| name_record(docs@[i])),
            views(out@) == keep_some(candidates.take(n as int)),
            forall|i: int| 0 <= i < out.len() ==> (#[trigger] out[i]).well_formed(),
        decreases docs.len() - n,
    {
        proof {
            lemma_keep_some_step(candidates, n as int);
        }
        let ghost before = out@;
        match extract_name_record(&docs[n]) {
            Ok(record) => {
                out.push(record);
                proof {
                    assert(views(out@) =~= views(before).push(record@));
                }
            },
            Err(_) => {},
        }
        n += 1;
    }
    proof {
        assert(candidates.take(n as int) =~= candidates);
    }
    out
}

/// The records of a title-search document that has been read: `Parse` where
/// neither `docs` nor `works` is an array.
pub fn name_search_records(top: &Json) -> (r: Result<Vec<BookRecord>, ErrorKind>)
    ensures
        outcome_view(r) == name_search_outcome(Some(*top)),
        r matches Ok(v) ==> forall|i: int| 0 <= i < v.len() ==> (#[trigger] v[i]).well_formed(),
{
    let docs = match top.get_array("docs") {
        Some(docs) => docs,
        None => match top.get_array("works") {
            Some(works) => works,
            None => { return Err(ErrorKind::Parse); },
        },
    };
    Ok(extract_name_records(docs))
}

/// Reads a title-search body and reduces it to records: `Parse` where the
/// body is no JSON or lists no documents.
pub fn normalize_name_search(body: &str) -> (r: Result<Vec<BookRecord>, ErrorKind>)
    ensures
        outcome_view(r) == name_search_outcome(json_document(body@)),
        r matches Ok(v) ==> forall|i: int| 0 <= i < v.len() ==> (#[trigger] v[i]).well_formed(),
{
    match parse(body) {
        Some(top) => name_search_records(&top),
        None => Err(ErrorKind::Parse),
    }
}

/// Whether every author of the array has a string under `name`.
pub open spec fn all_named(authors: Seq<Json>) -> bool {
    forall|i: int| 0 <= i < authors.len() ==> (#[trigger] authors[i]).field_text("name"@) is Some
}

/// The names of the authors, in the order of the array; nothing where one
/// of them has no name.
pub open spec fn author_names(authors: Seq<Json>) -> Option<Seq<Seq<char>>> {
    if all_named(authors) {
        Some(Seq::new(authors.len(), |i: int| authors[i].field_text("name"@).unwrap()))
    } else {
        None
    }
}

/// The authors of a volume: the names under `authors`; nothing where
/// `authors` is no array or one of its entries has no name.
pub open spec fn volume_authors(data: Json) -> Option<Seq<Seq<char>>> {
    match data.field_items("authors"@) {
        Some(authors) => author_names(authors),
        None => None,
    }
}

/// The ISBN among a volume's identifiers: `isbn_10` where it is a string,
/// else `isbn_13` where it is one, else "Unknown".
pub open spec fn pick_isbn(identifiers: Json) -> Seq<char> {
    match identifiers.field_text("isbn_10"@) {
        Some(t) => t,
        None => match identifiers.field_text("isbn_13"@) {
            Some(t) => t,
            None => unknown(),
        },
    }
}

/// The ISBN of a volume: picked from its `identifiers`, "Unknown" without them.
pub open spec fn volume_isbn(data: Json) -> Seq<char> {
    match data.field("identifiers"@) {
        Some(identifiers) => pick_isbn(identifiers),
        None => unknown(),
    }
}

/// The `data` of the record that an item points to through `fromRecord`.
pub open spec fn record_data(top: Json, item: Json) -> Option<Json> {
    match item.field_text("fromRecord"@) {
        Some(id) => match top.field("records"@) {
            Some(records) => match records.field(id) {
                Some(record) => record.field("data"@),
                None => None,
            },
            None => None,
        },
        None => None,
    }
}

/// The record of one ISBN-lookup item: none where the item cannot be joined
/// to its data, or the data has no title, no `authors` array, or an author
/// without a name.
pub open spec fn isbn_record(top: Json, item: Json) -> Option<BookRecordView> {
    match record_data(top, item) {
        Some(data) => if has_title(data) && volume_authors(data) is Some {
            Some(
                BookRecordView {
                    title: data.field_text("title"@).unwrap(),
                    authors: volume_authors(data).unwrap(),
                    isbn: volume_isbn(data),
                    url: item.field_text("itemURL"@),
                },
            )
        } else {
            None
        },
        None => None,
    }
}

/// The records of a list of ISBN-lookup items, in order.
pub open spec fn isbn_records(top: Json, items: Seq<Json>) -> Seq<BookRecordView> {
    keep_some(Seq::new(items.len(), |i: int| isbn_record(top, items[i])))
}

/// What an ISBN-lookup body yields, given the document read from it.
pub open spec fn isbn_search_outcome(document: Option<Json>) -> Result<
    Seq<BookRecordView>,
    ErrorKind,
> {
    match document {
        Some(top) => match top.field_items("items"@) {
            Some(items) => Ok(isbn_records(top, items)),
            None => Err(ErrorKind::Parse),
        },
        None => Err(ErrorKind::Parse),
    }
}

/// Collects the names of the authors, in order; nothing where one of them
/// has no name.
pub fn extract_author_names(authors: &Vec<Json>) -> (r: Option<Vec<String>>)
    ensures
        match r {
            Some(names) => author_names(authors@) == Some(texts(names@)),
            None => author_names(authors@) is None,
        },
{
    let mut out: Vec<String> = Vec::new();
    let mut n: usize = 0;
    while n < authors.len()
        invariant
            n <= authors.len(),
            out@.len() == n,
            forall|i: int|
                0 <= i < n ==> (#[trigger] authors@[i]).field_text("name"@) == Some(out@[i]@),
        decreases authors.len() - n,
    {
        match authors[n].get_str("name") {
            Some(name) => {
                let owned = String::from_str(name);
                out.push(owned);
            },
            None => {
                assert(authors@[n as int].field_text("name"@) is None);
                return None;
            },
        }
        n += 1;
    }
    proof {
        assert(all_named(authors@));
        assert(texts(out@) =~= author_names(authors@).unwrap());
    }
    Some(out)
}

/// Picks the ISBN among a volume's identifiers, `isbn_10` before `isbn_13`.
pub fn pick_isbn_string(identifiers: &Json) -> (r: String)
    ensures
        r@ == pick_isbn(*identifiers),
{
    match identifiers.get_str("isbn_10") {
        Some(t) => String::from_str(t),
        None => match identifiers.get_str("isbn_13") {
            Some(t) => String::from_str(t),
            None => String::from_str("Unknown"),
        },
    }
}

/// Finds the `data` of the record that an item points to.
pub fn find_record_data<'a>(top: &'a Json, item: &Json) -> (r: Option<&'a Json>)
    ensures
        match r {
            Some(data) => record_data(*top, *item) == Some(*data),
            None => record_data(*top, *item) is None,
        },
{
    let id = match item.get_str("fromRecord") {
        Some(id) => id,
        None => { return None; },
    };
    let records = match top.get("records") {
        Some(records) => records,
        None => { return None; },
    };
    match records.get(id) {
        Some(record) => record.get("data"),
        None => None,
    }
}

/// Reduces one ISBN-lookup item to a record. An item that cannot be joined
/// to its data, or whose data has no non-empty title, no `authors` array, or
/// an author without a name, gives `MissingField`.
pub fn extract_isbn_record(top: &Json, item: &Json) -> (r: Result<BookRecord, ErrorKind>)
    ensures
        match r {
            Ok(record) => isbn_record(*top, *item) == Some(record@) && record.well_formed(),
            Err(e) => e == ErrorKind::MissingField && isbn_record(*top, *item) is None,
        },
{
    let data = match find_record_data(top, item) {
        Some(data) => data,
        None => { return Err(ErrorKind::MissingField); },
    };
    let title = match data.get_str("title") {
        Some(t) => t,
        None => { return Err(ErrorKind::MissingField); },
    };
    if title.is_empty() {
        return Err(ErrorKind::MissingField);
    }
    let authors = match data.get_array("authors") {
        Some(authors) => match extract_author_names(authors) {
            Some(names) => names,
            None => { return Err(ErrorKind::MissingField); },
        },
        None => { return Err(ErrorKind::MissingField); },
    };
    let isbn = match data.get("identifiers") {
        Some(identifiers) => pick_isbn_string(identifiers),
        None => String::from_str("Unknown"),
    };
    let url = match item.get_str("itemURL") {
        Some(u) => Some(String::from_str(u)),
        None => None,
    };
    let record = BookRecord { title: String::from_str(title), authors, isbn, url };
    proof {
        assert(record@.authors =~= volume_authors(*data).unwrap());
    }
    Ok(record)
}

/// The records of an ISBN-lookup document that has been read: `Parse` where
/// `items` is no array.
pub fn isbn_search_records(top: &Json) -> (r: Result<Vec<BookRecord>, ErrorKind>)
    ensures
        outcome_view(r) == isbn_search_outcome(Some(*top)),
        r matches Ok(v) ==> forall|i: int| 0 <= i < v.len() ==> (#[trigger] v[i]).well_formed(),
{
    let items = match top.get_array("items") {
        Some(items) => items,
        None => { return Err(ErrorKind::Parse); },
    };
    let ghost candidates = Seq::new(items@.len(), |i: int| isbn_record(*top, items@[i]));
    let mut out: Vec<BookRecord> = Vec::new();
    let mut n: usize = 0;
    proof {
        assert(views(out@) =~= keep_some(candidates.take(0)));
    }
    while n < items.len()
        invariant
            n <= items.len(),
            candidates == Seq::new(items@.len(), |i: int| isbn_record(*top, items@[i])),
            views(out@) == keep_some(candidates.take(n as int)),
            forall|i: int| 0 <= i < out.len() ==> (#[trigger] out[i]).well_formed(),
        decreases items.len() - n,
    {
        proof {
            lemma_keep_some_step(candidates, n as int);
        }
        let ghost before = out@;
        match extract_isbn_record(top, &items[n]) {
            Ok(record) => {
                out.push(record);
                proof {
                    assert(views(out@) =~= views(before).push(record@));
                }
            },
            Err(_) => {},
        }
        n += 1;
    }
    proof {
        assert(candidates.take(n as int) =~= candidates);
    }
    Ok(out)
}

/// Reads an ISBN-lookup body and reduces it to records: `Parse` where the
/// body is no JSON or has no `items` array.
pub fn normalize_isbn_search(body: &str) -> (r: Result<Vec<BookRecord>, ErrorKind>)
    ensures
        outcome_view(r) == isbn_search_outcome(json_document(body@)),
        r matches Ok(v) ==> forall|i: int| 0 <= i < v.len() ==> (#[trigger] v[i]).well_formed(),
{
    match parse(body) {
        Some(top) => isbn_search_records(&top),
        None => Err(ErrorKind::Parse),
    }
}

/// The titles of a list of works, as they are and in order: one for each
/// work that has a string under `title`, the empty string too.
pub open spec fn work_titles(works: Seq<Json>) -> Seq<Seq<char>> {
    keep_some(Seq::new(works.len(), |i: int| works[i].field_text("title"@)))
}

/// What a subject-listing body yields, given the document read from it.
pub open spec fn subject_outcome(document: Option<Json>) -> Result<Seq<Seq<char>>, ErrorKind> {
    match document {
        Some(top) => match top.field_items("works"@) {
            Some(works) => Ok(work_titles(works)),
            None => Err(ErrorKind::Parse),
        },
        None => Err(ErrorKind::Parse),
    }
}

/// A list of titles or a failure, with the titles taken by their views.
pub open spec fn titles_view(r: Result<Vec<String>, ErrorKind>) -> Result<
    Seq<Seq<char>>,
    ErrorKind,
> {
    match r {
        Ok(v) => Ok(texts(v@)),
        Err(e) => Err(e),
    }
}

/// The titles of a subject listing that has been read: `Parse` where `works`
/// is no array. A work without a string title is left out.
pub fn subject_titles(top: &Json) -> (r: Result<Vec<String>, ErrorKind>)
    ensures
        titles_view(r) == subject_outcome(Some(*top)),
{
    let works = match top.get_array("works") {
        Some(works) => works,
        None => { return Err(ErrorKind::Parse); },
    };
    let ghost candidates = Seq::new(works@.len(), |i: int| works@[i].field_text("title"@));
    let mut out: Vec<String> = Vec::new();
    let mut n: usize = 0;
    proof {
        assert(texts(out@) =~= keep_some(candidates.take(0)));
    }
    while n < works.len()
        invariant
            n <= works.len(),
            candidates == Seq::new(works@.len(), |i: int| works@[i].field_text("title"@)),
            texts(out@) == keep_some(candidates.take(n as int)),
        decreases works.len() - n,
    {
        proof {
            lemma_keep_some_step(candidates, n as int);
        }
        let ghost before = out@;
        match works[n].get_str("title") {
            Some(title) => {
                let owned = String::from_str(title);
                out.push(owned);
                proof {
                    assert(texts(out@) =~= texts(before).push(title@));
                }
            },
            None => {},
        }
        n += 1;
    }
    proof {
        assert(candidates.take(n as int) =~= candidates);
    }
    Ok(out)
}

/// Reads a subject-listing body and reduces it to titles: `Parse` where the
/// body is no JSON or has no `works` array.
pub fn normalize_subject(body: &str) -> (r: Result<Vec<String>, ErrorKind>)
    ensures
        titles_view(r) == subject_outcome(json_document(body@)),
{
    match parse(body) {
        Some(top) => subject_titles(&top),
        None => Err(ErrorKind::Parse),
    }
}

} // verus!
