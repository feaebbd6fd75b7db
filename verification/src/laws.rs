//! Laws that relate the extraction rules, the rendering and the selection.

use vstd::prelude::*;
use crate::error::ErrorKind;
use crate::json::{lookup, Json};
use crate::normalize::{has_title, name_record, name_records, pick_isbn, work_titles};
use crate::present::{block, blocks, join, listing, Layout};
use crate::record::{keep_some, BookRecordView};
use crate::select::{picked_index, picked_title};
use crate::text::{decimal, divider, line};

verus! {

/// Keeping the entries that hold something never lengthens a list.
pub proof fn lemma_keep_some_len<T>(s: Seq<Option<T>>)
    ensures
        keep_some(s).len() <= s.len(),
    decreases s.len(),
{
    if s.len() > 0 {
        lemma_keep_some_len(s.drop_last());
    }
}

/// Where every entry holds something, all are kept, each in its place.
pub proof fn lemma_keep_some_all<T>(s: Seq<Option<T>>)
    requires
        forall|i: int| 0 <= i < s.len() ==> (#[trigger] s[i]) is Some,
    ensures
        keep_some(s).len() == s.len(),
        forall|i: int| 0 <= i < s.len() ==> (#[trigger] keep_some(s)[i]) == s[i]->Some_0,
    decreases s.len(),
{
    if s.len() > 0 {
        lemma_keep_some_all(s.drop_last());
    }
}

/// The records of a list extended by one document: those of the list, and
/// the record of the document where it has one.
pub proof fn lemma_name_records_push(docs: Seq<Json>, doc: Json)
    ensures
        name_records(docs.push(doc)) == match name_record(doc) {
            Some(r) => name_records(docs).push(r),
            None => name_records(docs),
        },
{
    let longer = docs.push(doc);
    let candidates = Seq::new(longer.len(), |i: int| name_record(longer[i]));
    assert(candidates.drop_last() =~= Seq::new(docs.len(), |i: int| name_record(docs[i])));
    assert(candidates.last() == name_record(doc));
}

/// The documents of a list that have a title, in order.
pub open spec fn titled(docs: Seq<Json>) -> Seq<Json>
    decreases docs.len(),
{
    if docs.len() == 0 {
        Seq::empty()
    } else if has_title(docs.last()) {
        titled(docs.drop_last()).push(docs.last())
    } else {
        titled(docs.drop_last())
    }
}

/// Every document that passes the title filter has a title, and the filter
/// never lengthens a list.
pub proof fn lemma_titled_has_title(docs: Seq<Json>)
    ensures
        titled(docs).len() <= docs.len(),
        forall|i: int| 0 <= i < titled(docs).len() ==> has_title(#[trigger] titled(docs)[i]),
    decreases docs.len(),
{
    if docs.len() > 0 {
        lemma_titled_has_title(docs.drop_last());
    }
}

/// A list whose documents all have a title passes the title filter unchanged.
pub proof fn lemma_titled_keeps_titled(docs: Seq<Json>)
    requires
        forall|i: int| 0 <= i < docs.len() ==> has_title(#[trigger] docs[i]),
    ensures
        titled(docs) == docs,
    decreases docs.len(),
{
    if docs.len() > 0 {
        lemma_titled_keeps_titled(docs.drop_last());
        assert(docs.drop_last().push(docs.last()) =~= docs);
    }
}

/// Filtering by title twice is filtering once.
pub proof fn lemma_titled_idempotent(docs: Seq<Json>)
    ensures
        titled(titled(docs)) == titled(docs),
{
    lemma_titled_has_title(docs);
    lemma_titled_keeps_titled(titled(docs));
}

/// A document without a title gives no record: the records of a list are
/// those of its titled documents, so such a document is in neither the count
/// nor the body of what is printed.
pub proof fn lemma_untitled_excluded(docs: Seq<Json>)
    ensures
        name_records(titled(docs)) == name_records(docs),
        name_records(docs).len() <= titled(docs).len(),
        listing(Layout::Books, name_records(titled(docs))) == listing(
            Layout::Books,
            name_records(docs),
        ),
    decreases docs.len(),
{
    if docs.len() == 0 {
        assert(titled(docs) =~= docs);
        lemma_keep_some_len(Seq::new(docs.len(), |i: int| name_record(docs[i])));
    } else {
        let init = docs.drop_last();
        let last = docs.last();
        lemma_untitled_excluded(init);
        assert(init.push(last) =~= docs);
        lemma_name_records_push(init, last);
        if has_title(last) {
            lemma_name_records_push(titled(init), last);
        }
    }
}

/// Every record of a title search has a non-empty title.
pub proof fn lemma_records_have_titles(docs: Seq<Json>)
    ensures
        forall|i: int|
            0 <= i < name_records(docs).len() ==> (#[trigger] name_records(docs)[i]).title.len()
                > 0,
    decreases docs.len(),
{
    if docs.len() == 0 {
        assert(Seq::new(docs.len(), |i: int| name_record(docs[i])).len() == 0);
    } else {
        let init = docs.drop_last();
        lemma_records_have_titles(init);
        assert(init.push(docs.last()) =~= docs);
        lemma_name_records_push(init, docs.last());
    }
}

/// Where each of N documents has a title and a key, the listing holds N
/// records, the record of each document in its place, under a header that
/// says "Found N books".
pub proof fn lemma_complete_listing(docs: Seq<Json>)
    requires
        forall|i: int|
            0 <= i < docs.len() ==> has_title(#[trigger] docs[i]) && docs[i].field_text("key"@)
                is Some,
    ensures
        name_records(docs).len() == docs.len(),
        forall|i: int|
            0 <= i < docs.len() ==> Some(#[trigger] name_records(docs)[i]) == name_record(docs[i]),
        listing(Layout::Books, name_records(docs)) == line(
            "Found "@ + decimal(docs.len()) + " books"@,
        ) + line(divider()) + line(divider()) + blocks(Layout::Books, name_records(docs)) + line(
            divider(),
        ),
{
    let candidates = Seq::new(docs.len(), |i: int| name_record(docs[i]));
    assert forall|i: int| 0 <= i < candidates.len() implies (#[trigger] candidates[i]) is Some by {
        assert(has_title(docs[i]));
    }
    lemma_keep_some_all(candidates);
}

/// The blocks of a list followed by one more record are the blocks of the
/// list followed by that record's block: a listing of N records holds N blocks.
pub proof fn lemma_blocks_push(layout: Layout, records: Seq<BookRecordView>, record: BookRecordView)
    ensures
        blocks(layout, records.push(record)) == blocks(layout, records) + block(layout, record),
{
    assert(records.push(record).drop_last() =~= records);
}

/// Joining keeps the order of the parts: the join of two lists set end to
/// end is the join of the first, the separator, and the join of the second.
pub proof fn lemma_join_concat(a: Seq<Seq<char>>, b: Seq<Seq<char>>, sep: Seq<char>)
    requires
        a.len() > 0,
        b.len() > 0,
    ensures
        join(a + b, sep) == join(a, sep) + sep + join(b, sep),
    decreases b.len(),
{
    assert((a + b).drop_last() =~= a + b.drop_last());
    assert((a + b).last() == b.last());
    if b.len() == 1 {
        assert(a + b.drop_last() =~= a);
    } else {
        lemma_join_concat(a, b.drop_last(), sep);
        assert(join(a + b, sep) =~= join(a, sep) + sep + join(b, sep));
    }
}

/// A lookup finds the first member of the name, wherever it stands.
pub proof fn lemma_lookup_at(entries: Seq<(String, Json)>, key: Seq<char>, at: int)
    requires
        0 <= at < entries.len(),
        entries[at].0@ == key,
        forall|j: int| 0 <= j < at ==> (#[trigger] entries[j]).0@ != key,
    ensures
        lookup(entries, key) == Some(entries[at].1),
    decreases at,
{
    if at > 0 {
        let rest = entries.drop_first();
        assert(rest[at - 1] == entries[at]);
        assert forall|j: int| 0 <= j < at - 1 implies (#[trigger] rest[j]).0@ != key by {
            assert(rest[j] == entries[j + 1]);
        }
        lemma_lookup_at(rest, key, at - 1);
    }
}

/// Where the identifiers hold a string `isbn_10`, it is the ISBN picked,
/// at whatever place among the members it stands and whatever `isbn_13` is.
pub proof fn lemma_isbn_10_precedes(members: Vec<(String, Json)>, at: int)
    requires
        0 <= at < members@.len(),
        members@[at].0@ == "isbn_10"@,
        members@[at].1.text() is Some,
        forall|j: int| 0 <= j < at ==> (#[trigger] members@[j]).0@ != "isbn_10"@,
    ensures
        Some(pick_isbn(Json::Object(members))) == members@[at].1.text(),
{
    lemma_lookup_at(members@, "isbn_10"@, at);
}

/// Where each work has a string title, the listing holds the title of each
/// work in its place, so a draw picks the title of the work at the draw
/// reduced modulo the number of works.
pub proof fn lemma_all_works_listed(works: Seq<Json>, draw: u32)
    requires
        forall|i: int| 0 <= i < works.len() ==> (#[trigger] works[i]).field_text("title"@) is Some,
    ensures
        work_titles(works).len() == works.len(),
        forall|i: int|
            0 <= i < works.len() ==> Some(#[trigger] work_titles(works)[i]) == works[i].field_text(
                "title"@,
            ),
        works.len() > 0 ==> picked_title(work_titles(works), draw) == Ok::<Seq<char>, ErrorKind>(
            works[draw as int % works.len() as int].field_text("title"@)->Some_0,
        ),
{
    let candidates = Seq::new(works.len(), |i: int| works[i].field_text("title"@));
    assert forall|i: int| 0 <= i < candidates.len() implies (#[trigger] candidates[i]) is Some by {
        assert(works[i].field_text("title"@) is Some);
    }
    lemma_keep_some_all(candidates);
    if works.len() > 0 {
        let at = draw as int % works.len() as int;
        assert(0 <= at < works.len());
        assert(Some(work_titles(works)[at]) == works[at].field_text("title"@));
    }
}

/// In a listing of one title every draw picks that title; in an empty
/// listing every draw gives `NoResults`.
pub proof fn lemma_pick_small(titles: Seq<Seq<char>>, draw: u32)
    ensures
        titles.len() == 1 ==> picked_title(titles, draw) == Ok::<Seq<char>, ErrorKind>(titles[0]),
        titles.len() == 0 ==> picked_title(titles, draw) == Err::<Seq<char>, ErrorKind>(
            ErrorKind::NoResults,
        ),
{
}

/// A draw picks an index inside the listing, whenever there is one.
pub proof fn lemma_pick_in_range(draw: u32, len: nat)
    requires
        len > 0,
    ensures
        picked_index(draw, len) is Ok,
        0 <= picked_index(draw, len)->Ok_0 < len,
{
}

} // verus!
