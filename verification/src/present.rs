//! Rendering of records and titles as text.
//!
//! A listing of records is a header line with the count, two dividers, one
//! block per record that ends in a divider, and a closing divider. A listing
//! of titles is one `Title:` line per title, each followed by an empty line.

use vstd::prelude::*;
use vstd::string::*;
use crate::record::{texts, views, BookRecord, BookRecordView};
use crate::text::{decimal, decimal_string, divider, divider_string, line, push_field, push_line};

verus! {

/// The two record listings: the books of a title search, the matches of an
/// ISBN lookup. They differ in the header's noun and the author label.
#[derive(Clone, Copy, Debug, PartialEq, Eq, Structural)]
pub enum Layout {
    Books,
    Matches,
}

/// The parts joined by `sep`, in order; the empty text for no part.
pub open spec fn join(parts: Seq<Seq<char>>, sep: Seq<char>) -> Seq<char>
    decreases parts.len(),
{
    if parts.len() == 0 {
        Seq::empty()
    } else if parts.len() == 1 {
        parts[0]
    } else {
        join(parts.drop_last(), sep) + sep + parts.last()
    }
}

/// The separator between authors.
pub open spec fn author_separator() -> Seq<char> {
    ", "@
}

/// The noun of the header line.
pub open spec fn noun(layout: Layout) -> Seq<char> {
    match layout {
        Layout::Books => " books"@,
        Layout::Matches => " matches"@,
    }
}

/// The label of the author line.
pub open spec fn author_label(layout: Layout) -> Seq<char> {
    match layout {
        Layout::Books => "Author: "@,
        Layout::Matches => "Authors: "@,
    }
}

/// The header: "Found", the count and the noun.
pub open spec fn header(layout: Layout, count: nat) -> Seq<char> {
    "Found "@ + decimal(count) + noun(layout)
}

/// The URL line of a record, or nothing where the record has no URL.
pub open spec fn url_line(url: Option<Seq<char>>) -> Seq<char> {
    match url {
        Some(u) => line("URL: "@ + u),
        None => Seq::empty(),
    }
}

/// The block of one record: its labelled fields and a divider.
pub open spec fn block(layout: Layout, record: BookRecordView) -> Seq<char> {
    line("Title: "@ + record.title) + line(
        author_label(layout) + join(record.authors, author_separator()),
    ) + line("ISBN: "@ + record.isbn) + url_line(record.url) + line(divider())
}

/// The blocks of a list of records, one after the other.
pub open spec fn blocks(layout: Layout, records: Seq<BookRecordView>) -> Seq<char>
    decreases records.len(),
{
    if records.len() == 0 {
        Seq::empty()
    } else {
        blocks(layout, records.drop_last()) + block(layout, records.last())
    }
}

/// What stands before the first block: the header and two dividers.
pub open spec fn preamble(layout: Layout, count: nat) -> Seq<char> {
    line(header(layout, count)) + line(divider()) + line(divider())
}

/// A whole listing of records.
pub open spec fn listing(layout: Layout, records: Seq<BookRecordView>) -> Seq<char> {
    preamble(layout, records.len()) + blocks(layout, records) + line(divider())
}

/// The lines of one title: the labelled title and an empty line.
pub open spec fn title_entry(title: Seq<char>) -> Seq<char> {
    line("Title: "@ + title) + line(Seq::empty())
}

/// A whole listing of titles.
pub open spec fn title_listing(titles: Seq<Seq<char>>) -> Seq<char>
    decreases titles.len(),
{
    if titles.len() == 0 {
        Seq::empty()
    } else {
        title_listing(titles.drop_last()) + title_entry(titles.last())
    }
}

/// Joins the parts by `sep`, keeping their order.
pub fn join_strings(parts: &Vec<String>, sep: &str) -> (r: String)
    ensures
        r@ == join(texts(parts@), sep@),
{
    let mut out = String::new();
    let mut n: usize = 0;
    let ghost all = texts(parts@);
    while n < parts.len()
        invariant
            n <= parts.len(),
            all == texts(parts@),
            out@ == join(all.take(n as int), sep@),
        decreases parts.len() - n,
    {
        proof {
            assert(all.take(n + 1).drop_last() =~= all.take(n as int));
            assert(all.take(n + 1).last() == parts@[n as int]@);
        }
        if n > 0 {
            out.append(sep);
        }
        out.append(parts[n].as_str());
        proof {
            if n == 0 {
                assert(out@ =~= parts@[0]@);
            } else {
                assert(out@ =~= join(all.take(n as int), sep@) + sep@ + parts@[n as int]@);
            }
        }
        n += 1;
    }
    proof {
        assert(all.take(n as int) =~= all);
    }
    out
}

/// Appends the block of one record to `out`.
pub fn push_block(out: &mut String, layout: Layout, record: &BookRecord)
    ensures
        final(out)@ == old(out)@ + block(layout, record@),
{
    push_field(out, "Title: ", record.title.as_str());
    let authors = join_strings(&record.authors, ", ");
    match layout {
        Layout::Books => push_field(out, "Author: ", authors.as_str()),
        Layout::Matches => push_field(out, "Authors: ", authors.as_str()),
    }
    push_field(out, "ISBN: ", record.isbn.as_str());
    match &record.url {
        Some(u) => push_field(out, "URL: ", u.as_str()),
        None => {},
    }
    let rule = divider_string();
    push_line(out, rule.as_str());
    proof {
        assert(final(out)@ =~= old(out)@ + block(layout, record@));
    }
}

/// Renders a listing of records.
pub fn render(layout: Layout, records: &Vec<BookRecord>) -> (r: String)
    ensures
        r@ == listing(layout, views(records@)),
{
    let rule = divider_string();
    let mut head = String::from_str("Found ");
    let count = decimal_string(records.len() as u64);
    head.append(count.as_str());
    match layout {
        Layout::Books => head.append(" books"),
        Layout::Matches => head.append(" matches"),
    }
    let mut out = String::new();
    push_line(&mut out, head.as_str());
    push_line(&mut out, rule.as_str());
    push_line(&mut out, rule.as_str());
    let ghost all = views(records@);
    proof {
        assert(out@ =~= preamble(layout, all.len()) + blocks(layout, all.take(0)));
    }
    let mut n: usize = 0;
    while n < records.len()
        invariant
            n <= records.len(),
            all == views(records@),
            rule@ == divider(),
            out@ == preamble(layout, all.len()) + blocks(layout, all.take(n as int)),
        decreases records.len() - n,
    {
        proof {
            assert(all.take(n + 1).drop_last() =~= all.take(n as int));
            assert(all.take(n + 1).last() == records@[n as int]@);
        }
        push_block(&mut out, layout, &records[n]);
        proof {
            assert(out@ =~= preamble(layout, all.len()) + blocks(layout, all.take(n + 1)));
        }
        n += 1;
    }
    proof {
        assert(all.take(n as int) =~= all);
    }
    push_line(&mut out, rule.as_str());
    out
}

/// Renders the records of a title search.
pub fn render_books(records: &Vec<BookRecord>) -> (r: String)
    ensures
        r@ == listing(Layout::Books, views(records@)),
{
    render(Layout::Books, records)
}

/// Renders the records of an ISBN lookup.
pub fn render_isbn_books(records: &Vec<BookRecord>) -> (r: String)
    ensures
        r@ == listing(Layout::Matches, views(records@)),
{
    render(Layout::Matches, records)
}

/// Renders the titles of a subject listing.
pub fn render_subject_titles(titles: &Vec<String>) -> (r: String)
    ensures
        r@ == title_listing(texts(titles@)),
{
    let mut out = String::new();
    let ghost all = texts(titles@);
    let mut n: usize = 0;
    while n < titles.len()
        invariant
            n <= titles.len(),
            all == texts(titles@),
            out@ == title_listing(all.take(n as int)),
        decreases titles.len() - n,
    {
        proof {
            assert(all.take(n + 1).drop_last() =~= all.take(n as int));
            assert(all.take(n + 1).last() == titles@[n as int]@);
        }
        let ghost before = out@;
        push_field(&mut out, "Title: ", titles[n].as_str());
        push_line(&mut out, "");
        proof {
            reveal_strlit("");
            assert(""@ =~= Seq::<char>::empty());
            assert(out@ =~= before + title_entry(titles@[n as int]@));
        }
        n += 1;
    }
    proof {
        assert(all.take(n as int) =~= all);
    }
    out
}

} // verus!
