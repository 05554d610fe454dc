//! Rows of text as a drawn table.
use vstd::prelude::*;

verus! {

/// The text that `tabled` draws for the given records in its style
/// `modern`: the first record is the table's header, the others are its
/// rows, and every record is a row of cells.
pub uninterp spec fn modern_table(records: Seq<Seq<Seq<char>>>) -> Seq<char>;

/// Builds a `tabled` table from the records with `Builder::from` and
/// `build`, sets `Style::modern()` on it with `with`, and writes it out
/// with `to_string`. The text depends on the records alone.
#[verifier::external_body]
fn draw_modern(records: Vec<Vec<String>>) -> (text: String)
    ensures
        text@ == modern_table(records.deep_view()),
{
    tabled::builder::Builder::from(records)
        .build()
        .with(tabled::settings::Style::modern())
        .to_string()
}

/// What is shown in place of a table that would have no row.
pub open spec fn no_matches_text() -> Seq<char> {
    "No matches found"@
}

/// A drawn table with an empty line before it and a line end after it.
pub open spec fn framed(table: Seq<char>) -> Seq<char> {
    "\n"@ + table + "\n"@
}

/// What is shown for a header and rows: the framed table of the header and
/// the rows, or, where there is no row, the words that say so.
pub open spec fn shown(header: Seq<Seq<char>>, rows: Seq<Seq<Seq<char>>>) -> Seq<char> {
    if rows.len() == 0 {
        no_matches_text()
    } else {
        framed(modern_table(seq![header] + rows))
    }
}

/// Where there is no row, no table is drawn, whatever the header: what is
/// shown are the words for that.
pub proof fn lemma_no_rows(header: Seq<Seq<char>>, rows: Seq<Seq<Seq<char>>>)
    requires
        rows.len() == 0,
    ensures
        shown(header, rows) == no_matches_text(),
{
}

/// Puts a line end before and after a drawn table.
pub fn frame(table: &str) -> (text: String)
    ensures
        text@ == framed(table@),
{
    let mut text = String::from_str("\n");
    text.append(table);
    text.append("\n");
    text
}

/// Shows rows under a header: as a framed table in the style `modern`, or,
/// where there is no row, as the words `No matches found`.
pub fn show(header: Vec<String>, rows: Vec<Vec<String>>) -> (text: String)
    ensures
        text@ == shown(header.deep_view(), rows.deep_view()),
{
    if rows.len() == 0 {
        return String::from_str("No matches found");
    }
    let ghost head = header.deep_view();
    let ghost body = rows.deep_view();
    let mut records: Vec<Vec<String>> = Vec::new();
    records.push(header);
    let mut rows = rows;
    records.append(&mut rows);
    assert(records.deep_view() =~= seq![head] + body);
    let table = draw_modern(records);
    frame(table.as_str())
}

} // verus!
