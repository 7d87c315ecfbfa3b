//! Tables of text, through the crate `tabled`.

use tabled::settings::Style;
use tabled::Table;
use vstd::prelude::*;

verus! {

/// The text of a table with rounded corners, as `tabled` draws it: its
/// first record is the header, each further record a row.
pub uninterp spec fn rounded_table(records: Seq<Seq<Seq<char>>>) -> Seq<char>;

/// The cells of one record.
pub open spec fn record_text(record: Vec<String>) -> Seq<Seq<char>> {
    record@.map_values(|cell: String| cell@)
}

/// The cells of a list of records.
pub open spec fn records_text(records: Seq<Vec<String>>) -> Seq<Seq<Seq<char>>> {
    records.map_values(|record: Vec<String>| record_text(record))
}

/// Builds a table from the records with `Table::from_iter`, gives it the
/// style `Style::rounded` and renders it. The text depends on the records
/// alone.
#[verifier::external_body]
pub(crate) fn draw_rounded_table(records: &Vec<Vec<String>>) -> (text: String)
    ensures
        text@ == rounded_table(records_text(records@)),
{
    let mut table = Table::from_iter(records.iter().cloned());
    table.with(Style::rounded());
    table.to_string()
}

} // verus!
