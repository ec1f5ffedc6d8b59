//! Rendering of a two-row text table, done by the `prettytable` crate.

use prettytable::{Cell, Row, Table};
use vstd::prelude::*;

verus! {

/// The text that `prettytable` renders, in its default format, for a table
/// of two rows: the first row's cells hold `headers`, the second row's cells
/// hold the decimal numerals of `values`.
pub uninterp spec fn table_text(headers: Seq<Seq<char>>, values: Seq<u16>) -> Seq<char>;

/// Builds a `prettytable::Table` with `Table::new`, adds a row of one
/// `Cell::new` per header and a row of one `Cell::new` per value's decimal
/// numeral with `Table::add_row`, and renders it with the table's
/// `to_string`. Nothing of this is proved; the contract only claims that the
/// text depends on the cells alone, and gives it its name.
///
/// Every header must be printable ASCII: `Cell::new` measures its text with
/// the crate's `display_width`, which asserts a relation between two
/// Unicode width counts that fails on some texts holding a terminal escape.
/// Printable ASCII holds no escape character, and a decimal numeral is
/// printable ASCII too.
#[verifier::external_body]
pub(crate) fn render_table(headers: &Vec<String>, values: &Vec<u16>) -> (result: String)
    requires
        forall|i: int, j: int|
            0 <= i < headers@.len() && 0 <= j < headers@[i]@.len() ==> 0x20 <= (
            #[trigger] headers@[i]@[j]) as u32 <= 0x7E,
    ensures
        result@ == table_text(headers.deep_view(), values@),
{
    let mut table = Table::new();
    table.add_row(Row::new(headers.iter().map(|text| Cell::new(text)).collect()));
    table.add_row(Row::new(values.iter().map(|value| Cell::new(&value.to_string())).collect()));
    table.to_string()
}

} // verus!
