//! Text tables, drawn by the prettytable crate.

use vstd::prelude::*;

verus! {

/// The text that prettytable draws for a table with the title row `titles`
/// and the rows `rows`, each row a sequence of cell texts, in its format
/// without a special separator under the titles.
pub uninterp spec fn table_text(titles: Seq<Seq<char>>, rows: Seq<Seq<Seq<char>>>) -> Seq<char>;

/// A text is plain when no escape character in it is directly followed by
/// an opening square bracket. The table printer measures a cell by its
/// display width, and it stops the program on some texts in which the two
/// characters start a colour sequence; on no other text.
pub open spec fn plain_text(text: Seq<char>) -> bool {
    forall|i: int| 0 <= i < text.len() - 1 ==> !((#[trigger] text[i]) == '\u{1b}' && text[i + 1] == '[')
}

/// Every cell of the row is plain.
pub open spec fn plain_cells(cells: Seq<Seq<char>>) -> bool {
    forall|i: int| 0 <= i < cells.len() ==> plain_text(#[trigger] cells[i])
}

/// Every cell of every row is plain.
pub open spec fn plain_rows(rows: Seq<Seq<Seq<char>>>) -> bool {
    forall|i: int| 0 <= i < rows.len() ==> plain_cells(#[trigger] rows[i])
}

/// Builds a prettytable `Table` in `FORMAT_NO_TITLE` with `Table::set_titles`
/// and `Table::add_row`, each row made by `Row::from` of the cell texts, and
/// draws it with the table's `to_string`. Trusted: the text depends on the
/// cell texts alone. Texts that are not plain are left out because
/// prettytable's width measure counts hidden characters after an escape
/// character and an opening square bracket, and asserts on the count.
#[verifier::external_body]
pub(crate) fn render_table(titles: &Vec<String>, rows: &Vec<Vec<String>>) -> (text: String)
    requires
        plain_cells(titles.deep_view()),
        plain_rows(rows.deep_view()),
    ensures
        text@ == table_text(titles.deep_view(), rows.deep_view()),
{
    let mut table = prettytable::Table::new();
    table.set_format(*prettytable::format::consts::FORMAT_NO_TITLE);
    table.set_titles(prettytable::Row::from(titles));
    for row in rows {
        table.add_row(prettytable::Row::from(row));
    }
    table.to_string()
}

/// Whether a text is plain.
pub fn is_plain(text: &str) -> (plain: bool)
    ensures
        plain == plain_text(text@),
{
    broadcast use vstd::string::group_string_axioms;

    let mut plain = true;
    let mut after_escape = false;
    for c in it: text.chars()
        invariant
            it.seq() == text@,
            after_escape == (it.index() > 0 && text@[it.index() - 1] == '\u{1b}'),
            plain == (forall|i: int|
                0 <= i < it.index() - 1 ==> !((#[trigger] text@[i]) == '\u{1b}' && text@[i + 1] == '[')),
    {
        if after_escape && c == '[' {
            plain = false;
        }
        after_escape = c == '\u{1b}';
    }
    plain
}

/// Whether every cell of a row is plain.
pub fn all_plain(cells: &Vec<String>) -> (plain: bool)
    ensures
        plain == plain_cells(cells.deep_view()),
{
    let mut n: usize = 0;
    while n < cells.len()
        invariant
            n <= cells.len(),
            forall|i: int| 0 <= i < n ==> plain_text(#[trigger] cells.deep_view()[i]),
        decreases cells.len() - n,
    {
        if !is_plain(cells[n].as_str()) {
            assert(!plain_text(cells.deep_view()[n as int]));
            return false;
        }
        n = n + 1;
    }
    true
}

} // verus!
