//! The orders table of the resource monitor: its rows, how its cells are
//! filtered, sorted, copied and pasted.
use vstd::prelude::*;
use crate::text::{owned, push_str, seq_contains, str_contains, lowercase, to_lowercase, compare_text, text_order,
    TextOrder};
use crate::dates::{us_date_of_timestamp, timestamp_as_us_date};

verus! {

/// One row of the table: order number, customer name, date, status, sales
/// rep, split rep, and whether a call is needed.
pub struct ProcessTableData(pub String, pub String, pub String, pub String, pub String, pub String, pub String);

/// The text of column `column` of a row.
pub open spec fn cell(row: ProcessTableData, column: usize) -> Seq<char> {
    if column == 0 { row.0@ } else if column == 1 { row.1@ } else if column == 2 { row.2@ }
    else if column == 3 { row.3@ } else if column == 4 { row.4@ } else if column == 5 { row.5@ } else { row.6@ }
}

/// The column titles.
pub open spec fn column_title(column: usize) -> Seq<char> {
    if column == 0 { "Order #"@ } else if column == 1 { "Customer Name"@ } else if column == 2 { "Date"@ }
    else if column == 3 { "Status"@ } else if column == 4 { "Sales Rep"@ } else if column == 5 { "Split Rep"@ }
    else { "Needs Call"@ }
}

impl ProcessTableData {
    /// A row with every cell empty.
    pub fn default() -> (r: ProcessTableData)
        ensures
            forall|c: usize| c < 7 ==> #[trigger] cell(r, c).len() == 0,
    {
        ProcessTableData(String::new(), String::new(), String::new(), String::new(), String::new(), String::new(),
            String::new())
    }
}

/// Whether a row passes the search `filter`: the order number holds it as
/// typed; the customer, sales rep and split rep hold it once lower-cased
/// (the filter itself is taken as typed).
pub open spec fn row_shown(filter: Seq<char>, row: ProcessTableData) -> bool {
    lowered_row_match(filter, row.0@, lowercase(row.1@), lowercase(row.4@), lowercase(row.5@))
}

/// The search `f` matches a row whose order number is `order` and whose
/// customer, sales rep and split rep, read in lower case, are `name`, `rep`,
/// `split`: one of them contains it.
pub open spec fn lowered_row_match(f: Seq<char>, order: Seq<char>, name: Seq<char>, rep: Seq<char>, split: Seq<char>)
    -> bool {
    seq_contains(order, f) || seq_contains(name, f) || seq_contains(rep, f) || seq_contains(split, f)
}

/// Whether the search `f` matches a row with the order number `order` and
/// the customer, sales rep and split rep `name`, `rep`, `split`, these three
/// already in lower case.
pub fn row_matches_lowered(f: &str, order: &str, name: &str, rep: &str, split: &str) -> (b: bool)
    ensures
        b == lowered_row_match(f@, order@, name@, rep@, split@),
{
    str_contains(order, f) || str_contains(name, f) || str_contains(rep, f) || str_contains(split, f)
}

/// The rules of the orders table.
pub struct ProcessRowViewer {
    pub filter: String,
    pub selected: Option<ProcessTableData>,
    pub open_hotkeys: bool,
}

impl ProcessRowViewer {
    /// A viewer with an empty search, nothing selected, hotkeys hidden.
    pub fn default() -> (v: ProcessRowViewer)
        ensures
            v.filter@.len() == 0,
            v.selected is None,
            !v.open_hotkeys,
    {
        ProcessRowViewer { filter: String::new(), selected: None, open_hotkeys: false }
    }

    /// The table has seven columns.
    pub fn num_columns(&self) -> (n: usize)
        ensures
            n == 7,
    {
        7
    }

    /// The title of a column.
    pub fn column_name(&self, column: usize) -> (s: &'static str)
        requires
            column < 7,
        ensures
            s@ == column_title(column),
    {
        if column == 0 { "Order #" } else if column == 1 { "Customer Name" } else if column == 2 { "Date" }
        else if column == 3 { "Status" } else if column == 4 { "Sales Rep" } else if column == 5 { "Split Rep" }
        else { "Needs Call" }
    }

    /// Every column can be sorted.
    pub fn is_sortable_column(&self, column: usize) -> (b: bool)
        requires
            column < 7,
        ensures
            b,
    {
        true
    }

    /// Whether `row` passes the search.
    pub fn filter_row(&self, row: &ProcessTableData) -> (b: bool)
        ensures
            b == row_shown(self.filter@, *row),
    {
        let f = self.filter.as_str();
        if str_contains(row.0.as_str(), f) {
            return true;
        }
        let a = to_lowercase(row.1.as_str());
        let b = to_lowercase(row.4.as_str());
        let c = to_lowercase(row.5.as_str());
        row_matches_lowered(f, row.0.as_str(), a.as_str(), b.as_str(), c.as_str())
    }

    /// Copies one cell of `src` into `dst`.
    pub fn set_cell_value(&self, src: &ProcessTableData, dst: &mut ProcessTableData, column: usize)
        requires
            column < 7,
        ensures
            cell(*final(dst), column) == cell(*src, column),
            forall|c: usize| c < 7 && c != column ==> #[trigger] cell(*final(dst), c) == cell(*old(dst), c),
    {
        if column == 0 {
            dst.0 = src.0.clone();
        } else if column == 1 {
            dst.1 = src.1.clone();
        } else if column == 2 {
            dst.2 = src.2.clone();
        } else if column == 3 {
            dst.3 = src.3.clone();
        } else if column == 4 {
            dst.4 = src.4.clone();
        } else if column == 5 {
            dst.5 = src.5.clone();
        } else {
            dst.6 = src.6.clone();
        }
    }

    /// How two rows compare in a column; past the last column, by order number.
    pub fn compare_cell(&self, l: &ProcessTableData, r: &ProcessTableData, column: usize) -> (o: TextOrder)
        ensures
            o == if column < 7 { text_order(cell(*l, column), cell(*r, column)) } else { text_order(l.0@, r.0@) },
    {
        if column == 0 {
            compare_text(l.0.as_str(), r.0.as_str())
        } else if column == 1 {
            compare_text(l.1.as_str(), r.1.as_str())
        } else if column == 2 {
            compare_text(l.2.as_str(), r.2.as_str())
        } else if column == 3 {
            compare_text(l.3.as_str(), r.3.as_str())
        } else if column == 4 {
            compare_text(l.4.as_str(), r.4.as_str())
        } else if column == 5 {
            compare_text(l.5.as_str(), r.5.as_str())
        } else if column == 6 {
            compare_text(l.6.as_str(), r.6.as_str())
        } else {
            compare_text(l.0.as_str(), r.0.as_str())
        }
    }

    /// The label of the button that shows or hides the hotkeys.
    pub fn hotkeys_label(&self) -> (s: &'static str)
        ensures
            s@ == if self.open_hotkeys { " Hide Hotkeys "@ } else { " Show Hotkeys "@ },
    {
        if self.open_hotkeys { " Hide Hotkeys " } else { " Show Hotkeys " }
    }
}

/// What copying a cell puts on the clipboard: its text, except the date,
/// which is rewritten as month/day/year.
pub open spec fn copied_cell(row: ProcessTableData, column: usize) -> Seq<char> {
    if column == 2 { us_date_of_timestamp(row.2@).unwrap() } else { cell(row, column) }
}

/// Copies and pastes the cells of the orders table.
pub struct Codec;

impl Codec {
    /// Appends the text of one cell; the date must be a timestamp.
    pub fn encode_column(&mut self, src_row: &ProcessTableData, column: usize, dst: &mut String)
        requires
            column < 7,
            column == 2 ==> us_date_of_timestamp(src_row.2@) is Some,
        ensures
            final(dst)@ == old(dst)@ + copied_cell(*src_row, column),
    {
        if column == 0 {
            push_str(dst, src_row.0.as_str());
        } else if column == 1 {
            push_str(dst, src_row.1.as_str());
        } else if column == 2 {
            let d = timestamp_as_us_date(src_row.2.as_str());
            match d {
                Some(d) => push_str(dst, d.as_str()),
                None => {},
            }
        } else if column == 3 {
            push_str(dst, src_row.3.as_str());
        } else if column == 4 {
            push_str(dst, src_row.4.as_str());
        } else if column == 5 {
            push_str(dst, src_row.5.as_str());
        } else {
            push_str(dst, src_row.6.as_str());
        }
    }

    /// Copies one cell when it can be: the date only when it is a timestamp.
    /// Returns whether it was copied.
    pub fn try_encode_column(&mut self, src_row: &ProcessTableData, column: usize, dst: &mut String) -> (ok: bool)
        requires
            column < 7,
        ensures
            ok == (column != 2 || us_date_of_timestamp(src_row.2@) is Some),
            ok ==> final(dst)@ == old(dst)@ + copied_cell(*src_row, column),
            !ok ==> final(dst)@ == old(dst)@,
    {
        if column == 2 {
            match timestamp_as_us_date(src_row.2.as_str()) {
                Some(_) => {},
                None => { return false; },
            }
        }
        self.encode_column(src_row, column, dst);
        true
    }

    /// Pastes text into one cell.
    pub fn decode_column(&mut self, src_data: &str, column: usize, dst_row: &mut ProcessTableData) -> (ok: bool)
        requires
            column < 7,
        ensures
            ok,
            cell(*final(dst_row), column) == src_data@,
            forall|c: usize| c < 7 && c != column ==> #[trigger] cell(*final(dst_row), c) == cell(*old(dst_row), c),
    {
        if column == 0 {
            dst_row.0 = owned(src_data);
        } else if column == 1 {
            dst_row.1 = owned(src_data);
        } else if column == 2 {
            dst_row.2 = owned(src_data);
        } else if column == 3 {
            dst_row.3 = owned(src_data);
        } else if column == 4 {
            dst_row.4 = owned(src_data);
        } else if column == 5 {
            dst_row.5 = owned(src_data);
        } else {
            dst_row.6 = owned(src_data);
        }
        true
    }

    /// The row pasting starts from.
    pub fn create_empty_decoded_row(&mut self) -> (r: ProcessTableData)
        ensures
            forall|c: usize| c < 7 ==> #[trigger] cell(r, c).len() == 0,
    {
        ProcessTableData::default()
    }
}

/// A search found in any one of the four searched cells shows the row: the
/// order number as written, the customer, sales rep and split rep in lower
/// case; and a shown row has the search in one of them.
pub proof fn lemma_search_found_in_any_cell_shows_row(filter: Seq<char>, row: ProcessTableData)
    ensures
        seq_contains(row.0@, filter) ==> row_shown(filter, row),
        seq_contains(lowercase(row.1@), filter) ==> row_shown(filter, row),
        seq_contains(lowercase(row.4@), filter) ==> row_shown(filter, row),
        seq_contains(lowercase(row.5@), filter) ==> row_shown(filter, row),
        row_shown(filter, row) ==> seq_contains(row.0@, filter) || seq_contains(lowercase(row.1@), filter)
            || seq_contains(lowercase(row.4@), filter) || seq_contains(lowercase(row.5@), filter),
{
}

} // verus!
