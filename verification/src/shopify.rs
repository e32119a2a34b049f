//! The Shopify order browser: the rows of its two tables, how their cells are
//! copied and pasted, filtered and sorted, and the text the rows are made of.
//! Loading orders is left to the caller.
use vstd::prelude::*;
use crate::text::{owned, push_str, push_decimal, decimal, seq_contains, str_contains, lowercase, to_lowercase,
    trim, trimmed, has_prefix, starts_with, uppercase, to_uppercase, compare_text, text_order, TextOrder};
use crate::remote::replies::join;

verus! {

/// One row of the recent Shopify orders table. `lookup` is not displayed; it
/// reloads the full order on row click.
pub struct ShopifyOrderRow {
    pub reference: String,
    pub status: String,
    pub customer: String,
    pub build: String,
    pub serials: String,
    pub placed: String,
    pub lookup: String,
}

/// One line item of a loaded order's detail table.
pub struct ShopifyLineItemRow {
    pub name: String,
    pub reference: String,
    pub quantity: String,
    pub serials: String,
}

impl ShopifyOrderRow {
    /// A row with every cell empty.
    pub fn default() -> (r: ShopifyOrderRow)
        ensures
            r.reference@.len() == 0 && r.status@.len() == 0 && r.customer@.len() == 0 && r.build@.len() == 0
                && r.serials@.len() == 0 && r.placed@.len() == 0 && r.lookup@.len() == 0,
    {
        ShopifyOrderRow {
            reference: String::new(),
            status: String::new(),
            customer: String::new(),
            build: String::new(),
            serials: String::new(),
            placed: String::new(),
            lookup: String::new(),
        }
    }
}

impl ShopifyLineItemRow {
    /// A row with every cell empty.
    pub fn default() -> (r: ShopifyLineItemRow)
        ensures
            r.name@.len() == 0 && r.reference@.len() == 0 && r.quantity@.len() == 0 && r.serials@.len() == 0,
    {
        ShopifyLineItemRow { name: String::new(), reference: String::new(), quantity: String::new(), serials: String::new() }
    }
}

/// The text of column `column` of an order row; the columns past the last show nothing.
pub open spec fn order_cell(row: ShopifyOrderRow, column: usize) -> Seq<char> {
    if column == 0 {
        row.reference@
    } else if column == 1 {
        row.status@
    } else if column == 2 {
        row.customer@
    } else if column == 3 {
        row.build@
    } else if column == 4 {
        row.serials@
    } else if column == 5 {
        row.placed@
    } else {
        Seq::empty()
    }
}

/// The text of column `column` of a line-item row.
pub open spec fn item_cell(row: ShopifyLineItemRow, column: usize) -> Seq<char> {
    if column == 0 {
        row.name@
    } else if column == 1 {
        row.reference@
    } else if column == 2 {
        row.quantity@
    } else if column == 3 {
        row.serials@
    } else {
        Seq::empty()
    }
}

/// Why a cell could not be pasted; the codecs here always can.
pub enum DecodeError {
    Skip,
}

/// Copies and pastes the cells of the orders table.
pub struct OrderCodec;

impl OrderCodec {
    /// Appends the text of one cell.
    pub fn encode_column(&mut self, src_row: &ShopifyOrderRow, column: usize, dst: &mut String)
        ensures
            final(dst)@ == old(dst)@ + order_cell(*src_row, column),
    {
        if column == 0 {
            push_str(dst, src_row.reference.as_str());
        } else if column == 1 {
            push_str(dst, src_row.status.as_str());
        } else if column == 2 {
            push_str(dst, src_row.customer.as_str());
        } else if column == 3 {
            push_str(dst, src_row.build.as_str());
        } else if column == 4 {
            push_str(dst, src_row.serials.as_str());
        } else if column == 5 {
            push_str(dst, src_row.placed.as_str());
        } else {
            assert(dst@ =~= old(dst)@ + Seq::<char>::empty());
        }
    }

    /// Pastes text into one cell; a column past the last changes nothing.
    pub fn decode_column(&mut self, src_data: &str, column: usize, dst_row: &mut ShopifyOrderRow)
        -> (r: Result<(), DecodeError>)
        ensures
            r is Ok,
            column < 6 ==> order_cell(*final(dst_row), column) == src_data@,
            forall|c: usize| c != column ==> #[trigger] order_cell(*final(dst_row), c) == order_cell(*old(dst_row), c),
            final(dst_row).lookup == old(dst_row).lookup,
    {
        if column == 0 {
            dst_row.reference = owned(src_data);
        } else if column == 1 {
            dst_row.status = owned(src_data);
        } else if column == 2 {
            dst_row.customer = owned(src_data);
        } else if column == 3 {
            dst_row.build = owned(src_data);
        } else if column == 4 {
            dst_row.serials = owned(src_data);
        } else if column == 5 {
            dst_row.placed = owned(src_data);
        }
        Ok(())
    }

    /// The row pasting starts from.
    pub fn create_empty_decoded_row(&mut self) -> (r: ShopifyOrderRow)
        ensures
            forall|c: usize| #[trigger] order_cell(r, c).len() == 0,
            r.lookup@.len() == 0,
    {
        ShopifyOrderRow::default()
    }
}

/// Copies and pastes the cells of the line-items table.
pub struct LineItemCodec;

impl LineItemCodec {
    /// Appends the text of one cell.
    pub fn encode_column(&mut self, src_row: &ShopifyLineItemRow, column: usize, dst: &mut String)
        ensures
            final(dst)@ == old(dst)@ + item_cell(*src_row, column),
    {
        if column == 0 {
            push_str(dst, src_row.name.as_str());
        } else if column == 1 {
            push_str(dst, src_row.reference.as_str());
        } else if column == 2 {
            push_str(dst, src_row.quantity.as_str());
        } else if column == 3 {
            push_str(dst, src_row.serials.as_str());
        } else {
            assert(dst@ =~= old(dst)@ + Seq::<char>::empty());
        }
    }

    /// Pastes text into one cell; a column past the last changes nothing.
    pub fn decode_column(&mut self, src_data: &str, column: usize, dst_row: &mut ShopifyLineItemRow)
        -> (r: Result<(), DecodeError>)
        ensures
            r is Ok,
            column < 4 ==> item_cell(*final(dst_row), column) == src_data@,
            forall|c: usize| c != column ==> #[trigger] item_cell(*final(dst_row), c) == item_cell(*old(dst_row), c),
    {
        if column == 0 {
            dst_row.name = owned(src_data);
        } else if column == 1 {
            dst_row.reference = owned(src_data);
        } else if column == 2 {
            dst_row.quantity = owned(src_data);
        } else if column == 3 {
            dst_row.serials = owned(src_data);
        }
        Ok(())
    }

    /// The row pasting starts from.
    pub fn create_empty_decoded_row(&mut self) -> (r: ShopifyLineItemRow)
        ensures
            forall|c: usize| #[trigger] item_cell(r, c).len() == 0,
    {
        ShopifyLineItemRow::default()
    }
}

/// Pasting what was copied from a cell of an order row into the same column
/// of another row gives that cell the same text, and leaves the rest as it was.
pub proof fn lemma_order_cell_round_trip(src: ShopifyOrderRow, copied: Seq<char>, before: ShopifyOrderRow,
    after: ShopifyOrderRow, column: usize)
    requires
        column < 6,
        copied == order_cell(src, column),
        order_cell(after, column) == copied,
        forall|c: usize| c != column ==> #[trigger] order_cell(after, c) == order_cell(before, c),
    ensures
        order_cell(after, column) == order_cell(src, column),
        forall|c: usize| c != column ==> #[trigger] order_cell(after, c) == order_cell(before, c),
{
}

/// The column titles of the orders table.
pub open spec fn order_column_title(column: usize) -> Seq<char> {
    if column == 0 { " Order"@ } else if column == 1 { " Status"@ } else if column == 2 { " Customer"@ }
    else if column == 3 { " Build"@ } else if column == 4 { " Serials"@ } else { " Placed"@ }
}

/// The column titles of the line-items table.
pub open spec fn item_column_title(column: usize) -> Seq<char> {
    if column == 0 { " Item"@ } else if column == 1 { " Ref"@ } else if column == 2 { " Qty"@ } else { " Serials"@ }
}

/// Whether an order row passes the filter: an empty filter (after trimming)
/// passes every row; else the filter, in lower case, must occur in the
/// lower-cased reference, status, customer or build.
pub open spec fn order_shown(filter: Seq<char>, row: ShopifyOrderRow) -> bool {
    lowered_order_match(lowercase(trimmed(filter)), lowercase(row.reference@), lowercase(row.status@),
        lowercase(row.customer@), lowercase(row.build@))
}

/// The filter `f` matches an order whose order number, status, customer and
/// build are `a`, `b`, `c`, `d`, all read in lower case: it is empty, or one
/// of them contains it.
pub open spec fn lowered_order_match(f: Seq<char>, a: Seq<char>, b: Seq<char>, c: Seq<char>, d: Seq<char>) -> bool {
    f.len() == 0 || seq_contains(a, f) || seq_contains(b, f) || seq_contains(c, f) || seq_contains(d, f)
}

/// Whether the filter `f` matches an order with the cells `a`, `b`, `c`,
/// `d` (order number, status, customer, build), all already in lower case.
pub fn order_matches_lowered(f: &str, a: &str, b: &str, c: &str, d: &str) -> (r: bool)
    ensures
        r == lowered_order_match(f@, a@, b@, c@, d@),
{
    if f.unicode_len() == 0 {
        return true;
    }
    str_contains(a, f) || str_contains(b, f) || str_contains(c, f) || str_contains(d, f)
}

/// Recent-orders table viewer. Clicking an order # hands its lookup key to
/// the owning tab, which loads the full order.
pub struct ShopifyOrderRowViewer {
    pub filter: String,
}

impl ShopifyOrderRowViewer {
    /// A viewer with an empty filter.
    pub fn new() -> (v: ShopifyOrderRowViewer)
        ensures
            v.filter@.len() == 0,
    {
        ShopifyOrderRowViewer { filter: String::new() }
    }

    /// The table has six columns.
    pub fn num_columns(&self) -> (n: usize)
        ensures
            n == 6,
    {
        6
    }

    /// The title of a column.
    pub fn column_name(&self, column: usize) -> (s: &'static str)
        requires
            column < 6,
        ensures
            s@ == order_column_title(column),
    {
        if column == 0 { " Order" } else if column == 1 { " Status" } else if column == 2 { " Customer" }
        else if column == 3 { " Build" } else if column == 4 { " Serials" } else { " Placed" }
    }

    /// Whether `row` passes the filter.
    pub fn filter_row(&self, row: &ShopifyOrderRow) -> (b: bool)
        ensures
            b == order_shown(self.filter@, *row),
    {
        let t = trim(self.filter.as_str());
        let f = to_lowercase(t.as_str());
        if f.as_str().unicode_len() == 0 {
            return true;
        }
        let a = to_lowercase(row.reference.as_str());
        let b = to_lowercase(row.status.as_str());
        let c = to_lowercase(row.customer.as_str());
        let d = to_lowercase(row.build.as_str());
        order_matches_lowered(f.as_str(), a.as_str(), b.as_str(), c.as_str(), d.as_str())
    }

    /// How two rows compare in a column; rows compare equal past the last column.
    pub fn compare_cell(&self, l: &ShopifyOrderRow, r: &ShopifyOrderRow, column: usize) -> (o: TextOrder)
        ensures
            o == if column < 6 { text_order(order_cell(*l, column), order_cell(*r, column)) } else { TextOrder::Equal },
    {
        if column == 0 {
            compare_text(l.reference.as_str(), r.reference.as_str())
        } else if column == 1 {
            compare_text(l.status.as_str(), r.status.as_str())
        } else if column == 2 {
            compare_text(l.customer.as_str(), r.customer.as_str())
        } else if column == 3 {
            compare_text(l.build.as_str(), r.build.as_str())
        } else if column == 4 {
            compare_text(l.serials.as_str(), r.serials.as_str())
        } else if column == 5 {
            compare_text(l.placed.as_str(), r.placed.as_str())
        } else {
            TextOrder::Equal
        }
    }
}

/// Line-item detail table viewer (read-only).
pub struct ShopifyLineItemRowViewer {
    pub filter: String,
}

impl ShopifyLineItemRowViewer {
    /// A viewer with an empty filter.
    pub fn default() -> (v: ShopifyLineItemRowViewer)
        ensures
            v.filter@.len() == 0,
    {
        ShopifyLineItemRowViewer { filter: String::new() }
    }

    /// The table has four columns.
    pub fn num_columns(&self) -> (n: usize)
        ensures
            n == 4,
    {
        4
    }

    /// The title of a column.
    pub fn column_name(&self, column: usize) -> (s: &'static str)
        requires
            column < 4,
        ensures
            s@ == item_column_title(column),
    {
        if column == 0 { " Item" } else if column == 1 { " Ref" } else if column == 2 { " Qty" } else { " Serials" }
    }

    /// Every line item is shown.
    pub fn filter_row(&self, _row: &ShopifyLineItemRow) -> (b: bool)
        ensures
            b,
    {
        true
    }

    /// How two rows compare in a column; rows compare equal past the last column.
    pub fn compare_cell(&self, l: &ShopifyLineItemRow, r: &ShopifyLineItemRow, column: usize) -> (o: TextOrder)
        ensures
            o == if column < 4 { text_order(item_cell(*l, column), item_cell(*r, column)) } else { TextOrder::Equal },
    {
        if column == 0 {
            compare_text(l.name.as_str(), r.name.as_str())
        } else if column == 1 {
            compare_text(l.reference.as_str(), r.reference.as_str())
        } else if column == 2 {
            compare_text(l.quantity.as_str(), r.quantity.as_str())
        } else if column == 3 {
            compare_text(l.serials.as_str(), r.serials.as_str())
        } else {
            TextOrder::Equal
        }
    }
}

/// What precedes the first `T` of `s`; all of `s` when it has none.
pub open spec fn before_t(s: Seq<char>) -> Seq<char>
    decreases s.len(),
{
    if s.len() == 0 {
        s
    } else if s[0] == 'T' {
        Seq::empty()
    } else {
        seq![s[0]] + before_t(s.skip(1))
    }
}

/// Date portion of an ISO-8601 timestamp (`2026-06-15T17:54:35Z` → `2026-06-15`);
/// nothing without a timestamp.
pub fn short_date(iso: Option<&str>) -> (s: String)
    ensures
        s@ == match iso { Some(t) => before_t(t@), None => Seq::empty() },
{
    match iso {
        None => String::new(),
        Some(t) => {
            let v = crate::text::chars_of(t);
            let mut i: usize = 0;
            proof {
                assert(t@.subrange(0, 0) + t@.skip(0) =~= t@);
            }
            while i < v.len() && v[i] != 'T'
                invariant
                    v@ == t@,
                    i <= t@.len(),
                    forall|k: int| 0 <= k < i ==> t@[k] != 'T',
                    before_t(t@) == t@.subrange(0, i as int) + before_t(t@.skip(i as int)),
                decreases t@.len() - i,
            {
                proof {
                    let rest = t@.skip(i as int);
                    assert(rest[0] == v@[i as int]);
                    assert(rest.skip(1) =~= t@.skip(i + 1));
                    assert(t@.subrange(0, i + 1) =~= t@.subrange(0, i as int) + seq![rest[0]]);
                }
                i = i + 1;
            }
            proof {
                let rest = t@.skip(i as int);
                if i < v.len() {
                    assert(rest[0] == 'T');
                }
                assert(before_t(rest) =~= Seq::<char>::empty());
                assert(t@.subrange(0, i as int) + Seq::<char>::empty() =~= t@.subrange(0, i as int));
            }
            t.substring_char(0, i).to_owned()
        },
    }
}

/// The reference shown for an order: its reference, or its id when it has none.
pub fn order_reference(id: &str, reference: &str) -> (s: String)
    ensures
        s@ == if reference@.len() == 0 { id@ } else { reference@ },
{
    if reference.unicode_len() == 0 { owned(id) } else { owned(reference) }
}

/// The serials cell of an order: attached out of expected.
pub fn serials_cell(attached: u64, expected: u64) -> (s: String)
    ensures
        s@ == decimal(attached as nat) + "/"@ + decimal(expected as nat),
{
    let mut s = String::new();
    push_decimal(&mut s, attached);
    push_str(&mut s, "/");
    push_decimal(&mut s, expected);
    s
}

/// The serials cell of a line item: its serials comma separated, or a dash.
pub fn item_serials_cell(serials: &Vec<String>) -> (s: String)
    ensures
        s@ == if serials@.len() == 0 { "\u{2014}"@ } else { join(serials@.map_values(|x: String| x@), ", "@) },
{
    if serials.len() == 0 {
        return owned("\u{2014}");
    }
    let ghost parts = serials@.map_values(|x: String| x@);
    let mut s = String::new();
    let mut k: usize = 0;
    while k < serials.len()
        invariant
            k <= serials@.len(),
            parts == serials@.map_values(|x: String| x@),
            s@ == join(parts.subrange(0, k as int), ", "@),
        decreases serials@.len() - k,
    {
        if k > 0 {
            push_str(&mut s, ", ");
        }
        push_str(&mut s, serials[k].as_str());
        k = k + 1;
        proof {
            assert(parts.subrange(0, k as int).drop_last() =~= parts.subrange(0, k - 1));
            if k == 1 {
                assert(s@ =~= parts.subrange(0, 1)[0]);
            }
        }
    }
    proof {
        assert(parts.subrange(0, k as int) =~= parts);
    }
    s
}

/// A row of the orders table, from an order's summary.
pub fn row_from_summary(id: &str, reference: &str, status: &str, customer: &str, model: &str, attached: u64,
    expected: u64, created_at: Option<&str>, lookup: &str) -> (r: ShopifyOrderRow)
    ensures
        r.reference@ == if reference@.len() == 0 { id@ } else { reference@ },
        r.status@ == status@,
        r.customer@ == customer@,
        r.build@ == model@,
        r.serials@ == decimal(attached as nat) + "/"@ + decimal(expected as nat),
        r.placed@ == match created_at { Some(t) => before_t(t@), None => Seq::empty() },
        r.lookup@ == lookup@,
{
    ShopifyOrderRow {
        reference: order_reference(id, reference),
        status: owned(status),
        customer: owned(customer),
        build: owned(model),
        serials: serials_cell(attached, expected),
        placed: short_date(created_at),
        lookup: owned(lookup),
    }
}

/// What the lookup box sends for `input`: trimmed; a bare number is taken as
/// a Shopify order number; nothing at all when it is blank.
pub open spec fn lookup_text(input: Seq<char>) -> Option<Seq<char>> {
    let raw = trimmed(input);
    if raw.len() == 0 {
        None
    } else if has_prefix(raw, "#"@) || has_prefix(uppercase(raw), "XBS-"@) {
        Some(raw)
    } else {
        Some("#"@ + raw)
    }
}

/// What the order lookup box sends for `input`, if anything.
pub fn normalize_lookup(input: &str) -> (r: Option<String>)
    ensures
        match r { Some(s) => Some(s@), None => None } == lookup_text(input@),
{
    let raw = trim(input);
    if raw.as_str().unicode_len() == 0 {
        return None;
    }
    let up = to_uppercase(raw.as_str());
    if starts_with(raw.as_str(), "#") || starts_with(up.as_str(), "XBS-") {
        Some(raw)
    } else {
        let mut s = owned("#");
        push_str(&mut s, raw.as_str());
        Some(s)
    }
}

/// The number of orders asked for first, and added by each "Load more".
pub const ORDERS_PAGE: usize = 10;

/// After `count` orders came back for a request of `limit`: whether more
/// may be waiting, which is when the page came back full.
pub fn more_orders_waiting(count: usize, limit: usize) -> (b: bool)
    ensures
        b == (count >= limit),
{
    count >= limit
}

/// The number of orders asked for after "Load more".
pub fn next_limit(limit: usize) -> (n: usize)
    requires
        limit + ORDERS_PAGE <= usize::MAX,
    ensures
        n == limit + ORDERS_PAGE,
{
    limit + ORDERS_PAGE
}

/// A blank filter shows every order, and a filter found, in lower case, in
/// any one of the order number, status, customer or build shows the order,
/// whatever the other cells hold; a shown order has the filter in one of
/// those four cells.
pub proof fn lemma_filter_found_in_any_cell_shows_order(filter: Seq<char>, row: ShopifyOrderRow)
    ensures
        lowercase(trimmed(filter)).len() == 0 ==> order_shown(filter, row),
        seq_contains(lowercase(row.reference@), lowercase(trimmed(filter))) ==> order_shown(filter, row),
        seq_contains(lowercase(row.status@), lowercase(trimmed(filter))) ==> order_shown(filter, row),
        seq_contains(lowercase(row.customer@), lowercase(trimmed(filter))) ==> order_shown(filter, row),
        seq_contains(lowercase(row.build@), lowercase(trimmed(filter))) ==> order_shown(filter, row),
        order_shown(filter, row) ==> lowercase(trimmed(filter)).len() == 0
            || seq_contains(lowercase(row.reference@), lowercase(trimmed(filter)))
            || seq_contains(lowercase(row.status@), lowercase(trimmed(filter)))
            || seq_contains(lowercase(row.customer@), lowercase(trimmed(filter)))
            || seq_contains(lowercase(row.build@), lowercase(trimmed(filter))),
{
}

/// The lookup box sends nothing for blank input, and otherwise the trimmed
/// input itself, a `#` put before it unless it already names an order (`#`)
/// or a build (`XBS-`, in any case); so what it sends always ends with what
/// was typed and is never empty.
pub proof fn lemma_lookup_sends_what_was_typed(input: Seq<char>)
    ensures
        trimmed(input).len() == 0 <==> lookup_text(input) is None,
        lookup_text(input) matches Some(t) ==> crate::text::has_suffix(t, trimmed(input)) && t.len() > 0,
        lookup_text(input) matches Some(t) ==> has_prefix(t, "#"@) || t == trimmed(input),
        !has_prefix(trimmed(input), "#"@) && !has_prefix(uppercase(trimmed(input)), "XBS-"@)
            && trimmed(input).len() > 0 ==> lookup_text(input) == Some("#"@ + trimmed(input)),
{
    reveal_strlit("#");
    let raw = trimmed(input);
    if raw.len() > 0 {
        let t = "#"@ + raw;
        assert(t.subrange(t.len() - raw.len(), t.len() as int) =~= raw);
        assert(t.subrange(0, 1) =~= "#"@);
        assert(raw.subrange(raw.len() - raw.len(), raw.len() as int) =~= raw);
    }
}

} // verus!
