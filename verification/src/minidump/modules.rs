//! The loaded-module table of a kernel crash: which drivers it lists under a
//! filter and in which order, how their addresses and sizes read, and the
//! module names recorded with a sighting.
use vstd::prelude::*;
use crate::text::{owned, push_str, push_decimal, decimal, str_contains, seq_contains, compare_text, text_order,
    TextOrder, strictly_ascending, sorted_unique};
use crate::github::{ascii_lowercase, to_ascii_lowercase};
use crate::minidump::{ModuleSort, push_fixed_hex, fixed_hex};

verus! {

/// A loaded driver as the module table shows it.
pub struct DriverRow {
    pub name: String,
    pub base: u64,
    pub size: u64,
}

/// Whether the driver `a` may come before `b` when the table is sorted by `sort`.
pub open spec fn module_before(sort: ModuleSort, a: DriverRow, b: DriverRow) -> bool {
    match sort {
        ModuleSort::Base => a.base <= b.base,
        ModuleSort::Size => a.size <= b.size,
        ModuleSort::Name => text_order(a.name@, b.name@) != TextOrder::Greater,
    }
}

/// Whether the driver named `name` is listed under `filter`.
pub open spec fn listed_under(name: Seq<char>, filter: Seq<char>) -> bool {
    ascii_lowercase(filter).len() == 0 || seq_contains(name, ascii_lowercase(filter))
}

/// The positions, among the first `n` drivers, of those listed under `filter`.
pub open spec fn kept_positions(drivers: Seq<DriverRow>, filter: Seq<char>, n: int) -> Seq<int>
    decreases n,
{
    if n <= 0 {
        Seq::empty()
    } else {
        let rest = kept_positions(drivers, filter, n - 1);
        if listed_under(drivers[n - 1].name@, filter) { rest.push(n - 1) } else { rest }
    }
}

/// The position `i` placed into `sorted` after every driver that may come before it.
pub open spec fn insert_position(drivers: Seq<DriverRow>, sort: ModuleSort, sorted: Seq<int>, i: int) -> Seq<int>
    decreases sorted.len(),
{
    if sorted.len() == 0 {
        seq![i]
    } else if module_before(sort, drivers[sorted.last()], drivers[i]) {
        sorted.push(i)
    } else {
        insert_position(drivers, sort, sorted.drop_last(), i).push(sorted.last())
    }
}

/// The positions `order` sorted by `sort`, equal drivers in the order given (a stable sort).
pub open spec fn sorted_positions(drivers: Seq<DriverRow>, sort: ModuleSort, order: Seq<int>) -> Seq<int>
    decreases order.len(),
{
    if order.len() == 0 {
        order
    } else {
        insert_position(drivers, sort, sorted_positions(drivers, sort, order.drop_last()), order.last())
    }
}

/// The rows the module table shows, by position: the drivers listed under
/// `filter`, sorted by `sort`, the whole order reversed when descending.
pub open spec fn module_table(drivers: Seq<DriverRow>, filter: Seq<char>, sort: ModuleSort, descending: bool) -> Seq<int> {
    let s = sorted_positions(drivers, sort, kept_positions(drivers, filter, drivers.len() as int));
    if descending { s.reverse() } else { s }
}

proof fn lemma_insert_position_at(drivers: Seq<DriverRow>, sort: ModuleSort, s: Seq<int>, i: int, p: int)
    requires
        0 <= p <= s.len(),
        p > 0 ==> module_before(sort, drivers[s[p - 1]], drivers[i]),
        forall|j: int| p <= j < s.len() ==> !module_before(sort, drivers[#[trigger] s[j]], drivers[i]),
    ensures
        insert_position(drivers, sort, s, i) == s.insert(p, i),
    decreases s.len(),
{
    if s.len() == 0 {
        assert(s.insert(p, i) =~= seq![i]);
    } else if s.len() == p {
        assert(s.insert(p, i) =~= s.push(i));
    } else {
        assert(!module_before(sort, drivers[s[s.len() - 1]], drivers[i]));
        lemma_insert_position_at(drivers, sort, s.drop_last(), i, p);
        assert(s.insert(p, i) =~= s.drop_last().insert(p, i).push(s.last()));
    }
}

/// Every two positions of `s` side by side list their drivers in `sort` order.
pub open spec fn rows_in_order(drivers: Seq<DriverRow>, sort: ModuleSort, s: Seq<int>) -> bool {
    forall|i: int| 0 <= i < s.len() - 1 ==> module_before(sort, drivers[#[trigger] s[i]], drivers[s[i + 1]])
}

proof fn lemma_module_before_total(sort: ModuleSort, a: DriverRow, b: DriverRow)
    ensures
        module_before(sort, a, b) || module_before(sort, b, a),
{
    crate::text::lemma_text_order_flip(a.name@, b.name@);
}

proof fn lemma_insert_position_facts(drivers: Seq<DriverRow>, sort: ModuleSort, s: Seq<int>, i: int)
    ensures
        insert_position(drivers, sort, s, i).len() == s.len() + 1,
        s.len() > 0 ==> insert_position(drivers, sort, s, i).last() == i
            || insert_position(drivers, sort, s, i).last() == s.last(),
        insert_position(drivers, sort, s, i).to_multiset() == s.to_multiset().insert(i),
        rows_in_order(drivers, sort, s) ==> rows_in_order(drivers, sort, insert_position(drivers, sort, s, i)),
    decreases s.len(),
{
    broadcast use vstd::seq_lib::group_to_multiset_ensures;
    if s.len() == 0 {
        assert(seq![i] =~= Seq::<int>::empty().push(i));
    } else if module_before(sort, drivers[s.last()], drivers[i]) {
        if rows_in_order(drivers, sort, s) {
            let t = s.push(i);
            assert forall|k: int| 0 <= k < t.len() - 1 implies module_before(sort, drivers[#[trigger] t[k]], drivers[t[k + 1]]) by {
                if k < s.len() - 1 {
                    assert(t[k] == s[k] && t[k + 1] == s[k + 1]);
                }
            }
        }
    } else {
        let d = s.drop_last();
        let inner = insert_position(drivers, sort, d, i);
        lemma_insert_position_facts(drivers, sort, d, i);
        assert(s =~= d.push(s.last()));
        assert(inner.push(s.last()).to_multiset() =~= s.to_multiset().insert(i));
        if rows_in_order(drivers, sort, s) {
            assert forall|k: int| 0 <= k < d.len() - 1 implies module_before(sort, drivers[#[trigger] d[k]], drivers[d[k + 1]]) by {
                assert(d[k] == s[k] && d[k + 1] == s[k + 1]);
            }
            lemma_module_before_total(sort, drivers[s.last()], drivers[i]);
            let t = inner.push(s.last());
            assert forall|k: int| 0 <= k < t.len() - 1 implies module_before(sort, drivers[#[trigger] t[k]], drivers[t[k + 1]]) by {
                if k < inner.len() - 1 {
                    assert(t[k] == inner[k] && t[k + 1] == inner[k + 1]);
                } else {
                    assert(t[k] == inner.last() && t[k + 1] == s.last());
                    if d.len() > 0 && inner.last() == d.last() {
                        assert(d.last() == s[s.len() - 2]);
                        assert(module_before(sort, drivers[s[s.len() - 2]], drivers[s[s.len() - 1]]));
                    }
                }
            }
        }
    }
}

proof fn lemma_sorted_positions_facts(drivers: Seq<DriverRow>, sort: ModuleSort, order: Seq<int>)
    ensures
        sorted_positions(drivers, sort, order).to_multiset() == order.to_multiset(),
        rows_in_order(drivers, sort, sorted_positions(drivers, sort, order)),
    decreases order.len(),
{
    broadcast use vstd::seq_lib::group_to_multiset_ensures;
    if order.len() > 0 {
        let d = order.drop_last();
        lemma_sorted_positions_facts(drivers, sort, d);
        lemma_insert_position_facts(drivers, sort, sorted_positions(drivers, sort, d), order.last());
        assert(order =~= d.push(order.last()));
    }
}

/// The module table lists each driver the filter keeps, once, in `sort`
/// order; descending, it lists the same rows as ascending, in reverse.
pub proof fn lemma_module_table(drivers: Seq<DriverRow>, filter: Seq<char>, sort: ModuleSort)
    ensures
        module_table(drivers, filter, sort, false).to_multiset()
            == kept_positions(drivers, filter, drivers.len() as int).to_multiset(),
        rows_in_order(drivers, sort, module_table(drivers, filter, sort, false)),
        module_table(drivers, filter, sort, true) == module_table(drivers, filter, sort, false).reverse(),
{
    lemma_sorted_positions_facts(drivers, sort, kept_positions(drivers, filter, drivers.len() as int));
}

fn row_before(sort: ModuleSort, a: &DriverRow, b: &DriverRow) -> (r: bool)
    ensures
        r == module_before(sort, *a, *b),
{
    match sort {
        ModuleSort::Base => a.base <= b.base,
        ModuleSort::Size => a.size <= b.size,
        ModuleSort::Name => compare_text(a.name.as_str(), b.name.as_str()) != TextOrder::Greater,
    }
}

/// The positions of the drivers the module table shows, in the order it
/// shows them.
pub fn module_rows(drivers: &Vec<DriverRow>, filter: &str, sort: ModuleSort, descending: bool) -> (rows: Vec<usize>)
    ensures
        rows@.map_values(|j: usize| j as int) == module_table(drivers@, filter@, sort, descending),
{
    let f = to_ascii_lowercase(filter);
    let mut perm: Vec<usize> = Vec::new();
    let mut i: usize = 0;
    proof {
        assert(perm@.map_values(|j: usize| j as int) =~= Seq::<int>::empty());
    }
    while i < drivers.len()
        invariant
            i <= drivers@.len(),
            f@ == ascii_lowercase(filter@),
            forall|k: int| 0 <= k < perm@.len() ==> #[trigger] perm@[k] < drivers@.len(),
            perm@.map_values(|j: usize| j as int)
                == sorted_positions(drivers@, sort, kept_positions(drivers@, filter@, i as int)),
        decreases drivers@.len() - i,
    {
        let ghost sorted = perm@.map_values(|j: usize| j as int);
        let ghost kept = kept_positions(drivers@, filter@, i as int);
        if f.as_str().unicode_len() == 0 || str_contains(drivers[i].name.as_str(), f.as_str()) {
            let mut p: usize = perm.len();
            while p > 0 && !row_before(sort, &drivers[perm[p - 1]], &drivers[i])
                invariant
                    p <= perm@.len(),
                    i < drivers@.len(),
                    sorted == perm@.map_values(|j: usize| j as int),
                    forall|k: int| 0 <= k < perm@.len() ==> #[trigger] perm@[k] < drivers@.len(),
                    forall|j: int| p <= j < sorted.len()
                        ==> !module_before(sort, drivers@[#[trigger] sorted[j]], drivers@[i as int]),
                decreases p,
            {
                p = p - 1;
            }
            proof {
                lemma_insert_position_at(drivers@, sort, sorted, i as int, p as int);
                assert(kept_positions(drivers@, filter@, i + 1) == kept.push(i as int));
                assert(kept.push(i as int).drop_last() =~= kept);
            }
            perm.insert(p, i);
            proof {
                assert(perm@.map_values(|j: usize| j as int) =~= sorted.insert(p as int, i as int));
            }
        } else {
            proof {
                assert(kept_positions(drivers@, filter@, i + 1) == kept);
            }
        }
        i = i + 1;
    }
    if descending {
        let mut rev: Vec<usize> = Vec::new();
        let mut k: usize = perm.len();
        let ghost s = perm@.map_values(|j: usize| j as int);
        while k > 0
            invariant
                k <= perm@.len(),
                s == perm@.map_values(|j: usize| j as int),
                rev@.len() == perm@.len() - k,
                forall|m: int| 0 <= m < rev@.len() ==> #[trigger] rev@[m] as int == s[perm@.len() - 1 - m],
            decreases k,
        {
            k = k - 1;
            rev.push(perm[k]);
        }
        proof {
            assert(rev@.map_values(|j: usize| j as int) =~= s.reverse());
        }
        rev
    } else {
        perm
    }
}

/// A base address as the table writes it: `0x` and sixteen hex digits.
pub fn base_text(base: u64) -> (s: String)
    ensures
        s@ == "0x"@ + fixed_hex(base as nat, 16),
{
    let mut s = owned("0x");
    push_fixed_hex(&mut s, base, 16);
    s
}

/// A module size as the table writes it: whole kilobytes.
pub fn size_text(size: u64) -> (s: String)
    ensures
        s@ == decimal((size / 1024) as nat) + " KB"@,
{
    let mut s = String::new();
    push_decimal(&mut s, size / 1024);
    push_str(&mut s, " KB");
    s
}

/// The module names recorded with a sighting: the stems of the loaded
/// drivers, each once, in text order.
pub fn loaded_modules(stems: &Vec<String>) -> (names: Vec<String>)
    ensures
        strictly_ascending(names@.map_values(|n: String| n@)),
        names@.map_values(|n: String| n@).to_set() == stems@.map_values(|n: String| n@).to_set(),
{
    sorted_unique(stems)
}

} // verus!
