//! The file browser: what clicking entries does to the selection, the order
//! folders are listed in, and the texts and checks around copying, pasting,
//! renaming and deleting. The filesystem stays with the caller.
use vstd::prelude::*;
use crate::text::{owned, push_str, push_decimal, decimal, str_eq, compare_text, text_order, TextOrder, sorted_unique,
    strictly_ascending};

verus! {

/// The entries selected in the browser, by path; no path twice.
pub struct FileSelection {
    items: Vec<String>,
}

/// The paths of `v`.
pub open spec fn paths(v: Seq<String>) -> Seq<Seq<char>> {
    v.map_values(|s: String| s@)
}

impl View for FileSelection {
    type V = Set<Seq<char>>;

    closed spec fn view(&self) -> Set<Seq<char>> {
        paths(self.items@).to_set()
    }
}

impl FileSelection {
    /// No path appears twice.
    pub closed spec fn wf(&self) -> bool {
        paths(self.items@).no_duplicates()
    }

    /// Nothing selected.
    pub fn new() -> (s: FileSelection)
        ensures
            s.wf(),
            s@ == Set::<Seq<char>>::empty(),
    {
        let s = FileSelection { items: Vec::new() };
        assert(paths(s.items@) =~= Seq::<Seq<char>>::empty());
        s
    }

    /// The number of selected entries.
    pub fn len(&self) -> (n: usize)
        requires
            self.wf(),
        ensures
            n == self@.len(),
    {
        proof {
            paths(self.items@).unique_seq_to_set();
        }
        self.items.len()
    }

    fn position(&self, path: &str) -> (r: Option<usize>)
        ensures
            match r {
                Some(i) => i < self.items@.len() && self.items@[i as int]@ == path@,
                None => !self@.contains(path@),
            },
    {
        let mut i: usize = 0;
        while i < self.items.len()
            invariant
                i <= self.items@.len(),
                forall|k: int| 0 <= k < i ==> #[trigger] self.items@[k]@ != path@,
            decreases self.items@.len() - i,
        {
            if str_eq(self.items[i].as_str(), path) {
                return Some(i);
            }
            i = i + 1;
        }
        proof {
            if paths(self.items@).to_set().contains(path@) {
                let k = choose|k: int| 0 <= k < paths(self.items@).len() && paths(self.items@)[k] == path@;
                assert(self.items@[k]@ == path@);
            }
        }
        None
    }

    /// Whether `path` is selected.
    pub fn contains(&self, path: &str) -> (b: bool)
        ensures
            b == self@.contains(path@),
    {
        match self.position(path) {
            Some(i) => {
                proof {
                    assert(paths(self.items@)[i as int] == path@);
                }
                true
            },
            None => false,
        }
    }

    /// Selects `path` too.
    pub fn insert(&mut self, path: &str)
        requires
            old(self).wf(),
        ensures
            final(self).wf(),
            final(self)@ == old(self)@.insert(path@),
    {
        if !self.contains(path) {
            let ghost before = paths(self.items@);
            self.items.push(owned(path));
            proof {
                assert(paths(self.items@) =~= before.push(path@));
                assert(paths(self.items@).to_set() =~= before.to_set().insert(path@)) by {
                    broadcast use vstd::seq_lib::group_seq_properties;
                }
            }
        } else {
            proof {
                assert(old(self)@.insert(path@) =~= old(self)@);
            }
        }
    }

    /// Unselects `path`.
    pub fn remove(&mut self, path: &str)
        requires
            old(self).wf(),
        ensures
            final(self).wf(),
            final(self)@ == old(self)@.remove(path@),
    {
        match self.position(path) {
            Some(i) => {
                let ghost before = paths(self.items@);
                self.items.remove(i);
                proof {
                    assert(paths(self.items@) =~= before.remove(i as int));
                    broadcast use vstd::seq_lib::group_seq_properties;
                    assert forall|x: Seq<char>| #[trigger] paths(self.items@).to_set().contains(x)
                        == before.to_set().remove(path@).contains(x) by {
                        if paths(self.items@).contains(x) {
                            let k = choose|k: int| 0 <= k < paths(self.items@).len() && paths(self.items@)[k] == x;
                            let k2 = if k < i { k } else { k + 1 };
                            assert(before[k2] == x);
                            assert(k2 != i);
                            assert(before[i as int] == path@);
                            if x == path@ {
                                assert(before[k2] == before[i as int]);
                                assert(false);
                            }
                            assert(before.contains(x));
                        }
                        if before.contains(x) && x != path@ {
                            let k = choose|k: int| 0 <= k < before.len() && before[k] == x;
                            assert(k != i);
                            let k2 = if k < i { k } else { k - 1 };
                            assert(paths(self.items@)[k2] == x);
                            assert(paths(self.items@).contains(x));
                        }
                    }
                    assert(paths(self.items@).to_set() =~= before.to_set().remove(path@));
                }
            },
            None => {
                proof {
                    assert(old(self)@.remove(path@) =~= old(self)@);
                }
            },
        }
    }

    /// Unselects everything.
    pub fn clear(&mut self)
        ensures
            final(self).wf(),
            final(self)@ == Set::<Seq<char>>::empty(),
    {
        self.items = Vec::new();
        assert(paths(self.items@) =~= Seq::<Seq<char>>::empty());
    }

    /// The one selected path, when exactly one is selected.
    pub fn single(&self) -> (r: Option<String>)
        requires
            self.wf(),
        ensures
            match r {
                Some(p) => self@ == set![p@],
                None => self@.len() != 1,
            },
    {
        proof {
            paths(self.items@).unique_seq_to_set();
        }
        if self.items.len() == 1 {
            proof {
                assert(paths(self.items@) =~= seq![self.items@[0]@]);
                assert(paths(self.items@).to_set() =~= set![self.items@[0]@]) by {
                    broadcast use vstd::seq_lib::group_seq_properties;
                    assert forall|x: Seq<char>| paths(self.items@).to_set().contains(x) implies x == self.items@[0]@ by {
                        let k = choose|k: int| 0 <= k < paths(self.items@).len() && paths(self.items@)[k] == x;
                    }
                    assert(paths(self.items@).contains(self.items@[0]@));
                }
            }
            Some(owned(self.items[0].as_str()))
        } else {
            None
        }
    }

    /// A click on the folder `path`: with control held it joins the
    /// selection, else it becomes the whole selection.
    pub fn click_folder(&mut self, path: &str, ctrl: bool)
        requires
            old(self).wf(),
        ensures
            final(self).wf(),
            final(self)@ == if ctrl { old(self)@.insert(path@) } else { set![path@] },
    {
        if self.contains(path) {
            self.remove(path);
        }
        if ctrl {
            self.insert(path);
            proof {
                assert(self@ =~= old(self)@.insert(path@));
            }
        } else {
            self.clear();
            self.insert(path);
            proof {
                assert(self@ =~= set![path@]);
            }
        }
    }

    /// A click on the file `path`: with control held it leaves the selection;
    /// without, a selected file is unselected and any other becomes the
    /// whole selection.
    pub fn click_file(&mut self, path: &str, ctrl: bool)
        requires
            old(self).wf(),
        ensures
            final(self).wf(),
            final(self)@ == if ctrl || old(self)@.contains(path@) { old(self)@.remove(path@) } else { set![path@] },
    {
        if ctrl {
            self.insert(path);
        }
        if self.contains(path) {
            self.remove(path);
            proof {
                assert(self@ =~= old(self)@.remove(path@));
            }
        } else {
            self.clear();
            self.insert(path);
            proof {
                assert(self@ =~= set![path@]);
            }
        }
    }
}

/// Whether the selection may be renamed to `filename_edit`: a name is typed,
/// exactly one entry is selected, and the name differs from its own.
pub fn can_rename(filename_edit: &str, single_name: Option<&str>) -> (b: bool)
    ensures
        b == (filename_edit@.len() > 0 && match single_name { Some(n) => n@ != filename_edit@, None => false }),
{
    if filename_edit.unicode_len() == 0 {
        return false;
    }
    match single_name {
        Some(n) => !str_eq(n, filename_edit),
        None => false,
    }
}

/// The name a new folder is created with: the one typed, else "New folder".
pub fn new_folder_name(filename_edit: &str) -> (s: String)
    ensures
        s@ == if filename_edit@.len() == 0 { "New folder"@ } else { filename_edit@ },
{
    if filename_edit.unicode_len() == 0 { owned("New folder") } else { owned(filename_edit) }
}

/// How copied entries are named in a notification: the entry's name for
/// one, else their number.
pub fn copied_name(count: u64, single_name: &str) -> (s: String)
    ensures
        s@ == if count == 1 { single_name@ } else { decimal(count as nat) + " items"@ },
{
    if count == 1 {
        owned(single_name)
    } else {
        let mut s = String::new();
        push_decimal(&mut s, count);
        push_str(&mut s, " items");
        s
    }
}

/// The notification after entries were copied.
pub fn copied_toast(count: u64, single_name: &str) -> (s: String)
    ensures
        s@ == "Copied "@ + if count == 1 { single_name@ } else { decimal(count as nat) + " items"@ },
{
    let mut s = owned("Copied ");
    let n = copied_name(count, single_name);
    push_str(&mut s, n.as_str());
    s
}

/// What a clipboard shortcut does in the browser.
#[derive(PartialEq, Eq, Structural, Clone, Copy, Debug)]
pub enum ClipboardAction {
    /// Take the selection as the entries to copy.
    Copy,
    /// Take the selection as the entries to move.
    Cut,
    /// Paste the taken entries.
    Paste,
    /// Nothing.
    Nothing,
}

/// What the keys pressed do: with shift held, copy or cut take a non-empty
/// selection (copy first), else paste pastes.
pub fn clipboard_action(copy: bool, cut: bool, paste: bool, shift: bool, selected: usize) -> (a: ClipboardAction)
    ensures
        a == if copy && shift && selected > 0 {
            ClipboardAction::Copy
        } else if cut && shift && selected > 0 {
            ClipboardAction::Cut
        } else if paste && shift {
            ClipboardAction::Paste
        } else {
            ClipboardAction::Nothing
        },
{
    if copy && shift && selected > 0 {
        ClipboardAction::Copy
    } else if cut && shift && selected > 0 {
        ClipboardAction::Cut
    } else if paste && shift {
        ClipboardAction::Paste
    } else {
        ClipboardAction::Nothing
    }
}

/// The notification when entries are pasted into `destination`.
pub fn paste_toast(destination: &str) -> (s: String)
    ensures
        s@ == "Pasting items to: "@ + destination@,
{
    let mut s = owned("Pasting items to: ");
    push_str(&mut s, destination);
    s
}

/// The question asked before deleting `count` entries.
pub fn delete_prompt(count: u64) -> (s: String)
    ensures
        s@ == "Delete "@ + decimal(count as nat) + " item(s)? This cannot be undone."@,
{
    let mut s = owned("Delete ");
    push_decimal(&mut s, count);
    push_str(&mut s, " item(s)? This cannot be undone.");
    s
}

/// Whether the copied entries may be pasted here: not into the folder one of
/// them comes from.
pub fn can_paste(any_from_here: bool) -> (b: bool)
    ensures
        b == !any_from_here,
{
    !any_from_here
}

/// Whether `path` is the root of a drive: a capital letter, a colon and a
/// backslash. The path must be empty of nothing and begin with an ASCII
/// character.
pub fn is_drive_root(path: &str) -> (b: bool)
    requires
        path@.len() > 0,
        (path@[0] as u32) < 128,
    ensures
        b == (path@.len() == 3 && path@[1] == ':' && path@[2] == '\\' && 'A' <= path@[0] && path@[0] <= 'Z'),
{
    let v = crate::text::chars_of(path);
    v.len() == 3 && v[1] == ':' && v[2] == '\\' && 'A' <= v[0] && v[0] <= 'Z'
}

/// The drives offered in the sidebar: the mount points that have a name,
/// each once, in text order.
pub fn drive_list(mounts: &Vec<String>) -> (drives: Vec<String>)
    ensures
        strictly_ascending(drives@.map_values(|d: String| d@)),
        drives@.map_values(|d: String| d@).to_set()
            == mounts@.map_values(|m: String| m@).to_set().filter(|m: Seq<char>| m.len() > 0),
{
    let mut named: Vec<String> = Vec::new();
    let mut i: usize = 0;
    while i < mounts.len()
        invariant
            i <= mounts@.len(),
            named@.map_values(|d: String| d@).to_set()
                == mounts@.subrange(0, i as int).map_values(|m: String| m@).to_set().filter(|m: Seq<char>| m.len() > 0),
        decreases mounts@.len() - i,
    {
        let ghost before = named@.map_values(|d: String| d@);
        let ghost sub0 = mounts@.subrange(0, i as int).map_values(|m: String| m@);
        let ghost sub1 = mounts@.subrange(0, i + 1).map_values(|m: String| m@);
        let ghost m = mounts@[i as int]@;
        proof {
            assert(sub1 =~= sub0.push(m));
        }
        if mounts[i].as_str().unicode_len() > 0 {
            named.push(mounts[i].clone());
            proof {
                let after = named@.map_values(|d: String| d@);
                assert(after =~= before.push(m));
                assert forall|x: Seq<char>| #[trigger] after.to_set().contains(x)
                    <==> sub1.to_set().filter(|m: Seq<char>| m.len() > 0).contains(x) by {
                    assert(before.to_set().contains(x) == sub0.to_set().filter(|m: Seq<char>| m.len() > 0).contains(x));
                    if after.contains(x) {
                        let k = choose|k: int| 0 <= k < after.len() && after[k] == x;
                        if k < before.len() {
                            assert(before[k] == x);
                            let j = choose|j: int| 0 <= j < sub0.len() && sub0[j] == x;
                            assert(sub1[j] == x);
                        } else {
                            assert(sub1[i as int] == x);
                        }
                    }
                    if sub1.contains(x) && x.len() > 0 {
                        let j = choose|j: int| 0 <= j < sub1.len() && sub1[j] == x;
                        if j < i {
                            assert(sub0[j] == x);
                            let k = choose|k: int| 0 <= k < before.len() && before[k] == x;
                            assert(after[k] == x);
                        } else {
                            assert(after[before.len() as int] == x);
                        }
                    }
                }
                assert(after.to_set() =~= sub1.to_set().filter(|m: Seq<char>| m.len() > 0));
            }
        } else {
            proof {
                assert forall|x: Seq<char>| #[trigger] before.to_set().contains(x)
                    <==> sub1.to_set().filter(|m: Seq<char>| m.len() > 0).contains(x) by {
                    assert(before.to_set().contains(x) == sub0.to_set().filter(|m: Seq<char>| m.len() > 0).contains(x));
                    if sub1.contains(x) && x.len() > 0 {
                        let j = choose|j: int| 0 <= j < sub1.len() && sub1[j] == x;
                        assert(j < i);
                        assert(sub0[j] == x);
                    }
                    if sub0.contains(x) {
                        let j = choose|j: int| 0 <= j < sub0.len() && sub0[j] == x;
                        assert(sub1[j] == x);
                    }
                }
                assert(before.to_set() =~= sub1.to_set().filter(|m: Seq<char>| m.len() > 0));
            }
        }
        i = i + 1;
    }
    proof {
        assert(mounts@.subrange(0, i as int) =~= mounts@);
    }
    sorted_unique(&named)
}

/// One entry of a folder listing.
pub struct ListingEntry {
    pub path: String,
    pub name: String,
    /// The path leads to a directory.
    pub is_dir: bool,
    /// The path leads to a regular file.
    pub is_file: bool,
}

/// Whether `a` may come before `b` in a listing: folders first, then by name.
pub open spec fn listed_before(a: ListingEntry, b: ListingEntry) -> bool {
    if a.is_dir == b.is_dir { text_order(a.name@, b.name@) != TextOrder::Greater } else { a.is_dir }
}

/// `e` placed into `sorted` after every entry that may come before it.
pub open spec fn insert_listed(sorted: Seq<ListingEntry>, e: ListingEntry) -> Seq<ListingEntry>
    decreases sorted.len(),
{
    if sorted.len() == 0 {
        seq![e]
    } else if listed_before(sorted.last(), e) {
        sorted.push(e)
    } else {
        insert_listed(sorted.drop_last(), e).push(sorted.last())
    }
}

/// A listing in the order the browser shows it: folders first, then by
/// name, equal entries in the order they came (a stable sort).
pub open spec fn listing_order(entries: Seq<ListingEntry>) -> Seq<ListingEntry>
    decreases entries.len(),
{
    if entries.len() == 0 { entries } else { insert_listed(listing_order(entries.drop_last()), entries.last()) }
}

proof fn lemma_insert_listed_at(s: Seq<ListingEntry>, e: ListingEntry, p: int)
    requires
        0 <= p <= s.len(),
        p > 0 ==> listed_before(s[p - 1], e),
        forall|j: int| p <= j < s.len() ==> !listed_before(#[trigger] s[j], e),
    ensures
        insert_listed(s, e) == s.insert(p, e),
    decreases s.len(),
{
    if s.len() == 0 {
        assert(s.insert(p, e) =~= seq![e]);
    } else if s.len() == p {
        assert(s.insert(p, e) =~= s.push(e));
    } else {
        assert(!listed_before(s[s.len() - 1], e));
        lemma_insert_listed_at(s.drop_last(), e, p);
        assert(s.insert(p, e) =~= s.drop_last().insert(p, e).push(s.last()));
    }
}

/// Every two entries of `s` side by side are in listing order.
pub open spec fn listed_in_order(s: Seq<ListingEntry>) -> bool {
    forall|i: int| 0 <= i < s.len() - 1 ==> listed_before(#[trigger] s[i], s[i + 1])
}

proof fn lemma_listed_total(a: ListingEntry, b: ListingEntry)
    ensures
        listed_before(a, b) || listed_before(b, a),
{
    crate::text::lemma_text_order_flip(a.name@, b.name@);
}

proof fn lemma_insert_listed_facts(s: Seq<ListingEntry>, e: ListingEntry)
    ensures
        insert_listed(s, e).len() == s.len() + 1,
        s.len() > 0 ==> insert_listed(s, e).last() == e || insert_listed(s, e).last() == s.last(),
        insert_listed(s, e).to_multiset() == s.to_multiset().insert(e),
        listed_in_order(s) ==> listed_in_order(insert_listed(s, e)),
    decreases s.len(),
{
    broadcast use vstd::seq_lib::group_to_multiset_ensures;
    if s.len() == 0 {
        assert(seq![e] =~= Seq::<ListingEntry>::empty().push(e));
    } else if listed_before(s.last(), e) {
        if listed_in_order(s) {
            let t = s.push(e);
            assert forall|i: int| 0 <= i < t.len() - 1 implies listed_before(#[trigger] t[i], t[i + 1]) by {
                if i < s.len() - 1 {
                    assert(t[i] == s[i] && t[i + 1] == s[i + 1]);
                }
            }
        }
    } else {
        let d = s.drop_last();
        let inner = insert_listed(d, e);
        lemma_insert_listed_facts(d, e);
        assert(s =~= d.push(s.last()));
        assert(inner.push(s.last()).to_multiset() =~= s.to_multiset().insert(e));
        if listed_in_order(s) {
            assert forall|i: int| 0 <= i < d.len() - 1 implies listed_before(#[trigger] d[i], d[i + 1]) by {
                assert(d[i] == s[i] && d[i + 1] == s[i + 1]);
            }
            lemma_listed_total(s.last(), e);
            let t = inner.push(s.last());
            assert forall|i: int| 0 <= i < t.len() - 1 implies listed_before(#[trigger] t[i], t[i + 1]) by {
                if i < inner.len() - 1 {
                    assert(t[i] == inner[i] && t[i + 1] == inner[i + 1]);
                } else {
                    assert(t[i] == inner.last() && t[i + 1] == s.last());
                    if d.len() > 0 && inner.last() == d.last() {
                        assert(d.last() == s[s.len() - 2]);
                        assert(listed_before(s[s.len() - 2], s[s.len() - 1]));
                    }
                }
            }
        }
    }
}

/// A listing keeps every entry it is given, each as often as given.
pub proof fn lemma_listing_keeps_entries(entries: Seq<ListingEntry>)
    ensures
        listing_order(entries).to_multiset() == entries.to_multiset(),
    decreases entries.len(),
{
    broadcast use vstd::seq_lib::group_to_multiset_ensures;
    if entries.len() > 0 {
        let d = entries.drop_last();
        lemma_listing_keeps_entries(d);
        lemma_insert_listed_facts(listing_order(d), entries.last());
        assert(entries =~= d.push(entries.last()));
    }
}

/// A listing shows folders before files, and within each in text order of
/// their names: every entry may come before the next.
pub proof fn lemma_listing_in_order(entries: Seq<ListingEntry>)
    ensures
        listed_in_order(listing_order(entries)),
    decreases entries.len(),
{
    if entries.len() > 0 {
        let d = entries.drop_last();
        lemma_listing_in_order(d);
        lemma_insert_listed_facts(listing_order(d), entries.last());
    }
}

fn entry_before(a: &ListingEntry, b: &ListingEntry) -> (r: bool)
    ensures
        r == listed_before(*a, *b),
{
    if a.is_dir == b.is_dir {
        compare_text(a.name.as_str(), b.name.as_str()) != TextOrder::Greater
    } else {
        a.is_dir
    }
}

/// The positions of `entries` in the order the browser lists them.
pub fn listing_positions(entries: &Vec<ListingEntry>) -> (perm: Vec<usize>)
    ensures
        forall|k: int| 0 <= k < perm@.len() ==> #[trigger] perm@[k] < entries@.len(),
        perm@.map_values(|j: usize| entries@[j as int]) == listing_order(entries@),
{
    let mut perm: Vec<usize> = Vec::new();
    let mut i: usize = 0;
    proof {
        assert(entries@.subrange(0, 0) =~= Seq::<ListingEntry>::empty());
        assert(perm@.map_values(|j: usize| entries@[j as int]) =~= Seq::<ListingEntry>::empty());
    }
    while i < entries.len()
        invariant
            i <= entries@.len(),
            forall|k: int| 0 <= k < perm@.len() ==> #[trigger] perm@[k] < entries@.len(),
            perm@.map_values(|j: usize| entries@[j as int]) == listing_order(entries@.subrange(0, i as int)),
        decreases entries@.len() - i,
    {
        let ghost sorted = perm@.map_values(|j: usize| entries@[j as int]);
        let mut p: usize = perm.len();
        while p > 0 && !entry_before(&entries[perm[p - 1]], &entries[i])
            invariant
                p <= perm@.len(),
                i < entries@.len(),
                sorted == perm@.map_values(|j: usize| entries@[j as int]),
                forall|k: int| 0 <= k < perm@.len() ==> #[trigger] perm@[k] < entries@.len(),
                forall|j: int| p <= j < sorted.len() ==> !listed_before(#[trigger] sorted[j], entries@[i as int]),
            decreases p,
        {
            p = p - 1;
        }
        proof {
            lemma_insert_listed_at(sorted, entries@[i as int], p as int);
            assert(entries@.subrange(0, i + 1).drop_last() =~= entries@.subrange(0, i as int));
        }
        perm.insert(p, i);
        i = i + 1;
        proof {
            assert(perm@.map_values(|j: usize| entries@[j as int]) =~= sorted.insert(p as int, entries@[i - 1]));
        }
    }
    proof {
        assert(entries@.subrange(0, i as int) =~= entries@);
    }
    perm
}

/// The paths of `entries`, in the order the browser lists them.
pub fn sort_listing(entries: &Vec<ListingEntry>) -> (sorted: Vec<String>)
    ensures
        paths(sorted@) == listing_order(entries@).map_values(|e: ListingEntry| e.path@),
{
    let perm = listing_positions(entries);
    let mut sorted: Vec<String> = Vec::new();
    let mut k: usize = 0;
    while k < perm.len()
        invariant
            k <= perm@.len(),
            forall|m: int| 0 <= m < perm@.len() ==> #[trigger] perm@[m] < entries@.len(),
            perm@.map_values(|j: usize| entries@[j as int]) == listing_order(entries@),
            sorted@.len() == k,
            forall|m: int| 0 <= m < k ==> #[trigger] sorted@[m]@ == entries@[perm@[m] as int].path@,
        decreases perm@.len() - k,
    {
        sorted.push(owned(entries[perm[k]].path.as_str()));
        k = k + 1;
    }
    proof {
        let order = listing_order(entries@);
        assert forall|m: int| 0 <= m < sorted@.len() implies paths(sorted@)[m] == order.map_values(|e: ListingEntry| e.path@)[m] by {
            assert(order[m] == perm@.map_values(|j: usize| entries@[j as int])[m]);
        }
        assert(paths(sorted@) =~= order.map_values(|e: ListingEntry| e.path@));
    }
    sorted
}

/// Whether a walked entry is shown: a directory, or a regular file when
/// files are listed too; anything else (a system file that is neither) never.
pub open spec fn shown(e: ListingEntry, read_dirs_only: bool) -> bool {
    e.is_dir || (!read_dirs_only && e.is_file)
}

/// The entries of `entries` that are shown, in their order.
pub open spec fn shown_entries(entries: Seq<ListingEntry>, read_dirs_only: bool) -> Seq<ListingEntry>
    decreases entries.len(),
{
    if entries.len() == 0 {
        entries
    } else {
        let rest = shown_entries(entries.drop_last(), read_dirs_only);
        if shown(entries.last(), read_dirs_only) { rest.push(entries.last()) } else { rest }
    }
}

/// The contents of a folder as the browser lists them, out of the entries
/// walked in it: only directories when `read_dirs_only`, else directories
/// and regular files; folders first, then by name.
pub fn read_folder(entries: Vec<ListingEntry>, read_dirs_only: bool) -> (listed: Vec<String>)
    ensures
        paths(listed@) == listing_order(shown_entries(entries@, read_dirs_only)).map_values(
            |e: ListingEntry| e.path@),
{
    let ghost all = entries@;
    let mut kept: Vec<ListingEntry> = Vec::new();
    let mut src = entries;
    let mut i: usize = 0;
    assert(all.len() == src.len());
    proof {
        assert(all.subrange(0, 0) =~= Seq::<ListingEntry>::empty());
        assert(src@ =~= all.subrange(0, all.len() as int));
    }
    while src.len() > 0
        invariant
            i <= all.len(),
            all.len() <= usize::MAX,
            src@ == all.subrange(i as int, all.len() as int),
            kept@ == shown_entries(all.subrange(0, i as int), read_dirs_only),
        decreases src@.len(),
    {
        let e = src.remove(0);
        proof {
            let pre = all.subrange(0, i + 1);
            assert(pre.drop_last() =~= all.subrange(0, i as int));
            assert(pre.last() == e);
            assert(src@ =~= all.subrange(i + 1, all.len() as int));
        }
        if e.is_dir || (!read_dirs_only && e.is_file) {
            kept.push(e);
        }
        i = i + 1;
    }
    proof {
        assert(all.subrange(0, i as int) =~= all);
    }
    sort_listing(&kept)
}

} // verus!
