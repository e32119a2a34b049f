//! Recursive directory copy: the builder that collects the options, and the
//! per-entry decision of what a copy run does with each walked entry.
//!
//! The walk itself and the filesystem calls stay with the caller; what is
//! decided here is which entries are copied, linked, created or left alone.
use vstd::prelude::*;
use crate::text::{seq_contains, str_contains, owned};

verus! {

/// The options a [`CopyBuilder`] holds.
pub struct CopyOptions {
    pub source: Seq<char>,
    pub destination: Seq<char>,
    pub overwrite_all: bool,
    pub overwrite_if_newer: bool,
    pub overwrite_if_size_differs: bool,
    pub exclude_filters: Seq<Seq<char>>,
    pub include_filters: Seq<Seq<char>>,
}

/// Recursively copy a directory from `source` to `destination`.
pub struct CopyBuilder {
    /// The source directory
    pub source: String,
    /// The destination directory
    pub destination: String,
    /// Overwrite all files in target, if already existing
    overwrite_all: bool,
    /// Overwrite target files if they are newer
    overwrite_if_newer: bool,
    /// Overwrite target files if they differ in size
    overwrite_if_size_differs: bool,
    /// Paths containing any of these are not copied
    exclude_filters: Vec<String>,
    /// Only paths containing all of these are copied
    include_filters: Vec<String>,
}

impl View for CopyBuilder {
    type V = CopyOptions;

    closed spec fn view(&self) -> CopyOptions {
        CopyOptions {
            source: self.source@,
            destination: self.destination@,
            overwrite_all: self.overwrite_all,
            overwrite_if_newer: self.overwrite_if_newer,
            overwrite_if_size_differs: self.overwrite_if_size_differs,
            exclude_filters: self.exclude_filters@.map_values(|f: String| f@),
            include_filters: self.include_filters@.map_values(|f: String| f@),
        }
    }
}

/// What the walker knows about one entry and its counterpart in the destination.
pub struct EntryFacts {
    /// The entry's path, as text.
    pub path: String,
    /// The entry's own metadata could be read (links not followed).
    pub metadata_ok: bool,
    /// The walked entry is a directory (links not followed).
    pub is_dir_entry: bool,
    /// The walked entry is a regular file.
    pub is_file_entry: bool,
    /// The walked entry is a symbolic link.
    pub is_symlink_entry: bool,
    /// The entry's path leads to a directory (links followed).
    pub path_is_dir: bool,
    /// Something exists at the destination path (links not followed).
    pub dest_exists: bool,
    /// The destination path leads to a directory.
    pub dest_is_dir: bool,
    /// The source was modified after the destination ([`is_file_newer`]).
    pub source_newer: bool,
    /// Source and destination differ in size ([`is_filesize_different`]).
    pub size_differs: bool,
}

/// What a copy run does with one walked entry.
#[derive(PartialEq, Eq, Structural, Debug, Clone, Copy)]
pub enum CopyAction {
    /// Leave the entry alone.
    Skip,
    /// Copy the regular file over the destination.
    CopyFile,
    /// Recreate the symbolic link at the destination.
    CopyLink,
    /// The entry is neither file, link nor directory: log it and go on.
    Unhandled,
    /// Create the directory at the destination.
    MakeDir,
}

/// Some exclude filter occurs in `path`.
pub open spec fn excluded(opts: CopyOptions, path: Seq<char>) -> bool {
    exists|i: int| 0 <= i < opts.exclude_filters.len() && seq_contains(path, #[trigger] opts.exclude_filters[i])
}

/// Some include filter does not occur in `path`.
pub open spec fn not_included(opts: CopyOptions, path: Seq<char>) -> bool {
    exists|i: int| 0 <= i < opts.include_filters.len() && !seq_contains(path, #[trigger] opts.include_filters[i])
}

/// An existing destination may be written over: every overwrite option is a
/// reason of its own, "overwrite all" always, "if newer" when the source is
/// newer, "if size differs" when the sizes differ.
pub open spec fn may_overwrite(opts: CopyOptions, e: EntryFacts) -> bool {
    opts.overwrite_all || (opts.overwrite_if_newer && e.source_newer) || (opts.overwrite_if_size_differs
        && e.size_differs)
}

/// The action a copy run with `opts` takes for the entry `e`: a
/// non-directory entry that passes the filters is copied unless something
/// already stands at the destination that no overwrite option lets it
/// replace; a directory missing at the destination is created.
pub open spec fn copy_action(opts: CopyOptions, e: EntryFacts) -> CopyAction {
    if e.metadata_ok && !e.is_dir_entry {
        if excluded(opts, e.path@) || not_included(opts, e.path@) || (e.dest_exists && !may_overwrite(opts, e)) {
            CopyAction::Skip
        } else if e.is_file_entry {
            CopyAction::CopyFile
        } else if e.is_symlink_entry {
            CopyAction::CopyLink
        } else {
            CopyAction::Unhandled
        }
    } else if e.path_is_dir && !e.dest_is_dir {
        CopyAction::MakeDir
    } else {
        CopyAction::Skip
    }
}

/// Determine if the modification date of file_a is newer than that of file_b.
///
/// Each argument is `None` when the file's metadata cannot be read, and
/// otherwise its modification time in nanoseconds from the Unix epoch, itself
/// `None` when the platform cannot tell it.  An unknown time of `file_a`
/// counts as `now`, one of `file_b` as the epoch.
pub fn is_file_newer(file_a: Option<Option<i128>>, file_b: Option<Option<i128>>, now: i128) -> (b: bool)
    ensures
        b == match (file_a, file_b) {
            (Some(ma), Some(mb)) => (match ma {
                Some(t) => t,
                None => now,
            }) > (match mb {
                Some(t) => t,
                None => 0,
            }),
            _ => false,
        },
{
    match (file_a, file_b) {
        (Some(ma), Some(mb)) => {
            let a = match ma {
                Some(t) => t,
                None => now,
            };
            let b = match mb {
                Some(t) => t,
                None => 0,
            };
            a > b
        },
        _ => false,
    }
}

/// Determine if file_a and file_b's size differs; `None` is unreadable metadata.
pub fn is_filesize_different(file_a: Option<u64>, file_b: Option<u64>) -> (b: bool)
    ensures
        b == match (file_a, file_b) {
            (Some(a), Some(b)) => a != b,
            _ => false,
        },
{
    match (file_a, file_b) {
        (Some(a), Some(b)) => a != b,
        _ => false,
    }
}

fn clone_filters(v: &Vec<String>) -> (out: Vec<String>)
    ensures
        out@.map_values(|f: String| f@) == v@.map_values(|f: String| f@),
{
    let mut out: Vec<String> = Vec::new();
    let mut i: usize = 0;
    while i < v.len()
        invariant
            i <= v@.len(),
            out@.len() == i,
            forall|k: int| 0 <= k < i ==> #[trigger] out@[k]@ == v@[k]@,
        decreases v@.len() - i,
    {
        let f = v[i].clone();
        out.push(f);
        i = i + 1;
    }
    assert(out@.map_values(|f: String| f@) =~= v@.map_values(|f: String| f@));
    out
}

impl CopyBuilder {
    /// Construct a new CopyBuilder with `source` and `dest`; every overwrite
    /// option is off and there are no filters.
    pub fn new(source: &str, dest: &str) -> (b: CopyBuilder)
        ensures
            b@ == (CopyOptions {
                source: source@,
                destination: dest@,
                overwrite_all: false,
                overwrite_if_newer: false,
                overwrite_if_size_differs: false,
                exclude_filters: Seq::empty(),
                include_filters: Seq::empty(),
            }),
    {
        let b = CopyBuilder {
            source: source.to_owned(),
            destination: dest.to_owned(),
            overwrite_all: false,
            overwrite_if_newer: false,
            overwrite_if_size_differs: false,
            exclude_filters: Vec::new(),
            include_filters: Vec::new(),
        };
        assert(b@.exclude_filters =~= Seq::<Seq<char>>::empty());
        assert(b@.include_filters =~= Seq::<Seq<char>>::empty());
        b
    }

    /// Overwrite target files (off by default).
    pub fn _overwrite(self, overwrite: bool) -> (b: CopyBuilder)
        ensures
            b@ == (CopyOptions { overwrite_all: overwrite, ..self@ }),
    {
        CopyBuilder { overwrite_all: overwrite, ..self }
    }

    /// Overwrite if the source is newer (off by default).
    pub fn overwrite_if_newer(self, overwrite_only_newer: bool) -> (b: CopyBuilder)
        ensures
            b@ == (CopyOptions { overwrite_if_newer: overwrite_only_newer, ..self@ }),
    {
        CopyBuilder { overwrite_if_newer: overwrite_only_newer, ..self }
    }

    /// Overwrite if size between source and dest differs (off by default).
    pub fn overwrite_if_size_differs(self, overwrite_if_size_differs: bool) -> (b: CopyBuilder)
        ensures
            b@ == (CopyOptions { overwrite_if_size_differs: overwrite_if_size_differs, ..self@ }),
    {
        CopyBuilder { overwrite_if_size_differs, ..self }
    }

    /// Do not copy files whose path contains this string.
    pub fn with_exclude_filter(self, f: &str) -> (b: CopyBuilder)
        ensures
            b@ == (CopyOptions { exclude_filters: self@.exclude_filters.push(f@), ..self@ }),
    {
        let mut filters = clone_filters(&self.exclude_filters);
        filters.push(f.to_owned());
        let b = CopyBuilder { exclude_filters: filters, ..self };
        assert(b@.exclude_filters =~= self@.exclude_filters.push(f@));
        b
    }

    /// Only copy files whose path contains this string.
    pub fn _with_include_filter(self, f: &str) -> (b: CopyBuilder)
        ensures
            b@ == (CopyOptions { include_filters: self@.include_filters.push(f@), ..self@ }),
    {
        let mut filters = clone_filters(&self.include_filters);
        filters.push(f.to_owned());
        let b = CopyBuilder { include_filters: filters, ..self };
        assert(b@.include_filters =~= self@.include_filters.push(f@));
        b
    }

    fn any_excluded(&self, path: &str) -> (b: bool)
        ensures
            b == excluded(self@, path@),
    {
        let mut i: usize = 0;
        while i < self.exclude_filters.len()
            invariant
                i <= self.exclude_filters@.len(),
                forall|k: int| 0 <= k < i ==> !seq_contains(path@, #[trigger] self@.exclude_filters[k]),
            decreases self.exclude_filters@.len() - i,
        {
            if str_contains(path, self.exclude_filters[i].as_str()) {
                assert(seq_contains(path@, self@.exclude_filters[i as int]));
                return true;
            }
            i = i + 1;
        }
        false
    }

    fn any_not_included(&self, path: &str) -> (b: bool)
        ensures
            b == not_included(self@, path@),
    {
        let mut i: usize = 0;
        while i < self.include_filters.len()
            invariant
                i <= self.include_filters@.len(),
                forall|k: int| 0 <= k < i ==> seq_contains(path@, #[trigger] self@.include_filters[k]),
            decreases self.include_filters@.len() - i,
        {
            if !str_contains(path, self.include_filters[i].as_str()) {
                assert(!seq_contains(path@, self@.include_filters[i as int]));
                return true;
            }
            i = i + 1;
        }
        false
    }

    /// What the copy run does with the walked entry `e`: the decisions of
    /// `run`, taken for one entry.
    pub fn plan_entry(&self, e: &EntryFacts) -> (a: CopyAction)
        ensures
            a == copy_action(self@, *e),
    {
        if e.metadata_ok && !e.is_dir_entry {
            if e.dest_exists && !self.overwrite_all && !(self.overwrite_if_newer && e.source_newer)
                && !(self.overwrite_if_size_differs && e.size_differs) {
                return CopyAction::Skip;
            }
            if self.any_excluded(e.path.as_str()) {
                return CopyAction::Skip;
            }
            if self.any_not_included(e.path.as_str()) {
                return CopyAction::Skip;
            }
            if e.is_file_entry {
                CopyAction::CopyFile
            } else if e.is_symlink_entry {
                CopyAction::CopyLink
            } else {
                CopyAction::Unhandled
            }
        } else if e.path_is_dir && !e.dest_is_dir {
            CopyAction::MakeDir
        } else {
            CopyAction::Skip
        }
    }
}

/// A copy with every option given at once.
pub fn advanced_builder(source: &str, dest: &str, overwrite_all: bool, overwrite_if_newer: bool,
    overwrite_if_size_differs: bool, exclude_filters: Vec<String>, include_filters: Vec<String>) -> (b: CopyBuilder)
    ensures
        b@ == (CopyOptions {
            source: source@,
            destination: dest@,
            overwrite_all,
            overwrite_if_newer,
            overwrite_if_size_differs,
            exclude_filters: exclude_filters@.map_values(|f: String| f@),
            include_filters: include_filters@.map_values(|f: String| f@),
        }),
{
    CopyBuilder {
        source: owned(source),
        destination: owned(dest),
        overwrite_all,
        overwrite_if_newer,
        overwrite_if_size_differs,
        exclude_filters,
        include_filters,
    }
}

/// The copy a paste in the file browser starts: an existing file is
/// replaced when the source is newer or its size differs, and system
/// (`.sys`) and data (`.dat`) files are left out.
pub fn paste_builder(source: &str, destination: &str) -> (b: CopyBuilder)
    ensures
        b@ == (CopyOptions {
            source: source@,
            destination: destination@,
            overwrite_all: false,
            overwrite_if_newer: true,
            overwrite_if_size_differs: true,
            exclude_filters: seq![".sys"@, ".dat"@],
            include_filters: Seq::empty(),
        }),
{
    let b = CopyBuilder::new(source, destination)
        .overwrite_if_newer(true)
        .overwrite_if_size_differs(true)
        .with_exclude_filter(".sys")
        .with_exclude_filter(".dat");
    assert(b@.exclude_filters =~= seq![".sys"@, ".dat"@]);
    b
}

/// A file whose path contains an exclude filter is never copied.
pub proof fn lemma_excluded_never_copied(opts: CopyOptions, e: EntryFacts, i: int)
    requires
        0 <= i < opts.exclude_filters.len(),
        seq_contains(e.path@, opts.exclude_filters[i]),
        !e.is_dir_entry,
    ensures
        copy_action(opts, e) != CopyAction::CopyFile,
        copy_action(opts, e) != CopyAction::CopyLink,
{
}

/// With every overwrite option off, nothing that exists at the destination is
/// written over.
pub proof fn lemma_existing_kept_without_overwrite(opts: CopyOptions, e: EntryFacts)
    requires
        !opts.overwrite_all,
        !opts.overwrite_if_newer,
        !opts.overwrite_if_size_differs,
        e.dest_exists,
        e.dest_is_dir || !e.path_is_dir,
    ensures
        copy_action(opts, e) == CopyAction::Skip,
{
}

/// A regular file absent from the destination that passes the filters is copied.
pub proof fn lemma_missing_file_copied(opts: CopyOptions, e: EntryFacts)
    requires
        e.metadata_ok,
        !e.is_dir_entry,
        e.is_file_entry,
        !e.dest_exists,
        !excluded(opts, e.path@),
        !not_included(opts, e.path@),
    ensures
        copy_action(opts, e) == CopyAction::CopyFile,
{
}

/// Each overwrite option on its own is enough to replace an existing file:
/// a newer source under "if newer", one of another size under "if size
/// differs", whatever the other options say.
pub proof fn lemma_each_reason_overwrites(opts: CopyOptions, e: EntryFacts)
    requires
        e.metadata_ok,
        !e.is_dir_entry,
        e.is_file_entry,
        e.dest_exists,
        !excluded(opts, e.path@),
        !not_included(opts, e.path@),
        opts.overwrite_all || (opts.overwrite_if_newer && e.source_newer) || (opts.overwrite_if_size_differs
            && e.size_differs),
    ensures
        copy_action(opts, e) == CopyAction::CopyFile,
{
}

/// An existing file is kept when no enabled overwrite option gives a reason
/// to replace it.
pub proof fn lemma_no_reason_keeps(opts: CopyOptions, e: EntryFacts)
    requires
        e.dest_exists,
        !e.is_dir_entry,
        !opts.overwrite_all,
        !(opts.overwrite_if_newer && e.source_newer),
        !(opts.overwrite_if_size_differs && e.size_differs),
    ensures
        copy_action(opts, e) != CopyAction::CopyFile,
        copy_action(opts, e) != CopyAction::CopyLink,
{
}

} // verus!
