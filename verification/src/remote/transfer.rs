//! Files the technician sends in numbered chunks: the chunks of each file are
//! kept until as many have arrived as the file announced, then joined in
//! index order.
use vstd::prelude::*;

verus! {

/// One chunk of a file: its index and its bytes.
pub type Chunk = (u32, Vec<u8>);

/// `c` placed into `sorted` after every chunk whose index is not greater than
/// its own, and before the rest: one step of a stable sort by index.
pub open spec fn insert_by_index(sorted: Seq<Chunk>, c: Chunk) -> Seq<Chunk>
    decreases sorted.len(),
{
    if sorted.len() == 0 {
        seq![c]
    } else if sorted.last().0 <= c.0 {
        sorted.push(c)
    } else {
        insert_by_index(sorted.drop_last(), c).push(sorted.last())
    }
}

/// `chunks` sorted by index; chunks with the same index keep their order of arrival.
pub open spec fn sort_by_index(chunks: Seq<Chunk>) -> Seq<Chunk>
    decreases chunks.len(),
{
    if chunks.len() == 0 {
        chunks
    } else {
        insert_by_index(sort_by_index(chunks.drop_last()), chunks.last())
    }
}

/// The bytes of `chunks`, one chunk after the other.
pub open spec fn flatten(chunks: Seq<Chunk>) -> Seq<u8>
    decreases chunks.len(),
{
    if chunks.len() == 0 {
        Seq::empty()
    } else {
        flatten(chunks.drop_last()) + chunks.last().1@
    }
}

/// The file the chunks make up.
pub open spec fn assemble(chunks: Seq<Chunk>) -> Seq<u8> {
    flatten(sort_by_index(chunks))
}

proof fn lemma_insert_at(s: Seq<Chunk>, c: Chunk, p: int)
    requires
        0 <= p <= s.len(),
        p > 0 ==> s[p - 1].0 <= c.0,
        forall|j: int| p <= j < s.len() ==> #[trigger] s[j].0 > c.0,
    ensures
        insert_by_index(s, c) == s.insert(p, c),
    decreases s.len(),
{
    if s.len() == 0 {
        assert(s.insert(p, c) =~= seq![c]);
    } else if s.len() == p {
        assert(s.insert(p, c) =~= s.push(c));
    } else {
        assert(s[s.len() - 1].0 > c.0);
        lemma_insert_at(s.drop_last(), c, p);
        assert(s.insert(p, c) =~= s.drop_last().insert(p, c).push(s.last()));
    }
}

/// The positions of `chunks` in the order a stable sort by index puts them.
fn sorted_positions(chunks: &Vec<Chunk>) -> (perm: Vec<usize>)
    ensures
        forall|k: int| 0 <= k < perm@.len() ==> #[trigger] perm@[k] < chunks@.len(),
        perm@.map_values(|j: usize| chunks@[j as int]) == sort_by_index(chunks@),
{
    let mut perm: Vec<usize> = Vec::new();
    let mut i: usize = 0;
    proof {
        assert(chunks@.subrange(0, 0) =~= Seq::<Chunk>::empty());
        assert(perm@.map_values(|j: usize| chunks@[j as int]) =~= Seq::<Chunk>::empty());
    }
    while i < chunks.len()
        invariant
            i <= chunks@.len(),
            forall|k: int| 0 <= k < perm@.len() ==> #[trigger] perm@[k] < chunks@.len(),
            perm@.map_values(|j: usize| chunks@[j as int]) == sort_by_index(chunks@.subrange(0, i as int)),
        decreases chunks@.len() - i,
    {
        let key = chunks[i].0;
        let ghost sorted = perm@.map_values(|j: usize| chunks@[j as int]);
        let mut p: usize = perm.len();
        while p > 0 && chunks[perm[p - 1]].0 > key
            invariant
                p <= perm@.len(),
                key == chunks@[i as int].0,
                i < chunks@.len(),
                sorted == perm@.map_values(|j: usize| chunks@[j as int]),
                forall|k: int| 0 <= k < perm@.len() ==> #[trigger] perm@[k] < chunks@.len(),
                forall|j: int| p <= j < sorted.len() ==> #[trigger] sorted[j].0 > key,
            decreases p,
        {
            p = p - 1;
        }
        proof {
            lemma_insert_at(sorted, chunks@[i as int], p as int);
            assert(chunks@.subrange(0, i + 1).drop_last() =~= chunks@.subrange(0, i as int));
        }
        perm.insert(p, i);
        i = i + 1;
        proof {
            assert(perm@.map_values(|j: usize| chunks@[j as int]) =~= sorted.insert(p as int, chunks@[i - 1]));
        }
    }
    proof {
        assert(chunks@.subrange(0, i as int) =~= chunks@);
    }
    perm
}

/// The file `chunks` make up: their bytes joined in index order, chunks with
/// the same index in their order of arrival.
pub fn assemble_chunks(chunks: &Vec<Chunk>) -> (out: Vec<u8>)
    ensures
        out@ == assemble(chunks@),
{
    let perm = sorted_positions(chunks);
    let ghost order = perm@.map_values(|j: usize| chunks@[j as int]);
    let mut out: Vec<u8> = Vec::new();
    let mut k: usize = 0;
    proof {
        assert(order.subrange(0, 0) =~= Seq::<Chunk>::empty());
    }
    while k < perm.len()
        invariant
            k <= perm@.len(),
            order == perm@.map_values(|j: usize| chunks@[j as int]),
            forall|m: int| 0 <= m < perm@.len() ==> #[trigger] perm@[m] < chunks@.len(),
            out@ == flatten(order.subrange(0, k as int)),
        decreases perm@.len() - k,
    {
        let data = &chunks[perm[k]].1;
        let ghost start = out@;
        let mut b: usize = 0;
        while b < data.len()
            invariant
                b <= data@.len(),
                out@ == start + data@.subrange(0, b as int),
            decreases data@.len() - b,
        {
            out.push(data[b]);
            b = b + 1;
            proof {
                assert(out@ =~= start + data@.subrange(0, b as int));
            }
        }
        proof {
            assert(data@.subrange(0, b as int) =~= data@);
            assert(order.subrange(0, k + 1).drop_last() =~= order.subrange(0, k as int));
        }
        k = k + 1;
    }
    proof {
        assert(order.subrange(0, k as int) =~= order);
    }
    out
}



/// The chunks of `s` come in index order.
pub open spec fn index_ordered(s: Seq<Chunk>) -> bool {
    forall|i: int, j: int| 0 <= i <= j < s.len() ==> #[trigger] s[i].0 <= #[trigger] s[j].0
}

proof fn lemma_insert_keeps_order(s: Seq<Chunk>, c: Chunk)
    requires
        index_ordered(s),
    ensures
        index_ordered(insert_by_index(s, c)),
        insert_by_index(s, c).to_multiset() == s.to_multiset().insert(c),
    decreases s.len(),
{
    broadcast use vstd::seq_lib::group_to_multiset_ensures;
    if s.len() == 0 {
        assert(seq![c] =~= Seq::<Chunk>::empty().push(c));
    } else if s.last().0 <= c.0 {
    } else {
        let init = s.drop_last();
        lemma_insert_keeps_order(init, c);
        let r = insert_by_index(init, c);
        assert(s =~= init.push(s.last()));
        // every chunk of r comes from init or is c, and all of them are at most s.last().0
        assert forall|i: int| 0 <= i < r.len() implies #[trigger] r[i].0 <= s.last().0 by {
            assert(r.to_multiset().count(r[i]) > 0);
            if r[i] != c {
                assert(init.to_multiset().count(r[i]) > 0);
                assert(init.contains(r[i]));
                let k = choose|k: int| 0 <= k < init.len() && init[k] == r[i];
                assert(s[k] == init[k]);
            }
        }
    }
}

/// Whatever order the chunks of a file arrive in, the file is made of those
/// same chunks, in index order.
pub proof fn lemma_chunks_joined_in_index_order(chunks: Seq<Chunk>)
    ensures
        index_ordered(sort_by_index(chunks)),
        sort_by_index(chunks).to_multiset() == chunks.to_multiset(),
        assemble(chunks) == flatten(sort_by_index(chunks)),
    decreases chunks.len(),
{
    broadcast use vstd::seq_lib::group_to_multiset_ensures;
    if chunks.len() > 0 {
        lemma_chunks_joined_in_index_order(chunks.drop_last());
        lemma_insert_keeps_order(sort_by_index(chunks.drop_last()), chunks.last());
        assert(chunks =~= chunks.drop_last().push(chunks.last()));
    }
}

/// Chunks that arrive in index order are joined as they came.
pub proof fn lemma_ordered_chunks_joined_as_sent(chunks: Seq<Chunk>)
    requires
        index_ordered(chunks),
    ensures
        assemble(chunks) == flatten(chunks),
{
    lemma_sort_identity(chunks);
}

proof fn lemma_sort_identity(chunks: Seq<Chunk>)
    requires
        index_ordered(chunks),
    ensures
        sort_by_index(chunks) == chunks,
    decreases chunks.len(),
{
    if chunks.len() > 0 {
        let init = chunks.drop_last();
        assert(index_ordered(init)) by {
            assert forall|i: int, j: int| 0 <= i <= j < init.len() implies #[trigger] init[i].0 <= #[trigger] init[j].0 by {
                assert(init[i] == chunks[i] && init[j] == chunks[j]);
            }
        }
        lemma_sort_identity(init);
        if init.len() > 0 {
            assert(init.last() == chunks[chunks.len() - 2]);
        }
        assert(init.push(chunks.last()) =~= chunks);
    }
}

/// Receiving a chunk of one file leaves every other transfer as it was.
pub proof fn lemma_other_transfers_untouched(m: TransferMap, filename: Seq<char>, index: u32, total: u32,
    data: Vec<u8>, other: Seq<char>)
    requires
        other != filename,
    ensures
        receive_chunk(m, filename, index, total, data).0.dom().contains(other) == m.dom().contains(other),
        m.dom().contains(other) ==> receive_chunk(m, filename, index, total, data).0[other] == m[other],
{
}

/// A file announced as `n` chunks comes out when, and only when, its `n`-th
/// chunk arrives: the chunks before it keep the transfer open.
pub proof fn lemma_delivered_on_last_chunk(m: TransferMap, filename: Seq<char>, index: u32, total: u32, data: Vec<u8>)
    requires
        m.dom().contains(filename),
        m[filename].1.len() + 1 < u32::MAX,
    ensures
        receive_chunk(m, filename, index, total, data).1 is Some <==> m[filename].1.len() + 1 == total,
{
}

/// A file whose chunks are still arriving.
pub struct PartialFile {
    /// The file's name, which identifies the transfer.
    pub filename: String,
    /// The number of chunks its first chunk announced.
    pub total: u32,
    /// The chunks received so far, in order of arrival.
    pub chunks: Vec<Chunk>,
}

/// What is known of the transfers in progress: for each file name, the
/// announced number of chunks and the chunks received so far.
pub type TransferMap = Map<Seq<char>, (u32, Seq<Chunk>)>;

/// The transfers held in `files`; a later entry for a name wins.
pub open spec fn files_map(files: Seq<PartialFile>) -> TransferMap
    decreases files.len(),
{
    if files.len() == 0 {
        Map::empty()
    } else {
        files_map(files.drop_last()).insert(files.last().filename@, (files.last().total, files.last().chunks@))
    }
}

/// No two entries of `files` are for the same name.
pub open spec fn names_distinct(files: Seq<PartialFile>) -> bool {
    forall|i: int, j: int| 0 <= i < j < files.len() ==> #[trigger] files[i].filename@ != #[trigger] files[j].filename@
}

proof fn lemma_files_map(files: Seq<PartialFile>)
    requires
        names_distinct(files),
    ensures
        forall|k: Seq<char>| #[trigger] files_map(files).dom().contains(k)
            <==> exists|i: int| 0 <= i < files.len() && files[i].filename@ == k,
        forall|i: int| 0 <= i < files.len() ==> #[trigger] files_map(files)[files[i].filename@]
            == (files[i].total, files[i].chunks@),
    decreases files.len(),
{
    if files.len() > 0 {
        let init = files.drop_last();
        let last = files.last();
        assert forall|a: int, b: int| 0 <= a < b < init.len() implies #[trigger] init[a].filename@ != #[trigger] init[b].filename@ by {
            assert(init[a] == files[a] && init[b] == files[b]);
        }
        lemma_files_map(init);
        assert(files_map(files) == files_map(init).insert(last.filename@, (last.total, last.chunks@)));
        assert forall|k: Seq<char>| #[trigger] files_map(files).dom().contains(k)
            <==> exists|i: int| 0 <= i < files.len() && files[i].filename@ == k by {
            if k == last.filename@ {
                assert(files[files.len() - 1].filename@ == k);
            } else {
                if files_map(files).dom().contains(k) {
                    assert(files_map(init).dom().contains(k));
                    let i = choose|i: int| 0 <= i < init.len() && init[i].filename@ == k;
                    assert(files[i].filename@ == k);
                }
                if exists|i: int| 0 <= i < files.len() && files[i].filename@ == k {
                    let i = choose|i: int| 0 <= i < files.len() && files[i].filename@ == k;
                    assert(i != files.len() - 1);
                    assert(init[i].filename@ == k);
                    assert(files_map(init).dom().contains(k));
                }
            }
        }
        assert forall|i: int| 0 <= i < files.len() implies #[trigger] files_map(files)[files[i].filename@]
            == (files[i].total, files[i].chunks@) by {
            if i < files.len() - 1 {
                assert(init[i] == files[i]);
                assert(files[i].filename@ != files[files.len() - 1].filename@);
                assert(files_map(init)[init[i].filename@] == (init[i].total, init[i].chunks@));
            }
        }
    }
}

proof fn lemma_remove_entry(files: Seq<PartialFile>, i: int)
    requires
        names_distinct(files),
        0 <= i < files.len(),
    ensures
        names_distinct(files.remove(i)),
        files_map(files.remove(i)) == files_map(files).remove(files[i].filename@),
{
    let rest = files.remove(i);
    assert forall|a: int, b: int| 0 <= a < b < rest.len() implies #[trigger] rest[a].filename@ != #[trigger] rest[b].filename@ by {
        let a2 = if a < i { a } else { a + 1 };
        let b2 = if b < i { b } else { b + 1 };
        assert(rest[a] == files[a2]);
        assert(rest[b] == files[b2]);
    }
    lemma_files_map(files);
    lemma_files_map(rest);
    let name = files[i].filename@;
    assert forall|k: Seq<char>| #[trigger] files_map(rest).dom().contains(k)
        == files_map(files).remove(name).dom().contains(k) by {
        if files_map(rest).dom().contains(k) {
            let j = choose|j: int| 0 <= j < rest.len() && rest[j].filename@ == k;
            let j2 = if j < i { j } else { j + 1 };
            assert(rest[j] == files[j2]);
        }
        if files_map(files).remove(name).dom().contains(k) {
            let j = choose|j: int| 0 <= j < files.len() && files[j].filename@ == k;
            assert(j != i);
            let j2 = if j < i { j } else { j - 1 };
            assert(rest[j2] == files[j]);
        }
    }
    assert forall|k: Seq<char>| #[trigger] files_map(rest).dom().contains(k)
        implies files_map(rest)[k] == files_map(files)[k] by {
        let j = choose|j: int| 0 <= j < rest.len() && rest[j].filename@ == k;
        let j2 = if j < i { j } else { j + 1 };
        assert(rest[j] == files[j2]);
    }
    assert(files_map(rest) =~= files_map(files).remove(name));
}

/// What receiving chunk `index` of `filename` (its bytes `data`, the file
/// announced as `total` chunks) does to the transfers `m`, and the file it
/// completes if any: the chunk joins those of the same name (a new transfer
/// keeps the total it announces); once a file holds as many chunks as this
/// chunk announces, its transfer ends and its bytes come out, joined in index
/// order.
pub open spec fn receive_chunk(m: TransferMap, filename: Seq<char>, index: u32, total: u32, data: Vec<u8>)
    -> (TransferMap, Option<Seq<u8>>)
{
    let (announced, chunks) = if m.dom().contains(filename) { m[filename] } else { (total, Seq::empty()) };
    let chunks2 = chunks.push((index, data));
    if chunks2.len() as u32 == total {
        (m.remove(filename), Some(assemble(chunks2)))
    } else {
        (m.insert(filename, (announced, chunks2)), None)
    }
}

/// The files being received in chunks.
pub struct FileTransfers {
    files: Vec<PartialFile>,
}

impl View for FileTransfers {
    type V = TransferMap;

    closed spec fn view(&self) -> TransferMap {
        files_map(self.files@)
    }
}

impl FileTransfers {
    /// Each file name has one entry.
    pub closed spec fn wf(&self) -> bool {
        names_distinct(self.files@)
    }

    /// No transfer in progress.
    pub fn new() -> (t: FileTransfers)
        ensures
            t.wf(),
            t@ == TransferMap::empty(),
    {
        FileTransfers { files: Vec::new() }
    }

    fn position(&self, filename: &String) -> (r: Option<usize>)
        requires
            self.wf(),
        ensures
            match r {
                Some(i) => i < self.files@.len() && self.files@[i as int].filename@ == filename@,
                None => forall|i: int| 0 <= i < self.files@.len() ==> #[trigger] self.files@[i].filename@ != filename@,
            },
    {
        let mut i: usize = 0;
        while i < self.files.len()
            invariant
                i <= self.files@.len(),
                forall|k: int| 0 <= k < i ==> #[trigger] self.files@[k].filename@ != filename@,
            decreases self.files@.len() - i,
        {
            if self.files[i].filename == *filename {
                return Some(i);
            }
            i = i + 1;
        }
        None
    }

    /// Takes in one chunk; returns the whole file when this chunk completes it.
    pub fn receive(&mut self, filename: String, index: u32, total: u32, data: Vec<u8>) -> (done: Option<Vec<u8>>)
        requires
            old(self).wf(),
        ensures
            final(self).wf(),
            (final(self)@, match done { Some(d) => Some(d@), None => None })
                == receive_chunk(old(self)@, filename@, index, total, data),
    {
        proof {
            lemma_files_map(self.files@);
        }
        let ghost m = self@;
        let pos = self.position(&filename);
        let mut entry = match pos {
            Some(i) => {
                proof {
                    lemma_remove_entry(self.files@, i as int);
                }
                self.files.remove(i)
            },
            None => {
                proof {
                    assert(!m.dom().contains(filename@));
                }
                PartialFile { filename, total, chunks: Vec::new() }
            },
        };
        let ghost rest = self@;
        proof {
            assert(rest == m.remove(entry.filename@));
            assert(!rest.dom().contains(entry.filename@));
            lemma_files_map(self.files@);
            assert(forall|i: int| 0 <= i < self.files@.len() ==> #[trigger] self.files@[i].filename@ != entry.filename@);
        }
        entry.chunks.push((index, data));
        if entry.chunks.len() as u32 == total {
            let bytes = assemble_chunks(&entry.chunks);
            proof {
                assert(rest =~= m.remove(filename@));
            }
            Some(bytes)
        } else {
            let ghost e = entry;
            let ghost before_files = self.files@;
            self.files.push(entry);
            proof {
                assert(self.files@.drop_last() =~= before_files);
                assert(self@ =~= rest.insert(e.filename@, (e.total, e.chunks@)));
                assert(self@ =~= m.insert(filename@, (e.total, e.chunks@)));
                assert forall|i: int, j: int| 0 <= i < j < self.files@.len() implies #[trigger] self.files@[i].filename@ != #[trigger] self.files@[j].filename@ by {
                    if j == self.files@.len() - 1 {
                        assert(self.files@[j] == e);
                    }
                }
            }
            None
        }
    }
}

} // verus!
