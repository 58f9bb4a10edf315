//! A flat, in-memory address space that executes scatter batches and search
//! jobs the way the engine does. It stands in for the engine wherever a
//! static memory backing is wanted, for instance to check callers.
use vstd::prelude::*;
use crate::error::VmmError;
use crate::scatter::{
    ScatterModel, VmmScatterMemory, byte_at, byte_from, clip, covers, first_cover, read_back, run_end, MAX_IO_SIZE,
};
use crate::search::{SearchModel, SearchOutcome, SearchTerm, SearchTermModel, VmmSearch};

verus! {

/// `mem` with `data` written at `va`; bytes past the end of `mem` are dropped.
pub open spec fn write_region(mem: Seq<u8>, va: int, data: Seq<u8>) -> Seq<u8> {
    Seq::new(mem.len(), |i: int| if va <= i < va + data.len() { data[i - va] } else { mem[i] })
}

/// `mem` after the writes `ws`, applied in order.
pub open spec fn apply_writes(mem: Seq<u8>, ws: Seq<(u64, Seq<u8>)>) -> Seq<u8>
    decreases ws.len(),
{
    if ws.len() == 0 {
        mem
    } else {
        write_region(apply_writes(mem, ws.drop_last()), ws.last().0 as int, ws.last().1)
    }
}

/// The memory after batch `b` was executed on `mem`: its writes applied in order.
pub open spec fn memory_after(b: ScatterModel, mem: Seq<u8>) -> Seq<u8> {
    apply_writes(mem, b.writes)
}

/// Bytes a request (address, size) reads from `mem`: those of the range
/// that lie inside `mem`.
pub open spec fn read_request(mem: Seq<u8>, r: (u64, u32)) -> Seq<u8> {
    clip(mem, r.0 as int, r.1 as int)
}

/// Batch `b` after it was executed on `mem`: writes go first, then every read
/// and every binding takes its bytes from the written memory.
pub open spec fn batch_after(b: ScatterModel, mem: Seq<u8>) -> ScatterModel {
    let m = memory_after(b, mem);
    b.executed_with(
        Seq::new(b.reads.len(), |i: int| read_request(m, b.reads[i])),
        Seq::new(b.binds.len(), |i: int| read_request(m, b.binds[i])),
    )
}

/// Wildcard bits of pattern byte `i` of term `t`.
pub open spec fn mask_at(t: SearchTermModel, i: int) -> u8 {
    if i < t.skip_mask.len() {
        t.skip_mask[i]
    } else {
        0
    }
}

/// Term `t` matches `mem` at address `a`: the pattern lies inside `mem`, `a`
/// is aligned as the term asks, and every pattern byte equals the memory byte
/// outside the wildcard bits.
pub open spec fn matches_at(mem: Seq<u8>, t: SearchTermModel, a: int) -> bool {
    &&& 0 <= a
    &&& a + t.pattern.len() <= mem.len()
    &&& (t.align <= 1 || a % (t.align as int) == 0)
    &&& forall|i: int|
        0 <= i < t.pattern.len() ==> (#[trigger] mem[a + i] & !mask_at(t, i)) == (t.pattern[i] & !mask_at(t, i))
}

/// Matches at address `a` of the first `n` terms, in term order.
pub open spec fn hits_at(mem: Seq<u8>, terms: Seq<SearchTermModel>, a: int, n: int) -> Seq<(u64, u32)>
    decreases n,
{
    if n <= 0 {
        Seq::empty()
    } else {
        hits_at(mem, terms, a, n - 1) + if matches_at(mem, terms[n - 1], a) {
            seq![(a as u64, (n - 1) as u32)]
        } else {
            Seq::empty()
        }
    }
}

/// Matches at the addresses `[lo, hi)`, by address, then by term.
pub open spec fn hits_in(mem: Seq<u8>, terms: Seq<SearchTermModel>, lo: int, hi: int) -> Seq<(u64, u32)>
    decreases hi - lo,
{
    if hi <= lo {
        Seq::empty()
    } else {
        hits_in(mem, terms, lo, hi - 1) + hits_at(mem, terms, hi - 1, terms.len() as int)
    }
}

/// End of the scanned addresses of job `s` on a memory of `len` bytes.
pub open spec fn scan_end(s: SearchModel, len: nat) -> int {
    if s.addr_max == 0 || s.addr_max > len {
        len as int
    } else {
        s.addr_max as int
    }
}

/// Start of the scanned addresses of job `s` on a memory of `len` bytes.
pub open spec fn scan_start(s: SearchModel, len: nat) -> int {
    if s.addr_min > scan_end(s, len) {
        scan_end(s, len)
    } else {
        s.addr_min as int
    }
}

/// The first `max` elements of `s`.
pub open spec fn cap<A>(s: Seq<A>, max: nat) -> Seq<A> {
    if s.len() <= max {
        s
    } else {
        s.subrange(0, max as int)
    }
}

/// The matches a complete scan of job `s` finds in `mem`, up to its cap.
pub open spec fn expected_hits(mem: Seq<u8>, s: SearchModel) -> Seq<(u64, u32)> {
    cap(hits_in(mem, s.terms, scan_start(s, mem.len()), scan_end(s, mem.len())), s.max_results as nat)
}

/// A flat memory of bytes at addresses `0..len`.
pub struct MemoryImage {
    bytes: Vec<u8>,
}

impl View for MemoryImage {
    type V = Seq<u8>;

    closed spec fn view(&self) -> Seq<u8> {
        self.bytes@
    }
}

impl MemoryImage {
    /// A memory of `size` zero bytes.
    pub fn new(size: usize) -> (r: MemoryImage)
        ensures
            r@ == Seq::new(size as nat, |i: int| 0u8),
    {
        let mut bytes: Vec<u8> = Vec::new();
        let mut i: usize = 0;
        while i < size
            invariant
                i <= size,
                bytes@ == Seq::new(i as nat, |j: int| 0u8),
            decreases size - i,
        {
            bytes.push(0u8);
            i = i + 1;
            assert(bytes@ =~= Seq::new(i as nat, |j: int| 0u8));
        }
        MemoryImage { bytes }
    }

    /// Size of the memory in bytes.
    pub fn len(&self) -> (r: usize)
        ensures
            r == self@.len(),
    {
        self.bytes.len()
    }

    /// Writes `data` at `va`; bytes that would land past the end are dropped.
    pub fn write(&mut self, va: u64, data: &[u8])
        ensures
            final(self)@ == write_region(old(self)@, va as int, data@),
    {
        let len = self.bytes.len();
        if va >= len as u64 {
            assert(self@ =~= write_region(old(self)@, va as int, data@));
            return;
        }
        let start = va as usize;
        let mut i: usize = 0;
        while i < data.len() && start + i < len
            invariant
                start == va,
                start < len == self@.len() == old(self)@.len(),
                i <= data@.len(),
                start + i <= len,
                forall|j: int|
                    0 <= j < len ==> #[trigger] self@[j] == if start <= j < start + i {
                        data@[j - start]
                    } else {
                        old(self)@[j]
                    },
            decreases data.len() - i,
        {
            self.bytes.set(start + i, data[i]);
            i = i + 1;
        }
        assert(self@ =~= write_region(old(self)@, va as int, data@));
    }

    /// Up to `size` bytes at `va`: those that lie inside the memory.
    pub fn read(&self, va: u64, size: usize) -> (r: Vec<u8>)
        ensures
            r@ == clip(self@, va as int, size as int),
    {
        let len = self.bytes.len();
        let mut r: Vec<u8> = Vec::new();
        if va >= len as u64 {
            return r;
        }
        let start = va as usize;
        let end = if len - start >= size {
            start + size
        } else {
            len
        };
        let mut i: usize = start;
        while i < end
            invariant
                start <= i <= end <= len == self@.len(),
                r@ == self@.subrange(start as int, i as int),
            decreases end - i,
        {
            r.push(self.bytes[i]);
            i = i + 1;
        }
        r
    }

    /// Executes `batch` on this memory: its writes in order, then its reads
    /// and push-mode bindings, whose data the batch keeps for read-back.
    pub fn execute_scatter(&mut self, batch: &mut VmmScatterMemory) -> (r: Result<(), VmmError>)
        requires
            old(batch).wf(),
        ensures
            r is Ok,
            final(batch).wf(),
            final(batch)@ == batch_after(old(batch)@, old(self)@),
            final(self)@ == memory_after(old(batch)@, old(self)@),
    {
        let ghost b = batch@;
        let ghost mem0 = self@;
        let nw = batch.write_count();
        let mut i: usize = 0;
        while i < nw
            invariant
                batch@ == b,
                batch.wf(),
                nw == b.writes.len(),
                i <= nw,
                self@ == apply_writes(mem0, b.writes.subrange(0, i as int)),
            decreases nw - i,
        {
            let (va, data) = batch.prepared_write(i);
            self.write(va, data.as_slice());
            proof {
                let ws = b.writes.subrange(0, i + 1);
                assert(ws.drop_last() =~= b.writes.subrange(0, i as int));
                assert(ws.last() == b.writes[i as int]);
            }
            i = i + 1;
        }
        proof {
            assert(b.writes.subrange(0, nw as int) =~= b.writes);
        }
        let ghost mem1 = self@;
        let reads = batch.prepared_reads();
        let mut rd: Vec<Vec<u8>> = Vec::new();
        let mut k: usize = 0;
        while k < reads.len()
            invariant
                reads@ == b.reads,
                self@ == mem1,
                k <= reads@.len(),
                rd@.len() == k,
                forall|j: int| 0 <= j < k ==> (#[trigger] rd@[j])@ == read_request(mem1, b.reads[j]),
            decreases reads.len() - k,
        {
            let (va, size) = reads[k];
            let d = self.read(va, size as usize);
            rd.push(d);
            k = k + 1;
        }
        let binds = batch.prepared_binds();
        let mut bd: Vec<Vec<u8>> = Vec::new();
        let mut k2: usize = 0;
        while k2 < binds.len()
            invariant
                binds@ == b.binds,
                self@ == mem1,
                k2 <= binds@.len(),
                bd@.len() == k2,
                forall|j: int| 0 <= j < k2 ==> (#[trigger] bd@[j])@ == read_request(mem1, b.binds[j]),
            decreases binds.len() - k2,
        {
            let (va, size) = binds[k2];
            let d = self.read(va, size as usize);
            bd.push(d);
            k2 = k2 + 1;
        }
        let ghost rds = rd@.map_values(|d: Vec<u8>| d@);
        let ghost bds = bd@.map_values(|d: Vec<u8>| d@);
        proof {
            assert(rds =~= Seq::new(b.reads.len(), |j: int| read_request(mem1, b.reads[j])));
            assert(bds =~= Seq::new(b.binds.len(), |j: int| read_request(mem1, b.binds[j])));
        }
        batch.execute_done(rd, bd)
    }

    /// Term `t` matches this memory at `a`.
    fn term_matches(&self, t: &SearchTerm, a: usize) -> (r: bool)
        ensures
            r == matches_at(self@, t@, a as int),
    {
        let len = self.bytes.len();
        let plen = t.pattern.len();
        if a > len || plen > len - a {
            return false;
        }
        if t.align > 1 && a % (t.align as usize) != 0 {
            return false;
        }
        let mut i: usize = 0;
        while i < plen
            invariant
                plen == t@.pattern.len(),
                a + plen <= len == self@.len(),
                i <= plen,
                forall|j: int|
                    0 <= j < i ==> (#[trigger] self@[a + j] & !mask_at(t@, j)) == (t@.pattern[j] & !mask_at(t@, j)),
            decreases plen - i,
        {
            let m: u8 = if i < t.skip_mask.len() {
                t.skip_mask[i]
            } else {
                0
            };
            if (self.bytes[a + i] & !m) != (t.pattern[i] & !m) {
                proof {
                    assert(m == mask_at(t@, i as int));
                    assert(!((self@[a + i] & !mask_at(t@, i as int)) == (t@.pattern[i as int] & !mask_at(t@, i as int))));
                }
                return false;
            }
            i = i + 1;
        }
        true
    }

    /// Runs the scan of `job` on this memory, the way its worker would.
    /// An aborted job reports failure and no matches; otherwise every match
    /// in the job's range comes back, up to the job's cap.
    pub fn search(&self, job: &VmmSearch) -> (r: SearchOutcome)
        requires
            job.wf(),
        ensures
            job@.abort_requested ==> !r.success && r.hits@.len() == 0,
            !job@.abort_requested ==> {
                &&& r.success
                &&& r.hits@ == expected_hits(self@, job@)
                &&& r.total_results == r.hits@.len()
                &&& r.addr_current == scan_end(job@, self@.len())
                &&& r.total_read_bytes == scan_end(job@, self@.len()) - scan_start(job@, self@.len())
            },
    {
        let len = self.bytes.len();
        let hi = job.addr_max();
        let end: usize = if hi == 0 || hi > len as u64 {
            len
        } else {
            hi as usize
        };
        let lo = job.addr_min();
        let start: usize = if lo > end as u64 {
            end
        } else {
            lo as usize
        };
        if job.is_abort_requested() {
            return SearchOutcome {
                success: false,
                addr_current: start as u64,
                total_read_bytes: 0,
                total_results: 0,
                hits: Vec::new(),
            };
        }
        let ghost terms = job@.terms;
        let n = job.term_count();
        let mut hits: Vec<(u64, u32)> = Vec::new();
        let mut a: usize = start;
        while a < end
            invariant
                start <= a <= end <= len == self@.len(),
                n == terms.len() <= 16,
                terms == job@.terms,
                job.wf(),
                hits@ == hits_in(self@, terms, start as int, a as int),
            decreases end - a,
        {
            let mut k: usize = 0;
            while k < n
                invariant
                    start <= a < end <= len == self@.len(),
                    n == terms.len() <= 16,
                    terms == job@.terms,
                    k <= n,
                    hits@ == hits_in(self@, terms, start as int, a as int) + hits_at(self@, terms, a as int, k as int),
                decreases n - k,
            {
                let t = job.term(k);
                if self.term_matches(t, a) {
                    hits.push((a as u64, k as u32));
                }
                proof {
                    assert(hits@ =~= hits_in(self@, terms, start as int, a as int) + hits_at(self@, terms, a as int, k + 1));
                }
                k = k + 1;
            }
            a = a + 1;
            proof {
                assert(hits@ =~= hits_in(self@, terms, start as int, a as int));
            }
        }
        let max = job.max_results() as usize;
        if hits.len() > max {
            hits.truncate(max);
        }
        let count = hits.len() as u32;
        SearchOutcome {
            success: true,
            addr_current: end as u64,
            total_read_bytes: (end - start) as u64,
            total_results: count,
            hits,
        }
    }
}

/// A write followed by a read of the same range, each executed on the memory
/// through a scatter batch, reads back exactly the bytes written (nothing,
/// for an empty write).
pub proof fn lemma_write_then_read(mem: Seq<u8>, va: u64, data: Seq<u8>, wb: ScatterModel, rb: ScatterModel)
    requires
        mem.len() <= usize::MAX,
        data.len() <= MAX_IO_SIZE,
        va + data.len() <= mem.len(),
        wb.writes == seq![(va, data)],
        rb.writes.len() == 0,
        rb.reads == seq![(va, data.len() as u32)],
    ensures
        read_back(batch_after(rb, memory_after(wb, mem)), va, data.len()) == Ok::<Seq<u8>, VmmError>(data),
{
    let m1 = memory_after(wb, mem);
    assert(wb.writes.drop_last() =~= Seq::<(u64, Seq<u8>)>::empty());
    assert(apply_writes(mem, wb.writes.drop_last()) == mem);
    assert(wb.writes.last() == (va, data));
    assert(m1 == write_region(mem, va as int, data));
    assert(memory_after(rb, m1) == m1);
    let b = batch_after(rb, m1);
    assert(b.read_data[0] == read_request(m1, rb.reads[0]));
    assert(clip(m1, va as int, data.len() as int) =~= data);
    assert(b.read_data.len() == 1);
    if data.len() == 0 {
        assert(Seq::<u8>::empty() =~= data);
    } else {
        assert(covers(b.reads[0], va));
        assert(first_cover(b.reads, 0, va) is None);
        assert(first_cover(b.reads, 1, va) == Some(0int));
        assert forall|k: int| 0 <= k < data.len() implies #[trigger] byte_at(b, va + k) == Some(data[k]) by {
            assert(byte_from(b.reads, b.read_data, 0, va + k) is None);
        }
        lemma_run_to_end(b, va as int, 0, data.len() as int);
        assert(Seq::new(data.len(), |k: int| byte_at(b, va + k)->0) =~= data);
    }
}

/// A run of returned bytes reaches `size` when every byte from `j` on is there.
proof fn lemma_run_to_end(m: ScatterModel, va: int, j: int, size: int)
    requires
        0 <= j <= size,
        forall|k: int| j <= k < size ==> #[trigger] byte_at(m, va + k) is Some,
    ensures
        run_end(m, va, j, size) == size,
    decreases size - j,
{
    if j < size {
        assert(byte_at(m, va + j) is Some);
        lemma_run_to_end(m, va, j + 1, size);
    }
}

/// Executing a batch of reads twice on a static memory reads back the same
/// bytes both times, at every address and size.
pub proof fn lemma_reexecute_reads(b: ScatterModel, mem: Seq<u8>, va: u64, size: nat)
    requires
        b.writes.len() == 0,
    ensures
        memory_after(b, mem) == mem,
        read_back(batch_after(b, mem), va, size) == read_back(
            batch_after(batch_after(b, mem), memory_after(b, mem)),
            va,
            size,
        ),
{
    let b1 = batch_after(b, mem);
    assert(memory_after(b, mem) == mem);
    assert(memory_after(b1, mem) == mem);
    let b2 = batch_after(b1, mem);
    assert(b2.read_data =~= b1.read_data);
    assert(b2.bind_data =~= b1.bind_data);
    assert(b2 == b1);
}

} // verus!
