//! Scatter-gather batches: a set of prepared reads and writes that one
//! engine round-trip executes, and the read-back of what it returned.
//!
//! The batch keeps the prepared requests and the data the last execution
//! returned. Whoever runs the engine takes the requests from the batch,
//! performs them, and hands the data back with `execute_done`.
use vstd::prelude::*;
use crate::error::VmmError;

verus! {

/// Largest length the engine's 32-bit length fields can carry.
pub const MAX_IO_SIZE: usize = 0xffff_ffff;

/// Mathematical view of a batch.
pub struct ScatterModel {
    pub pid: u32,
    pub flags: u32,
    /// Pull-mode reads, as (address, size), in the order prepared.
    pub reads: Seq<(u64, u32)>,
    /// Push-mode bindings, as (address, size), in the order prepared.
    pub binds: Seq<(u64, u32)>,
    /// Writes, as (address, bytes), in the order prepared.
    pub writes: Seq<(u64, Seq<u8>)>,
    /// Data the last execution returned for each of the first reads.
    pub read_data: Seq<Seq<u8>>,
    /// Data the last execution returned for each of the first bindings.
    pub bind_data: Seq<Seq<u8>>,
    /// The batch has been executed at least once since it was created or cleared.
    pub executed: bool,
    /// The batch has been executed at least once in its life, clears included.
    pub ever_executed: bool,
}

impl ScatterModel {
    pub open spec fn wf(self) -> bool {
        &&& self.read_data.len() <= self.reads.len()
        &&& self.bind_data.len() <= self.binds.len()
        &&& (!self.executed ==> self.read_data.len() == 0 && self.bind_data.len() == 0)
        &&& (self.executed ==> self.ever_executed)
        &&& forall|i: int| 0 <= i < self.read_data.len() ==> #[trigger] self.read_data[i].len() <= self.reads[i].1
        &&& forall|i: int| 0 <= i < self.bind_data.len() ==> #[trigger] self.bind_data[i].len() <= self.binds[i].1
    }

    /// The data handed back for an execution fits the prepared requests:
    /// one entry per request, none longer than requested.
    pub open spec fn fits(self, read_data: Seq<Seq<u8>>, bind_data: Seq<Seq<u8>>) -> bool {
        &&& read_data.len() == self.reads.len()
        &&& bind_data.len() == self.binds.len()
        &&& forall|i: int| 0 <= i < read_data.len() ==> #[trigger] read_data[i].len() <= self.reads[i].1
        &&& forall|i: int| 0 <= i < bind_data.len() ==> #[trigger] bind_data[i].len() <= self.binds[i].1
    }

    /// The batch after an execution that returned `read_data` and `bind_data`.
    pub open spec fn executed_with(self, read_data: Seq<Seq<u8>>, bind_data: Seq<Seq<u8>>) -> ScatterModel {
        ScatterModel { read_data, bind_data, executed: true, ever_executed: true, ..self }
    }
}

/// The read `i` covers address `va`.
pub open spec fn covers(r: (u64, u32), va: u64) -> bool {
    r.0 <= va && va < r.0 + r.1
}

/// Index of the first of the first `n` reads that covers `va`, if any.
pub open spec fn first_cover(reads: Seq<(u64, u32)>, n: int, va: u64) -> Option<int>
    decreases n,
{
    if n <= 0 {
        None
    } else {
        match first_cover(reads, n - 1, va) {
            Some(i) => Some(i),
            None => if covers(reads[n - 1], va) { Some(n - 1) } else { None },
        }
    }
}

/// Once one of the first `k` reads covers `va`, looking at more reads finds
/// the same one.
pub proof fn lemma_first_cover_stable(reads: Seq<(u64, u32)>, k: int, n: int, va: u64)
    requires
        0 <= k <= n,
        first_cover(reads, k, va) is Some,
    ensures
        first_cover(reads, n, va) == first_cover(reads, k, va),
    decreases n - k,
{
    if n > k {
        lemma_first_cover_stable(reads, k, n - 1, va);
    }
}

/// Up to `size` bytes of `data` from offset `off`.
pub open spec fn clip(data: Seq<u8>, off: int, size: int) -> Seq<u8> {
    if off >= data.len() {
        Seq::empty()
    } else if off + size <= data.len() {
        data.subrange(off, off + size)
    } else {
        data.subrange(off, data.len() as int)
    }
}

/// The byte at address `a` that the first `n` reads brought back: from the
/// first of them whose returned data reaches `a`.
pub open spec fn byte_from(reads: Seq<(u64, u32)>, data: Seq<Seq<u8>>, n: int, a: int) -> Option<u8>
    decreases n,
{
    if n <= 0 {
        None
    } else {
        match byte_from(reads, data, n - 1, a) {
            Some(b) => Some(b),
            None => if reads[n - 1].0 <= a < reads[n - 1].0 + data[n - 1].len() {
                Some(data[n - 1][a - reads[n - 1].0])
            } else {
                None
            },
        }
    }
}

/// Once the first `k` reads bring back a byte at `a`, looking at more reads
/// gives the same byte.
pub proof fn lemma_byte_from_stable(reads: Seq<(u64, u32)>, data: Seq<Seq<u8>>, k: int, n: int, a: int)
    requires
        0 <= k <= n,
        byte_from(reads, data, k, a) is Some,
    ensures
        byte_from(reads, data, n, a) == byte_from(reads, data, k, a),
    decreases n - k,
{
    if n > k {
        lemma_byte_from_stable(reads, data, k, n - 1, a);
    }
}

/// The byte at address `a` that the last execution of `m` returned, if any.
pub open spec fn byte_at(m: ScatterModel, a: int) -> Option<u8> {
    if a > u64::MAX {
        None
    } else {
        byte_from(m.reads, m.read_data, m.read_data.len() as int, a)
    }
}

/// End of the run of returned bytes from `va + j` on, up to `va + size`
/// (as an offset from `va`).
pub open spec fn run_end(m: ScatterModel, va: int, j: int, size: int) -> int
    decreases size - j,
{
    if j >= size || byte_at(m, va + j) is None {
        j
    } else {
        run_end(m, va, j + 1, size)
    }
}

/// What reading back `size` bytes at `va` from batch `m` gives: after an
/// execution, nothing for a zero size; otherwise, if a prepared read covers
/// `va`, the bytes the execution returned from `va` on, joined across
/// prepared reads, up to `size` of them and up to the first byte that was not
/// returned.
pub open spec fn read_back(m: ScatterModel, va: u64, size: nat) -> Result<Seq<u8>, VmmError> {
    if !m.executed {
        Err(VmmError::NotExecuted)
    } else if size > MAX_IO_SIZE {
        Err(VmmError::SizeTooLarge)
    } else if size == 0 {
        Ok(Seq::empty())
    } else {
        match first_cover(m.reads, m.read_data.len() as int, va) {
            None => Err(VmmError::NotPrepared),
            Some(_) => Ok(
                Seq::new(run_end(m, va as int, 0, size as int) as nat, |j: int| byte_at(m, va + j)->0),
            ),
        }
    }
}

/// A batch of scatter-gather memory operations on one address space.
pub struct VmmScatterMemory {
    pid: u32,
    flags: u32,
    reads: Vec<(u64, u32)>,
    binds: Vec<(u64, u32)>,
    writes: Vec<(u64, Vec<u8>)>,
    read_data: Vec<Vec<u8>>,
    bind_data: Vec<Vec<u8>>,
    executed: bool,
    ever_executed: bool,
}

impl View for VmmScatterMemory {
    type V = ScatterModel;

    closed spec fn view(&self) -> ScatterModel {
        ScatterModel {
            pid: self.pid,
            flags: self.flags,
            reads: self.reads@,
            binds: self.binds@,
            writes: self.writes@.map_values(|w: (u64, Vec<u8>)| (w.0, w.1@)),
            read_data: self.read_data@.map_values(|d: Vec<u8>| d@),
            bind_data: self.bind_data@.map_values(|d: Vec<u8>| d@),
            executed: self.executed,
            ever_executed: self.ever_executed,
        }
    }
}

/// Copies a byte vector.
fn copy_vec(b: &Vec<u8>) -> (r: Vec<u8>)
    ensures
        r@ == b@,
{
    vstd::slice::slice_to_vec(b.as_slice())
}

/// Bytes `[from, to)` of `b`.
fn copy_range(b: &Vec<u8>, from: usize, to: usize) -> (r: Vec<u8>)
    requires
        from <= to <= b@.len(),
    ensures
        r@ == b@.subrange(from as int, to as int),
{
    let mut r: Vec<u8> = Vec::new();
    let mut i: usize = from;
    while i < to
        invariant
            from <= i <= to <= b@.len(),
            r@ == b@.subrange(from as int, i as int),
        decreases to - i,
    {
        r.push(b[i]);
        i = i + 1;
    }
    r
}

impl VmmScatterMemory {
    pub open spec fn wf(&self) -> bool {
        self@.wf()
    }

    /// An empty batch on the address space of `pid` (the physical address
    /// space is `u32::MAX`) with read `flags`.
    pub fn new(pid: u32, flags: u32) -> (r: VmmScatterMemory)
        ensures
            r.wf(),
            r@ == (ScatterModel {
                pid,
                flags,
                reads: Seq::empty(),
                binds: Seq::empty(),
                writes: Seq::empty(),
                read_data: Seq::empty(),
                bind_data: Seq::empty(),
                executed: false,
                ever_executed: false,
            }),
    {
        let r = VmmScatterMemory {
            pid,
            flags,
            reads: Vec::new(),
            binds: Vec::new(),
            writes: Vec::new(),
            read_data: Vec::new(),
            bind_data: Vec::new(),
            executed: false,
            ever_executed: false,
        };
        assert(r@.writes =~= Seq::empty());
        assert(r@.read_data =~= Seq::empty());
        assert(r@.bind_data =~= Seq::empty());
        r
    }

    /// Prepares a pull-mode read of `size` bytes at `va`; the data is read
    /// back with `read` after an execution.
    pub fn prepare(&mut self, va: u64, size: usize) -> (r: Result<(), VmmError>)
        requires
            old(self).wf(),
        ensures
            final(self).wf(),
            r is Err <==> size > MAX_IO_SIZE,
            r is Err ==> r == Err::<(), VmmError>(VmmError::SizeTooLarge) && final(self)@ == old(self)@,
            r is Ok ==> final(self)@ == (ScatterModel { reads: old(self)@.reads.push((va, size as u32)), ..old(self)@ }),
    {
        if size > MAX_IO_SIZE {
            return Err(VmmError::SizeTooLarge);
        }
        self.reads.push((va, size as u32));
        Ok(())
    }

    /// Prepares a write of `data` at `va`, applied at the next execution.
    pub fn prepare_write(&mut self, va: u64, data: &Vec<u8>) -> (r: Result<(), VmmError>)
        requires
            old(self).wf(),
        ensures
            final(self).wf(),
            r is Err <==> data@.len() > MAX_IO_SIZE,
            r is Err ==> r == Err::<(), VmmError>(VmmError::SizeTooLarge) && final(self)@ == old(self)@,
            r is Ok ==> final(self)@ == (ScatterModel { writes: old(self)@.writes.push((va, data@)), ..old(self)@ }),
    {
        if data.len() > MAX_IO_SIZE {
            return Err(VmmError::SizeTooLarge);
        }
        let ghost old_writes = self.writes@;
        let w = (va, copy_vec(data));
        self.writes.push(w);
        proof {
            assert(self.writes@.map_values(|w: (u64, Vec<u8>)| (w.0, w.1@)) =~= old_writes.map_values(
                |w: (u64, Vec<u8>)| (w.0, w.1@),
            ).push((va, data@)));
        }
        Ok(())
    }

    /// Binds a push-mode read of `size` bytes at `va`. `bytes_read` is the
    /// caller's bytes-read cell, which must still be zero. The next execution
    /// fills the binding; a batch that was never executed must be executed
    /// once before it goes away (see `needs_execute_on_drop`). Returns the
    /// index of the binding.
    pub fn prepare_ex(&mut self, va: u64, size: usize, bytes_read: u32) -> (r: Result<usize, VmmError>)
        requires
            old(self).wf(),
        ensures
            final(self).wf(),
            r is Err <==> (bytes_read != 0 || size > MAX_IO_SIZE),
            bytes_read != 0 ==> r == Err::<usize, VmmError>(VmmError::PushCellNotZero),
            bytes_read == 0 && size > MAX_IO_SIZE ==> r == Err::<usize, VmmError>(VmmError::SizeTooLarge),
            r is Err ==> final(self)@ == old(self)@,
            r is Ok ==> r->Ok_0 == old(self)@.binds.len() && final(self)@ == (ScatterModel {
                binds: old(self)@.binds.push((va, size as u32)),
                ..old(self)@
            }),
    {
        if bytes_read != 0 {
            return Err(VmmError::PushCellNotZero);
        }
        if size > MAX_IO_SIZE {
            return Err(VmmError::SizeTooLarge);
        }
        let index = self.binds.len();
        self.binds.push((va, size as u32));
        Ok(index)
    }

    /// Records the data one execution of the batch returned: one entry per
    /// prepared read and one per binding, in order, none longer than
    /// requested. Data of another shape is refused and leaves the batch as
    /// it was.
    pub fn execute_done(&mut self, read_data: Vec<Vec<u8>>, bind_data: Vec<Vec<u8>>) -> (r: Result<(), VmmError>)
        requires
            old(self).wf(),
        ensures
            final(self).wf(),
            r is Ok <==> old(self)@.fits(read_data@.map_values(|d: Vec<u8>| d@), bind_data@.map_values(|d: Vec<u8>| d@)),
            r is Err ==> r == Err::<(), VmmError>(VmmError::EngineFailure) && final(self)@ == old(self)@,
            r is Ok ==> final(self)@ == old(self)@.executed_with(
                read_data@.map_values(|d: Vec<u8>| d@),
                bind_data@.map_values(|d: Vec<u8>| d@),
            ),
    {
        let ghost rd = read_data@.map_values(|d: Vec<u8>| d@);
        let ghost bd = bind_data@.map_values(|d: Vec<u8>| d@);
        if read_data.len() != self.reads.len() || bind_data.len() != self.binds.len() {
            return Err(VmmError::EngineFailure);
        }
        let mut i: usize = 0;
        while i < read_data.len()
            invariant
                self@ == old(self)@,
                old(self)@.wf(),
                i <= read_data.len() == self.reads.len(),
                rd == read_data@.map_values(|d: Vec<u8>| d@),
                forall|j: int| 0 <= j < i ==> #[trigger] rd[j].len() <= self.reads@[j].1,
            decreases read_data.len() - i,
        {
            if read_data[i].len() > self.reads[i].1 as usize {
                proof {
                    assert(rd[i as int].len() > self@.reads[i as int].1);
                }
                return Err(VmmError::EngineFailure);
            }
            i = i + 1;
        }
        let mut k: usize = 0;
        while k < bind_data.len()
            invariant
                self@ == old(self)@,
                old(self)@.wf(),
                k <= bind_data.len() == self.binds.len(),
                bd == bind_data@.map_values(|d: Vec<u8>| d@),
                forall|j: int| 0 <= j < k ==> #[trigger] bd[j].len() <= self.binds@[j].1,
            decreases bind_data.len() - k,
        {
            if bind_data[k].len() > self.binds[k].1 as usize {
                proof {
                    assert(bd[k as int].len() > self@.binds[k as int].1);
                }
                return Err(VmmError::EngineFailure);
            }
            k = k + 1;
        }
        self.read_data = read_data;
        self.bind_data = bind_data;
        self.executed = true;
        self.ever_executed = true;
        Ok(())
    }

    /// The byte at `a` that the last execution returned, if any.
    fn returned_byte(&self, a: u64) -> (r: Option<u8>)
        requires
            self.wf(),
        ensures
            r == byte_at(self@, a as int),
    {
        let ghost m = self@;
        let n = self.read_data.len();
        let mut i: usize = 0;
        while i < n
            invariant
                i <= n == self.read_data@.len() <= self.reads@.len(),
                m == self@,
                m.wf(),
                byte_from(m.reads, m.read_data, i as int, a as int) is None,
            decreases n - i,
        {
            let start = self.reads[i].0;
            let data = &self.read_data[i];
            proof {
                assert(m.read_data[i as int] == data@);
            }
            if start <= a && a - start < data.len() as u64 {
                let b = data[(a - start) as usize];
                proof {
                    assert(byte_from(m.reads, m.read_data, i + 1, a as int) == Some(b));
                    lemma_byte_from_stable(m.reads, m.read_data, i + 1, n as int, a as int);
                }
                return Some(b);
            }
            i = i + 1;
        }
        None
    }

    /// Reads back up to `size` bytes at `va` from the data the last
    /// execution returned, joined across prepared reads. Fewer bytes come
    /// back from the first address for which the execution returned none.
    pub fn read(&self, va: u64, size: usize) -> (r: Result<Vec<u8>, VmmError>)
        requires
            self.wf(),
        ensures
            r is Ok <==> read_back(self@, va, size as nat) is Ok,
            r matches Ok(v) ==> read_back(self@, va, size as nat) == Ok::<Seq<u8>, VmmError>(v@),
            r matches Err(e) ==> read_back(self@, va, size as nat) == Err::<Seq<u8>, VmmError>(e),
    {
        if !self.executed {
            return Err(VmmError::NotExecuted);
        }
        if size > MAX_IO_SIZE {
            return Err(VmmError::SizeTooLarge);
        }
        if size == 0 {
            return Ok(Vec::new());
        }
        let ghost m = self@;
        let n = self.read_data.len();
        let mut i: usize = 0;
        let mut found = false;
        while i < n && !found
            invariant
                i <= n == self.read_data@.len() <= self.reads@.len(),
                m == self@,
                !found ==> first_cover(m.reads, i as int, va) is None,
                found ==> first_cover(m.reads, n as int, va) is Some,
            decreases n - i + if found { 0int } else { 1int },
        {
            let (start, len) = self.reads[i];
            if start <= va && va - start < len as u64 {
                proof {
                    assert(covers(m.reads[i as int], va));
                    assert(first_cover(m.reads, i + 1, va) == Some(i as int));
                    lemma_first_cover_stable(m.reads, i + 1, n as int, va);
                }
                found = true;
            } else {
                proof {
                    assert(!covers(m.reads[i as int], va));
                }
                i = i + 1;
            }
        }
        if !found {
            return Err(VmmError::NotPrepared);
        }
        let mut out: Vec<u8> = Vec::new();
        let mut j: usize = 0;
        let mut go = true;
        while go && j < size
            invariant
                m == self@,
                m.wf(),
                j <= size <= MAX_IO_SIZE,
                out@ == Seq::new(j as nat, |k: int| byte_at(m, va + k)->0),
                go ==> run_end(m, va as int, 0, size as int) == run_end(m, va as int, j as int, size as int),
                !go ==> run_end(m, va as int, 0, size as int) == j,
            decreases size - j + if go { 1int } else { 0int },
        {
            if va > u64::MAX - j as u64 {
                assert(byte_at(m, va + j) is None);
                go = false;
            } else {
                match self.returned_byte(va + j as u64) {
                    None => {
                        go = false;
                    },
                    Some(b) => {
                        out.push(b);
                        j = j + 1;
                        assert(out@ =~= Seq::new(j as nat, |k: int| byte_at(m, va + k)->0));
                    },
                }
            }
        }
        Ok(out)
    }

    /// Withdraws the most recently prepared read (the engine refused it);
    /// data an execution returned for it is forgotten too.
    pub fn withdraw_last_read(&mut self)
        requires
            old(self).wf(),
        ensures
            final(self).wf(),
            old(self)@.reads.len() == 0 ==> final(self)@ == old(self)@,
            old(self)@.reads.len() > 0 ==> final(self)@ == (ScatterModel {
                reads: old(self)@.reads.drop_last(),
                read_data: if old(self)@.read_data.len() == old(self)@.reads.len() {
                    old(self)@.read_data.drop_last()
                } else {
                    old(self)@.read_data
                },
                ..old(self)@
            }),
    {
        if self.reads.len() == 0 {
            return;
        }
        if self.read_data.len() == self.reads.len() {
            let ghost old_data = self.read_data@;
            self.read_data.pop();
            assert(self.read_data@.map_values(|d: Vec<u8>| d@) =~= old_data.map_values(|d: Vec<u8>| d@).drop_last());
        }
        self.reads.pop();
    }

    /// Withdraws the most recently bound push-mode read (the engine refused
    /// it); data an execution returned for it is forgotten too.
    pub fn withdraw_last_bind(&mut self)
        requires
            old(self).wf(),
        ensures
            final(self).wf(),
            old(self)@.binds.len() == 0 ==> final(self)@ == old(self)@,
            old(self)@.binds.len() > 0 ==> final(self)@ == (ScatterModel {
                binds: old(self)@.binds.drop_last(),
                bind_data: if old(self)@.bind_data.len() == old(self)@.binds.len() {
                    old(self)@.bind_data.drop_last()
                } else {
                    old(self)@.bind_data
                },
                ..old(self)@
            }),
    {
        if self.binds.len() == 0 {
            return;
        }
        if self.bind_data.len() == self.binds.len() {
            let ghost old_data = self.bind_data@;
            self.bind_data.pop();
            assert(self.bind_data@.map_values(|d: Vec<u8>| d@) =~= old_data.map_values(|d: Vec<u8>| d@).drop_last());
        }
        self.binds.pop();
    }

    /// Withdraws the most recently prepared write (the engine refused it).
    pub fn withdraw_last_write(&mut self)
        requires
            old(self).wf(),
        ensures
            final(self).wf(),
            old(self)@.writes.len() == 0 ==> final(self)@ == old(self)@,
            old(self)@.writes.len() > 0 ==> final(self)@ == (ScatterModel {
                writes: old(self)@.writes.drop_last(),
                ..old(self)@
            }),
    {
        if self.writes.len() == 0 {
            return;
        }
        let ghost old_writes = self.writes@;
        self.writes.pop();
        assert(self.writes@.map_values(|w: (u64, Vec<u8>)| (w.0, w.1@)) =~= old_writes.map_values(
            |w: (u64, Vec<u8>)| (w.0, w.1@),
        ).drop_last());
    }

    /// Forgets every prepared request and returned datum.
    pub fn clear(&mut self)
        requires
            old(self).wf(),
        ensures
            final(self).wf(),
            final(self)@ == (ScatterModel {
                reads: Seq::empty(),
                binds: Seq::empty(),
                writes: Seq::empty(),
                read_data: Seq::empty(),
                bind_data: Seq::empty(),
                executed: false,
                ..old(self)@
            }),
    {
        self.reads = Vec::new();
        self.binds = Vec::new();
        self.writes = Vec::new();
        self.read_data = Vec::new();
        self.bind_data = Vec::new();
        self.executed = false;
        assert(self@.writes =~= Seq::empty());
        assert(self@.read_data =~= Seq::empty());
        assert(self@.bind_data =~= Seq::empty());
    }

    /// True when push-mode bindings are prepared and the batch was never
    /// executed: it must then be executed once before it is released.
    pub fn needs_execute_on_drop(&self) -> (r: bool)
        ensures
            r == (self@.binds.len() > 0 && !self@.ever_executed),
    {
        self.binds.len() > 0 && !self.ever_executed
    }

    /// The prepared pull-mode reads.
    pub fn prepared_reads(&self) -> (r: &Vec<(u64, u32)>)
        ensures
            r@ == self@.reads,
    {
        &self.reads
    }

    /// The push-mode bindings.
    pub fn prepared_binds(&self) -> (r: &Vec<(u64, u32)>)
        ensures
            r@ == self@.binds,
    {
        &self.binds
    }

    /// Number of prepared writes.
    pub fn write_count(&self) -> (r: usize)
        ensures
            r == self@.writes.len(),
    {
        self.writes.len()
    }

    /// The prepared write at `i`, as (address, bytes).
    pub fn prepared_write(&self, i: usize) -> (r: (u64, &Vec<u8>))
        requires
            i < self@.writes.len(),
        ensures
            (r.0, r.1@) == self@.writes[i as int],
    {
        (self.writes[i].0, &self.writes[i].1)
    }

    /// Data the last execution returned for binding `i`; empty if none did.
    pub fn bind_result(&self, i: usize) -> (r: Vec<u8>)
        ensures
            i < self@.bind_data.len() ==> r@ == self@.bind_data[i as int],
            i >= self@.bind_data.len() ==> r@.len() == 0,
    {
        if i < self.bind_data.len() {
            copy_vec(&self.bind_data[i])
        } else {
            Vec::new()
        }
    }

    /// Process whose address space the batch targets.
    pub fn pid(&self) -> (r: u32)
        ensures
            r == self@.pid,
    {
        self.pid
    }

    /// Read flags of the batch.
    pub fn flags(&self) -> (r: u32)
        ensures
            r == self@.flags,
    {
        self.flags
    }
}

} // verus!
