//! Asynchronous multi-term memory search: the job's terms, its range, and the
//! lifecycle `NotStarted -> Running -> Completed`.
//!
//! The job does not run the scan itself. `start` says when a worker has to be
//! launched, `abort` raises the cooperative cancellation flag the worker
//! honours, and `finish` / `result` take the outcome of the joined worker.
use vstd::prelude::*;
use crate::error::VmmError;

verus! {

/// Most terms one search job can hold.
pub const SEARCH_MAX_TERMS: usize = 16;
/// Longest search pattern, in bytes.
pub const SEARCH_MAX_PATTERN: usize = 32;
/// Largest accepted byte alignment of a search term.
pub const SEARCH_MAX_ALIGN: u32 = 0x1000;
/// Largest result cap of a search job.
pub const SEARCH_MAX_RESULTS: u32 = 0x10000;
/// Size of a page; search bounds are truncated to page boundaries.
pub const PAGE_SIZE: u64 = 0x1000;

/// A byte pattern to search for.
///
/// A set bit in `skip_mask` is a wildcard bit of the pattern byte at the same
/// index; pattern bytes past the end of the mask have no wildcard bits.
#[derive(Debug, Clone)]
pub struct SearchTerm {
    pub pattern: Vec<u8>,
    pub skip_mask: Vec<u8>,
    pub align: u32,
}

/// Mathematical view of a search term.
pub struct SearchTermModel {
    pub pattern: Seq<u8>,
    pub skip_mask: Seq<u8>,
    pub align: u32,
}

impl View for SearchTerm {
    type V = SearchTermModel;

    open spec fn view(&self) -> SearchTermModel {
        SearchTermModel { pattern: self.pattern@, skip_mask: self.skip_mask@, align: self.align }
    }
}

/// `a` is an accepted alignment: zero (no alignment) or a power of two up to a page.
pub open spec fn valid_alignment(a: u32) -> bool {
    ||| a == 0
    ||| a == 1
    ||| a == 2
    ||| a == 4
    ||| a == 8
    ||| a == 16
    ||| a == 32
    ||| a == 64
    ||| a == 128
    ||| a == 256
    ||| a == 512
    ||| a == 1024
    ||| a == 2048
    ||| a == 4096
}

/// The error with which a term is refused, checked in this order: the job is
/// full, the pattern length is out of range, the alignment is invalid, the skip
/// mask is longer than the pattern. `None` when the term is accepted.
pub open spec fn term_error(n_terms: nat, pattern_len: nat, mask_len: Option<nat>, align: u32) -> Option<VmmError> {
    if n_terms >= SEARCH_MAX_TERMS {
        Some(VmmError::SearchTermLimit)
    } else if pattern_len == 0 || pattern_len > SEARCH_MAX_PATTERN {
        Some(VmmError::SearchPatternLength)
    } else if !valid_alignment(align) {
        Some(VmmError::SearchAlignment)
    } else if mask_len is Some && mask_len->0 > pattern_len {
        Some(VmmError::SearchSkipMaskLength)
    } else {
        None
    }
}

/// A term that a job accepts.
pub open spec fn valid_term(t: SearchTermModel) -> bool {
    &&& 0 < t.pattern.len() <= SEARCH_MAX_PATTERN
    &&& t.skip_mask.len() <= t.pattern.len()
    &&& valid_alignment(t.align)
}

/// `a` rounded down to a page boundary.
pub open spec fn page_floor(a: u64) -> u64 {
    (a - a % PAGE_SIZE) as u64
}

/// What a joined search worker reports.
#[derive(Debug, Clone)]
pub struct SearchOutcome {
    /// The scan ran to its end (it was not aborted and did not fail).
    pub success: bool,
    /// Address the scan had reached.
    pub addr_current: u64,
    /// Bytes the scan processed.
    pub total_read_bytes: u64,
    /// Number of matches the engine counted.
    pub total_results: u32,
    /// The matches, as (address, term index), in discovery order.
    pub hits: Vec<(u64, u32)>,
}

/// Snapshot of a search job's progress.
#[derive(Debug, Clone)]
pub struct VmmSearchResult {
    /// `start()` or `result()` has been called.
    pub is_started: bool,
    /// The search has completed.
    pub is_completed: bool,
    /// The search completed successfully (meaningful once completed).
    pub is_completed_success: bool,
    /// Address the search starts at.
    pub addr_min: u64,
    /// Address the search stops at (0: no upper bound).
    pub addr_max: u64,
    /// Address the worker has reached.
    pub addr_current: u64,
    /// Bytes processed so far.
    pub total_read_bytes: u64,
    /// Number of results.
    pub total_results: u32,
    /// The results as (address, term index); empty unless the search succeeded.
    pub result: Vec<(u64, u32)>,
}

/// Mathematical view of a search job.
pub struct SearchModel {
    pub pid: u32,
    pub addr_min: u64,
    pub addr_max: u64,
    pub max_results: u32,
    pub flags: u64,
    pub terms: Seq<SearchTermModel>,
    pub started: bool,
    pub completed: bool,
    pub success: bool,
    pub abort_requested: bool,
    pub addr_current: u64,
    pub total_read_bytes: u64,
    pub total_results: u32,
    pub results: Seq<(u64, u32)>,
}

impl SearchModel {
    /// The invariant of every job.
    pub open spec fn wf(self) -> bool {
        &&& self.terms.len() <= SEARCH_MAX_TERMS
        &&& forall|i: int| 0 <= i < self.terms.len() ==> valid_term(#[trigger] self.terms[i])
        &&& self.addr_min % PAGE_SIZE == 0
        &&& self.addr_max % PAGE_SIZE == 0
        &&& (self.addr_max == 0 || self.addr_min < self.addr_max)
        &&& self.max_results <= SEARCH_MAX_RESULTS
        &&& (self.completed ==> self.started)
        &&& (!self.completed ==> !self.success)
        &&& (!self.success ==> self.results.len() == 0)
    }

    /// A worker is (or may still be) running for this job.
    pub open spec fn running(self) -> bool {
        self.started && !self.completed
    }

    /// The job after `start()`.
    pub open spec fn started_model(self) -> SearchModel {
        SearchModel { started: true, ..self }
    }

    /// The job after `abort()`.
    pub open spec fn aborted_model(self) -> SearchModel {
        SearchModel { abort_requested: self.abort_requested || self.running(), ..self }
    }

    /// The job after the joined worker reported `o`: a running job completes
    /// with the outcome; any other job stays as it is.
    pub open spec fn finished_model(self, o: SearchOutcome) -> SearchModel {
        if self.running() {
            SearchModel {
                completed: true,
                success: o.success,
                addr_current: o.addr_current,
                total_read_bytes: o.total_read_bytes,
                total_results: o.total_results,
                results: if o.success { o.hits@ } else { Seq::empty() },
                ..self
            }
        } else {
            self
        }
    }

    /// The job after `result()` with the joined worker's outcome `o`.
    pub open spec fn result_model(self, o: SearchOutcome) -> SearchModel {
        self.started_model().finished_model(o)
    }

    /// What `poll()` reports on this job.
    pub open spec fn snapshot_matches(self, r: VmmSearchResult) -> bool {
        &&& r.is_started == self.started
        &&& r.is_completed == self.completed
        &&& r.is_completed_success == self.success
        &&& r.addr_min == self.addr_min
        &&& r.addr_max == self.addr_max
        &&& r.addr_current == self.addr_current
        &&& r.total_read_bytes == self.total_read_bytes
        &&& r.total_results == self.total_results
        &&& r.result@ == self.results
    }
}

/// A multi-term memory search job.
pub struct VmmSearch {
    pid: u32,
    addr_min: u64,
    addr_max: u64,
    max_results: u32,
    flags: u64,
    terms: Vec<SearchTerm>,
    is_started: bool,
    is_completed: bool,
    is_completed_success: bool,
    abort_requested: bool,
    addr_current: u64,
    total_read_bytes: u64,
    total_results: u32,
    result: Vec<(u64, u32)>,
}

impl View for VmmSearch {
    type V = SearchModel;

    closed spec fn view(&self) -> SearchModel {
        SearchModel {
            pid: self.pid,
            addr_min: self.addr_min,
            addr_max: self.addr_max,
            max_results: self.max_results,
            flags: self.flags,
            terms: self.terms@.map_values(|t: SearchTerm| t@),
            started: self.is_started,
            completed: self.is_completed,
            success: self.is_completed_success,
            abort_requested: self.abort_requested,
            addr_current: self.addr_current,
            total_read_bytes: self.total_read_bytes,
            total_results: self.total_results,
            results: self.result@,
        }
    }
}

/// Copies a byte slice into a new vector.
fn copy_bytes(b: &[u8]) -> (r: Vec<u8>)
    ensures
        r@ == b@,
{
    vstd::slice::slice_to_vec(b)
}

/// Copies a list of search results.
fn copy_hits(v: &Vec<(u64, u32)>) -> (r: Vec<(u64, u32)>)
    ensures
        r@ == v@,
{
    let mut r: Vec<(u64, u32)> = Vec::new();
    let mut i: usize = 0;
    while i < v.len()
        invariant
            i <= v.len(),
            r@ == v@.subrange(0, i as int),
        decreases v.len() - i,
    {
        r.push(v[i]);
        i = i + 1;
    }
    r
}

/// `a` is zero or a power of two up to a page, tested the way the engine does.
fn check_alignment(a: u32) -> (r: bool)
    ensures
        r == valid_alignment(a),
{
    if a == 0 {
        return true;
    }
    let b: u32 = a - 1;
    let r = (a & b) == 0 && a <= SEARCH_MAX_ALIGN;
    assert(r == valid_alignment(a)) by (bit_vector)
        requires
            a > 0,
            b == a - 1,
            r == ((a & b) == 0 && a <= 0x1000u32),
    ;
    r
}

impl VmmSearch {
    /// The view's invariant.
    pub open spec fn wf(&self) -> bool {
        self@.wf()
    }

    /// Opens a search job over `[addr_min, addr_max)` of the address space of
    /// `pid`. Both bounds are first truncated to page boundaries; an upper
    /// bound of zero means no upper bound. At most `num_results_max` results
    /// are collected, capped at `SEARCH_MAX_RESULTS`.
    pub fn new(pid: u32, addr_min: u64, addr_max: u64, num_results_max: u32, flags: u64) -> (r: Result<VmmSearch, VmmError>)
        ensures
            (page_floor(addr_max) != 0 && page_floor(addr_max) <= page_floor(addr_min)) <==> r is Err,
            r is Err ==> r->Err_0 == VmmError::SearchRange,
            r matches Ok(s) ==> {
                &&& s.wf()
                &&& s@.pid == pid
                &&& s@.addr_min == page_floor(addr_min)
                &&& s@.addr_max == page_floor(addr_max)
                &&& s@.max_results == if num_results_max < SEARCH_MAX_RESULTS { num_results_max } else { SEARCH_MAX_RESULTS }
                &&& s@.flags == flags
                &&& s@.terms.len() == 0
                &&& !s@.started && !s@.completed && !s@.success && !s@.abort_requested
                &&& s@.addr_current == 0 && s@.total_read_bytes == 0 && s@.total_results == 0
                &&& s@.results.len() == 0
            },
    {
        let max_results = if num_results_max < SEARCH_MAX_RESULTS { num_results_max } else { SEARCH_MAX_RESULTS };
        let lo = addr_min - addr_min % PAGE_SIZE;
        let hi = addr_max - addr_max % PAGE_SIZE;
        if hi != 0 && hi <= lo {
            return Err(VmmError::SearchRange);
        }
        let s = VmmSearch {
            pid,
            addr_min: lo,
            addr_max: hi,
            max_results,
            flags,
            terms: Vec::new(),
            is_started: false,
            is_completed: false,
            is_completed_success: false,
            abort_requested: false,
            addr_current: 0,
            total_read_bytes: 0,
            total_results: 0,
            result: Vec::new(),
        };
        assert(s@.terms =~= Seq::<SearchTermModel>::empty());
        Ok(s)
    }

    /// Adds a plain search term: `search_bytes`, no wildcard bits, no alignment.
    pub fn add_search(&mut self, search_bytes: &[u8]) -> (r: Result<u32, VmmError>)
        requires
            old(self).wf(),
        ensures
            final(self).wf(),
            r == add_term_result(old(self)@, search_bytes@.len(), None, 1),
            r is Err ==> final(self)@ == old(self)@,
            r is Ok ==> final(self)@ == old(self)@.with_term(
                SearchTermModel { pattern: search_bytes@, skip_mask: Seq::empty(), align: 1 },
            ),
    {
        self.add_search_ex(search_bytes, None, 1)
    }

    /// Adds a search term: `search_bytes` (1 to 32 bytes), an optional skip
    /// mask no longer than the pattern, and an alignment that is 0 or a power
    /// of two no larger than a page. Returns the index of the new term.
    pub fn add_search_ex(&mut self, search_bytes: &[u8], search_skipmask: Option<&[u8]>, byte_align: u32) -> (r: Result<u32, VmmError>)
        requires
            old(self).wf(),
        ensures
            final(self).wf(),
            r == add_term_result(old(self)@, search_bytes@.len(), opt_len(search_skipmask), byte_align),
            r is Err ==> final(self)@ == old(self)@,
            r is Ok ==> final(self)@ == old(self)@.with_term(
                SearchTermModel { pattern: search_bytes@, skip_mask: opt_bytes(search_skipmask), align: byte_align },
            ),
    {
        if self.terms.len() >= SEARCH_MAX_TERMS {
            return Err(VmmError::SearchTermLimit);
        }
        if search_bytes.len() == 0 || search_bytes.len() > SEARCH_MAX_PATTERN {
            return Err(VmmError::SearchPatternLength);
        }
        if !check_alignment(byte_align) {
            return Err(VmmError::SearchAlignment);
        }
        let mask = match search_skipmask {
            Some(m) => {
                if m.len() > search_bytes.len() {
                    return Err(VmmError::SearchSkipMaskLength);
                }
                copy_bytes(m)
            },
            None => Vec::new(),
        };
        let term = SearchTerm { pattern: copy_bytes(search_bytes), skip_mask: mask, align: byte_align };
        let index = self.terms.len() as u32;
        let ghost old_terms = self.terms@;
        self.terms.push(term);
        proof {
            assert(self.terms@ == old_terms.push(term));
            assert(self.terms@.map_values(|t: SearchTerm| t@) =~= old_terms.map_values(|t: SearchTerm| t@).push(term@));
        }
        Ok(index)
    }

    /// Marks the job started. Returns true exactly when the job was not
    /// started before: the caller must then launch one worker for it.
    pub fn start(&mut self) -> (spawn: bool)
        requires
            old(self).wf(),
        ensures
            final(self).wf(),
            spawn == !old(self)@.started,
            final(self)@ == old(self)@.started_model(),
    {
        if self.is_started {
            return false;
        }
        self.is_started = true;
        true
    }

    /// Requests cooperative cancellation of a running job; no effect on a job
    /// that is not started or already completed.
    pub fn abort(&mut self)
        requires
            old(self).wf(),
        ensures
            final(self).wf(),
            final(self)@ == old(self)@.aborted_model(),
    {
        if self.is_started && !self.is_completed {
            self.abort_requested = true;
        }
    }

    /// True when the worker must stop: cancellation was requested.
    pub fn is_abort_requested(&self) -> (r: bool)
        ensures
            r == self@.abort_requested,
    {
        self.abort_requested
    }

    /// True when a worker is (or may still be) running for this job.
    pub fn is_running(&self) -> (r: bool)
        ensures
            r == self@.running(),
    {
        self.is_started && !self.is_completed
    }

    /// Records progress the worker reported while it runs.
    pub fn update_progress(&mut self, addr_current: u64, total_read_bytes: u64, total_results: u32)
        requires
            old(self).wf(),
        ensures
            final(self).wf(),
            old(self)@.running() ==> final(self)@ == (SearchModel {
                addr_current,
                total_read_bytes,
                total_results,
                ..old(self)@
            }),
            !old(self)@.running() ==> final(self)@ == old(self)@,
    {
        if self.is_started && !self.is_completed {
            self.addr_current = addr_current;
            self.total_read_bytes = total_read_bytes;
            self.total_results = total_results;
        }
    }

    /// Takes the outcome of the joined worker: a running job completes with
    /// it, and keeps its matches only if the scan succeeded.
    pub fn finish(&mut self, outcome: SearchOutcome)
        requires
            old(self).wf(),
        ensures
            final(self).wf(),
            final(self)@ == old(self)@.finished_model(outcome),
    {
        if self.is_started && !self.is_completed {
            self.is_completed = true;
            self.is_completed_success = outcome.success;
            self.addr_current = outcome.addr_current;
            self.total_read_bytes = outcome.total_read_bytes;
            self.total_results = outcome.total_results;
            if outcome.success {
                self.result = outcome.hits;
            } else {
                self.result = Vec::new();
            }
        }
    }

    /// Snapshot of the job. Results are empty unless the search completed
    /// successfully.
    pub fn poll(&self) -> (r: VmmSearchResult)
        requires
            self.wf(),
        ensures
            self@.snapshot_matches(r),
    {
        VmmSearchResult {
            is_started: self.is_started,
            is_completed: self.is_completed,
            is_completed_success: self.is_completed_success,
            addr_min: self.addr_min,
            addr_max: self.addr_max,
            addr_current: self.addr_current,
            total_read_bytes: self.total_read_bytes,
            total_results: self.total_results,
            result: copy_hits(&self.result),
        }
    }

    /// Completes the job with the outcome of its joined worker (starting it
    /// first if it was never started) and returns the final snapshot. A job
    /// that had already completed keeps its result and ignores `outcome`.
    pub fn result(&mut self, outcome: SearchOutcome) -> (r: VmmSearchResult)
        requires
            old(self).wf(),
        ensures
            final(self).wf(),
            final(self)@ == old(self)@.result_model(outcome),
            final(self)@.snapshot_matches(r),
            r.is_started && r.is_completed,
    {
        self.start();
        self.finish(outcome);
        self.poll()
    }

    /// Prepares the job for being dropped: a running job gets its
    /// cancellation requested. Returns true exactly when a worker is still
    /// running, which the caller must join and hand to `finish` before the
    /// job goes away.
    pub fn shutdown(&mut self) -> (must_join: bool)
        requires
            old(self).wf(),
        ensures
            final(self).wf(),
            must_join == old(self)@.running(),
            final(self)@ == old(self)@.aborted_model(),
            must_join ==> final(self)@.abort_requested,
    {
        self.abort();
        self.is_started && !self.is_completed
    }

    /// Number of terms the job holds.
    pub fn term_count(&self) -> (r: usize)
        ensures
            r == self@.terms.len(),
    {
        proof {
            assert(self@.terms.len() == self.terms@.len());
        }
        self.terms.len()
    }

    /// The term at `i`.
    pub fn term(&self, i: usize) -> (r: &SearchTerm)
        requires
            i < self@.terms.len(),
        ensures
            r@ == self@.terms[i as int],
    {
        &self.terms[i]
    }

    /// Address the search starts at.
    pub fn addr_min(&self) -> (r: u64)
        ensures
            r == self@.addr_min,
    {
        self.addr_min
    }

    /// Address the search stops at (0: no upper bound).
    pub fn addr_max(&self) -> (r: u64)
        ensures
            r == self@.addr_max,
    {
        self.addr_max
    }

    /// Most results the search collects.
    pub fn max_results(&self) -> (r: u32)
        ensures
            r == self@.max_results,
    {
        self.max_results
    }

    /// Process whose address space is searched.
    pub fn pid(&self) -> (r: u32)
        ensures
            r == self@.pid,
    {
        self.pid
    }

    /// Read flags of the search.
    pub fn flags(&self) -> (r: u64)
        ensures
            r == self@.flags,
    {
        self.flags
    }
}

impl SearchModel {
    /// The job with one more term.
    pub open spec fn with_term(self, t: SearchTermModel) -> SearchModel {
        SearchModel { terms: self.terms.push(t), ..self }
    }
}

/// `a` is a power of two.
pub open spec fn is_power_of_two(a: u32) -> bool {
    a != 0 && (a & ((a - 1) as u32)) == 0
}

/// Adding a term to a job is refused exactly when the pattern is empty or
/// longer than 32 bytes, the skip mask is longer than the pattern, the
/// alignment is neither 0 nor a power of two, the alignment exceeds a page,
/// or the job already holds 16 terms; otherwise the new term gets the next
/// index.
pub proof fn lemma_term_rejection(s: SearchModel, pattern_len: nat, mask_len: Option<nat>, align: u32)
    ensures
        add_term_result(s, pattern_len, mask_len, align) is Err <==> {
            ||| pattern_len == 0
            ||| pattern_len > 32
            ||| (mask_len is Some && mask_len->0 > pattern_len)
            ||| (align != 0 && !is_power_of_two(align))
            ||| align > 4096
            ||| s.terms.len() >= 16
        },
        add_term_result(s, pattern_len, mask_len, align) is Ok ==> add_term_result(s, pattern_len, mask_len, align)->Ok_0
            == s.terms.len() as u32,
{
    if align > 0 {
        let b = (align - 1) as u32;
        assert(valid_alignment(align) <==> ((align & b) == 0 && align <= 0x1000u32)) by (bit_vector)
            requires
                align > 0,
                b == align - 1,
        ;
    }
}

/// Lifecycle of a fresh job: before `start()` it is neither started nor
/// completed; after `start()` and before its worker is joined it is started
/// and not completed; once the worker's outcome is taken it is completed, and
/// it holds results only if the scan succeeded.
pub proof fn lemma_search_lifecycle(s: SearchModel, o: SearchOutcome)
    requires
        s.wf(),
        !s.started,
    ensures
        !s.completed,
        s.started_model().started,
        !s.started_model().completed,
        s.started_model().wf(),
        s.started_model().finished_model(o).completed,
        s.started_model().finished_model(o).results.len() > 0 ==> s.started_model().finished_model(o).success,
        s.started_model().finished_model(o).wf(),
{
}

/// `result()` always leaves a job started and completed, from any state, and
/// the job holds results only if its scan succeeded.
pub proof fn lemma_result_completes(s: SearchModel, o: SearchOutcome)
    requires
        s.wf(),
    ensures
        s.result_model(o).started,
        s.result_model(o).completed,
        s.result_model(o).results.len() > 0 ==> s.result_model(o).success,
        s.result_model(o).wf(),
{
}

/// Dropping a running job: its cancellation is requested, its worker still
/// has to be joined, and once the joined worker's outcome is taken no worker
/// is left running, whatever the outcome.
pub proof fn lemma_abort_then_join(s: SearchModel, o: SearchOutcome)
    requires
        s.wf(),
        s.running(),
    ensures
        s.aborted_model().abort_requested,
        s.aborted_model().running(),
        !s.aborted_model().finished_model(o).running(),
        s.aborted_model().finished_model(o).wf(),
{
}

/// Length of an optional byte slice.
pub open spec fn opt_len(m: Option<&[u8]>) -> Option<nat> {
    match m {
        Some(b) => Some(b@.len()),
        None => None,
    }
}

/// Contents of an optional byte slice; empty when absent.
pub open spec fn opt_bytes(m: Option<&[u8]>) -> Seq<u8> {
    match m {
        Some(b) => b@,
        None => Seq::empty(),
    }
}

/// What adding a term to job `s` returns: the refusal, or the new term's index.
pub open spec fn add_term_result(s: SearchModel, pattern_len: nat, mask_len: Option<nat>, align: u32) -> Result<u32, VmmError> {
    match term_error(s.terms.len(), pattern_len, mask_len, align) {
        Some(e) => Err(e),
        None => Ok(s.terms.len() as u32),
    }
}

} // verus!
