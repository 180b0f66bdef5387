//! A model of the control interface's documented contract.
//!
//! The real interface is an opaque external service; this crate only
//! interprets its responses. What that service promises — one epoch counter
//! that grows by one per advance, cached statistics that refresh exactly at
//! an advance, writes that return the value they displace, resolution that
//! never leaves partial state — is written down here as a small state
//! machine, so the promises can be stated precisely, proved about the model,
//! and exercised by tests without the real allocator. The model keeps one
//! representative cached statistic (the allocated-byte counter) and one
//! representative writable control value.

use vstd::prelude::*;

use crate::{name_seq, path_from_parts, ControlPath, ControlPoint, CtlError};

verus! {

/// The interface state the model tracks: the epoch, the live and cached
/// readings of the allocated-byte statistic, and one writable control value.
pub struct ModelInterface {
    /// The generation counter; grows by one per advance.
    pub epoch: u64,
    /// The statistic's true current value, as allocator events move it.
    pub live_allocated: u64,
    /// The statistic's cached value: the snapshot taken at the last advance,
    /// which is what a read observes.
    pub cached_allocated: u64,
    /// One writable control value.
    pub tunable: u64,
}

/// The state after an epoch advance: the counter one higher, the cache
/// refreshed to the live value.
pub open spec fn spec_advanced(s: ModelInterface) -> ModelInterface
    recommends
        s.epoch < u64::MAX,
{
    ModelInterface { epoch: (s.epoch + 1) as u64, cached_allocated: s.live_allocated, ..s }
}

/// What an advance returns: the epoch the interface held before the call.
pub open spec fn spec_advance_result(s: ModelInterface) -> u64 {
    s.epoch
}

/// The state after the application allocates `n` bytes: the live statistic
/// moves; the cache does not.
pub open spec fn spec_allocation_event(s: ModelInterface, n: u64) -> ModelInterface
    recommends
        s.live_allocated + n <= u64::MAX,
{
    ModelInterface { live_allocated: (s.live_allocated + n) as u64, ..s }
}

/// The state after writing `v` to the writable control value.
pub open spec fn spec_tunable_written(s: ModelInterface, v: u64) -> ModelInterface {
    ModelInterface { tunable: v, ..s }
}

/// What a combined write returns: the value the point held immediately
/// before this call's write took effect.
pub open spec fn spec_write_result(s: ModelInterface) -> u64 {
    s.tunable
}

/// The control point a dotted name denotes, among those the model serves,
/// and nothing else: resolution is a function of the name alone.
pub open spec fn known_point(n: Seq<u8>) -> Option<ControlPoint> {
    if n == name_seq(ControlPoint::Epoch) {
        Some(ControlPoint::Epoch)
    } else if n == name_seq(ControlPoint::StatsAllocated) {
        Some(ControlPoint::StatsAllocated)
    } else {
        None
    }
}

/// What a read of a control point observes in a given state: the epoch
/// directly, the statistic through its cache. Points the model does not
/// serve read as nothing.
pub open spec fn spec_point_value(s: ModelInterface, p: ControlPoint) -> Option<u64> {
    match p {
        ControlPoint::Epoch => Some(s.epoch),
        ControlPoint::StatsAllocated => Some(s.cached_allocated),
        _ => None,
    }
}

/// True while the cache can only understate the live statistic: the reading
/// discipline every state reachable by allocations and advances keeps.
pub open spec fn cache_understates(s: ModelInterface) -> bool {
    s.cached_allocated <= s.live_allocated
}

/// Compares two byte buffers by contents.
fn bytes_eq(a: &Vec<u8>, b: &Vec<u8>) -> (r: bool)
    ensures
        r == (a@ == b@),
{
    if a.len() != b.len() {
        return false;
    }
    let n = a.len();
    let mut i: usize = 0;
    while i < n
        invariant
            i <= n,
            n == a@.len(),
            a@.len() == b@.len(),
            forall|j: int| 0 <= j < i ==> a@[j] == b@[j],
        decreases n - i,
    {
        if a[i] != b[i] {
            return false;
        }
        i += 1;
    }
    proof {
        assert(a@ =~= b@);
    }
    true
}

impl ModelInterface {
    /// A fresh interface: every counter at zero, cache in step with the
    /// live value.
    pub fn new() -> (s: ModelInterface)
        ensures
            s.epoch == 0,
            s.live_allocated == 0,
            s.cached_allocated == 0,
            s.tunable == 0,
    {
        ModelInterface { epoch: 0, live_allocated: 0, cached_allocated: 0, tunable: 0 }
    }

    /// Advances the epoch: refreshes the cached statistic and returns the
    /// epoch held before this call.
    pub fn advance(&mut self) -> (r: u64)
        requires
            old(self).epoch < u64::MAX,
        ensures
            *final(self) == spec_advanced(*old(self)),
            r == spec_advance_result(*old(self)),
    {
        let prior = self.epoch;
        self.epoch = self.epoch + 1;
        self.cached_allocated = self.live_allocated;
        prior
    }

    /// The application allocates `n` bytes: the live statistic grows, the
    /// cache stays where the last advance left it.
    pub fn note_allocation(&mut self, n: u64)
        requires
            old(self).live_allocated + n <= u64::MAX,
        ensures
            *final(self) == spec_allocation_event(*old(self), n),
    {
        self.live_allocated = self.live_allocated + n;
    }

    /// Resolves a dotted name: the names the model serves yield their path;
    /// every other name is `NotFound`, and nothing about the interface
    /// changes either way — resolution never writes.
    pub fn resolve(&self, name: &Vec<u8>) -> (r: Result<ControlPath, CtlError>)
        ensures
            known_point(name@) is Some ==> {
                &&& r is Ok
                &&& r->Ok_0.spec_point() == known_point(name@)->0
            },
            known_point(name@) is None ==> r == Err::<ControlPath, CtlError>(CtlError::NotFound),
    {
        let epoch_name = crate::name_bytes(ControlPoint::Epoch);
        if bytes_eq(name, &epoch_name) {
            let mut comps: Vec<usize> = Vec::new();
            comps.push(1);
            return Ok(path_from_parts(ControlPoint::Epoch, comps));
        }
        let allocated_name = crate::name_bytes(ControlPoint::StatsAllocated);
        if bytes_eq(name, &allocated_name) {
            let mut comps: Vec<usize> = Vec::new();
            comps.push(2);
            comps.push(0);
            return Ok(path_from_parts(ControlPoint::StatsAllocated, comps));
        }
        Err(CtlError::NotFound)
    }

    /// Reads a control point by its dotted name.
    pub fn read_by_name(&self, name: &Vec<u8>) -> (r: Result<u64, CtlError>)
        ensures
            known_point(name@) is Some ==> r == Ok::<u64, CtlError>(
                spec_point_value(*self, known_point(name@)->0)->0,
            ),
            known_point(name@) is None ==> r == Err::<u64, CtlError>(CtlError::NotFound),
    {
        let epoch_name = crate::name_bytes(ControlPoint::Epoch);
        if bytes_eq(name, &epoch_name) {
            return Ok(self.epoch);
        }
        let allocated_name = crate::name_bytes(ControlPoint::StatsAllocated);
        if bytes_eq(name, &allocated_name) {
            return Ok(self.cached_allocated);
        }
        Err(CtlError::NotFound)
    }

    /// Reads a control point by a resolved path: the observation is decided
    /// by the point the path resolves, nothing else.
    pub fn read_by_path(&self, path: &ControlPath) -> (r: Result<u64, CtlError>)
        ensures
            spec_point_value(*self, path.spec_point()) is Some ==> r == Ok::<u64, CtlError>(
                spec_point_value(*self, path.spec_point())->0,
            ),
            spec_point_value(*self, path.spec_point()) is None ==> r == Err::<u64, CtlError>(
                CtlError::NotFound,
            ),
    {
        match path.point() {
            ControlPoint::Epoch => Ok(self.epoch),
            ControlPoint::StatsAllocated => Ok(self.cached_allocated),
            _ => Err(CtlError::NotFound),
        }
    }

    /// Writes the writable control value and returns the value it held
    /// immediately before this call.
    pub fn set_tunable(&mut self, v: u64) -> (r: u64)
        ensures
            *final(self) == spec_tunable_written(*old(self), v),
            r == spec_write_result(*old(self)),
    {
        let prior = self.tunable;
        self.tunable = v;
        prior
    }

    /// Reads the writable control value.
    pub fn read_tunable(&self) -> (r: u64)
        ensures
            r == self.tunable,
    {
        self.tunable
    }
}

/// Reading a control point through a resolved path observes exactly the
/// value reading it by name observes, in the same state.
pub proof fn lemma_name_path_agree(s: ModelInterface, p: ControlPoint, path: ControlPath)
    requires
        path.spec_point() == p,
        known_point(name_seq(p)) == Some(p),
    ensures
        spec_point_value(s, known_point(name_seq(p))->0) == spec_point_value(
            s,
            path.spec_point(),
        ),
{
}

/// The names the model serves denote their own points; in particular both
/// resolve, and each to the point whose name it is.
pub proof fn lemma_known_names_resolve()
    ensures
        known_point(name_seq(ControlPoint::Epoch)) == Some(ControlPoint::Epoch),
        known_point(name_seq(ControlPoint::StatsAllocated)) == Some(
            ControlPoint::StatsAllocated,
        ),
{
    assert(name_seq(ControlPoint::Epoch).len() == 6);
    assert(name_seq(ControlPoint::StatsAllocated).len() == 16);
}

/// Two immediate advances return values exactly one apart.
pub proof fn lemma_advance_twice(s: ModelInterface)
    requires
        s.epoch + 2 <= u64::MAX,
    ensures
        spec_advance_result(spec_advanced(s)) == spec_advance_result(s) + 1,
{
}

/// An allocation between advances moves only the live statistic: a read
/// before the next advance still observes the cache, which can equal or
/// understate the live value but never overstate it.
pub proof fn lemma_stale_read_understates(s: ModelInterface, n: u64)
    requires
        cache_understates(s),
        s.live_allocated + n <= u64::MAX,
    ensures
        cache_understates(spec_allocation_event(s, n)),
        spec_point_value(spec_allocation_event(s, n), ControlPoint::StatsAllocated)
            == spec_point_value(s, ControlPoint::StatsAllocated),
{
}

/// Every advance restores the reading discipline, whatever state it finds.
pub proof fn lemma_advance_refreshes(s: ModelInterface)
    requires
        s.epoch < u64::MAX,
    ensures
        cache_understates(spec_advanced(s)),
{
}

/// A read that strictly follows an advance reflects every allocation that
/// preceded the advance: allocate `n`, advance, and the statistic observed
/// is exactly the prior live value plus `n`.
pub proof fn lemma_fresh_after_advance(s: ModelInterface, n: u64)
    requires
        s.live_allocated + n <= u64::MAX,
        s.epoch < u64::MAX,
    ensures
        spec_point_value(spec_advanced(spec_allocation_event(s, n)), ControlPoint::StatsAllocated)
            == Some((s.live_allocated + n) as u64),
{
}

/// A combined write returns the value the point held immediately before:
/// after writing `v`, a read observes `v`, and the next write — whatever it
/// writes — returns `v`.
pub proof fn lemma_write_returns_previous(s: ModelInterface, v: u64, w: u64)
    ensures
        spec_write_result(spec_tunable_written(s, v)) == v,
        spec_tunable_written(s, v).tunable == v,
        spec_write_result(spec_tunable_written(spec_tunable_written(s, v), w)) == w,
{
}

/// A failed resolution leaves no partial state: resolution is a function of
/// the name alone, never writes, and the names the interface serves resolve
/// the same way after an unknown name failed as they did before.
pub proof fn lemma_failed_resolve_harmless(n: Seq<u8>)
    requires
        known_point(n) is None,
    ensures
        known_point(name_seq(ControlPoint::Epoch)) == Some(ControlPoint::Epoch),
        known_point(name_seq(ControlPoint::StatsAllocated)) == Some(
            ControlPoint::StatsAllocated,
        ),
{
    lemma_known_names_resolve();
}

} // verus!
