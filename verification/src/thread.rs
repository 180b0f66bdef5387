//! Thread-specific counter access.
//!
//! The interface exposes each thread's cumulative allocated and deallocated
//! byte counters as pointers rather than values: one protocol call yields an
//! address, and every later observation is a plain memory load. The address
//! is meaningful only on the thread that made the call, so the handle built
//! here records that thread's identity at construction and releases the
//! address only to a caller that presents the same identity. The load itself
//! is the embedding's; this crate decides, under contract, whether a given
//! caller may perform it.

use vstd::prelude::*;
use crate::{interpret_u64, read_pointer, ControlPath, ControlPoint, CtlError, CtlResponse};

verus! {

/// A per-thread counter handle: the address of interface-owned storage,
/// bound to the identity of the thread that obtained it. Never transferable:
/// the address is withheld from every other thread.
pub struct ThreadLocal {
    addr: u64,
    owner: u64,
}

impl ThreadLocal {
    /// The address the interface handed out.
    pub closed spec fn spec_addr(&self) -> u64 {
        self.addr
    }

    /// The identity of the thread the address belongs to.
    pub closed spec fn spec_owner(&self) -> u64 {
        self.owner
    }

    /// Binds an address to the identity of the thread it was obtained on.
    /// The caller must pass its own thread's identity: the interface
    /// associated the address with the calling thread's storage.
    pub fn new(addr: u64, owner: u64) -> (t: ThreadLocal)
        ensures
            t.spec_addr() == addr,
            t.spec_owner() == owner,
    {
        ThreadLocal { addr, owner }
    }

    /// Releases the address, but only to the owning thread: a caller whose
    /// identity differs from the one recorded at construction gets nothing.
    /// Reading through the address on any other thread would be undefined,
    /// so the refusal is absolute, not a recoverable condition.
    pub fn get(&self, thread: u64) -> (r: Option<u64>)
        ensures
            thread == self.spec_owner() ==> r == Some(self.spec_addr()),
            thread != self.spec_owner() ==> r is None,
    {
        if thread == self.owner {
            Some(self.addr)
        } else {
            None
        }
    }
}

/// Interprets a name-based read of `thread.allocatedp`: the address of the
/// calling thread's cumulative allocated-byte counter, bound to `owner`, the
/// identity of the thread that made the call.
pub fn allocatedp(resp: &CtlResponse, owner: u64) -> (r: Result<ThreadLocal, CtlError>)
    ensures
        interpret_u64(*resp) is Err ==> r == Err::<ThreadLocal, CtlError>(
            interpret_u64(*resp)->Err_0,
        ),
        interpret_u64(*resp) is Ok ==> {
            &&& r is Ok
            &&& r->Ok_0.spec_addr() == interpret_u64(*resp)->Ok_0
            &&& r->Ok_0.spec_owner() == owner
        },
{
    match read_pointer(resp) {
        Ok(addr) => Ok(ThreadLocal::new(addr, owner)),
        Err(e) => Err(e),
    }
}

/// Interprets a name-based read of `thread.deallocatedp`: the address of the
/// calling thread's cumulative deallocated-byte counter, bound to `owner`.
pub fn deallocatedp(resp: &CtlResponse, owner: u64) -> (r: Result<ThreadLocal, CtlError>)
    ensures
        interpret_u64(*resp) is Err ==> r == Err::<ThreadLocal, CtlError>(
            interpret_u64(*resp)->Err_0,
        ),
        interpret_u64(*resp) is Ok ==> {
            &&& r is Ok
            &&& r->Ok_0.spec_addr() == interpret_u64(*resp)->Ok_0
            &&& r->Ok_0.spec_owner() == owner
        },
{
    match read_pointer(resp) {
        Ok(addr) => Ok(ThreadLocal::new(addr, owner)),
        Err(e) => Err(e),
    }
}

/// A reusable handle on the `thread.allocatedp` control point.
pub struct AllocatedP {
    path: ControlPath,
}

impl AllocatedP {
    /// The path this handle reads through.
    pub closed spec fn spec_path(&self) -> ControlPath {
        self.path
    }

    /// Wraps a resolved path to this control point. A path that resolves any
    /// other point is a schema mismatch and is refused.
    pub fn new(path: ControlPath) -> (r: Result<AllocatedP, CtlError>)
        ensures
            path.spec_point() == ControlPoint::ThreadAllocatedP ==> {
                &&& r is Ok
                &&& r->Ok_0.spec_path() == path
            },
            path.spec_point() != ControlPoint::ThreadAllocatedP ==> r == Err::<
                AllocatedP,
                CtlError,
            >(CtlError::SizeMismatch),
    {
        if matches!(path.point(), ControlPoint::ThreadAllocatedP) {
            Ok(AllocatedP { path })
        } else {
            Err(CtlError::SizeMismatch)
        }
    }

    /// The resolved path, for the embedding's path-based call.
    pub fn path(&self) -> (p: &ControlPath)
        ensures
            *p == self.spec_path(),
    {
        &self.path
    }

    /// Interprets a path-based read through this handle, exactly as
    /// [`allocatedp`] interprets the name-based one.
    pub fn get(&self, resp: &CtlResponse, owner: u64) -> (r: Result<ThreadLocal, CtlError>)
        ensures
            interpret_u64(*resp) is Err ==> r == Err::<ThreadLocal, CtlError>(
                interpret_u64(*resp)->Err_0,
            ),
            interpret_u64(*resp) is Ok ==> {
                &&& r is Ok
                &&& r->Ok_0.spec_addr() == interpret_u64(*resp)->Ok_0
                &&& r->Ok_0.spec_owner() == owner
            },
    {
        allocatedp(resp, owner)
    }
}

/// A reusable handle on the `thread.deallocatedp` control point.
pub struct DeallocatedP {
    path: ControlPath,
}

impl DeallocatedP {
    /// The path this handle reads through.
    pub closed spec fn spec_path(&self) -> ControlPath {
        self.path
    }

    /// Wraps a resolved path to this control point. A path that resolves any
    /// other point is a schema mismatch and is refused.
    pub fn new(path: ControlPath) -> (r: Result<DeallocatedP, CtlError>)
        ensures
            path.spec_point() == ControlPoint::ThreadDeallocatedP ==> {
                &&& r is Ok
                &&& r->Ok_0.spec_path() == path
            },
            path.spec_point() != ControlPoint::ThreadDeallocatedP ==> r == Err::<
                DeallocatedP,
                CtlError,
            >(CtlError::SizeMismatch),
    {
        if matches!(path.point(), ControlPoint::ThreadDeallocatedP) {
            Ok(DeallocatedP { path })
        } else {
            Err(CtlError::SizeMismatch)
        }
    }

    /// The resolved path, for the embedding's path-based call.
    pub fn path(&self) -> (p: &ControlPath)
        ensures
            *p == self.spec_path(),
    {
        &self.path
    }

    /// Interprets a path-based read through this handle, exactly as
    /// [`deallocatedp`] interprets the name-based one.
    pub fn get(&self, resp: &CtlResponse, owner: u64) -> (r: Result<ThreadLocal, CtlError>)
        ensures
            interpret_u64(*resp) is Err ==> r == Err::<ThreadLocal, CtlError>(
                interpret_u64(*resp)->Err_0,
            ),
            interpret_u64(*resp) is Ok ==> {
                &&& r is Ok
                &&& r->Ok_0.spec_addr() == interpret_u64(*resp)->Ok_0
                &&& r->Ok_0.spec_owner() == owner
            },
    {
        deallocatedp(resp, owner)
    }
}

} // verus!
