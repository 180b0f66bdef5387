//! Process-wide allocator statistics.
//!
//! Each statistic is one eight-byte cumulative counter behind a control
//! point. The interface caches these values: a read observes the snapshot
//! taken at the last epoch advance, not necessarily the live value. The free
//! functions interpret name-based reads; each handle type wraps a resolved
//! path for repeated path-based reads of the same statistic.

use vstd::prelude::*;

use crate::{interpret_u64, read_u64, ControlPath, ControlPoint, CtlError, CtlResponse};

verus! {

/// Interprets a name-based read of `stats.allocated`: the cached count of
/// bytes allocated by the application.
pub fn allocated(resp: &CtlResponse) -> (r: Result<u64, CtlError>)
    ensures
        r == interpret_u64(*resp),
{
    read_u64(resp)
}

/// Interprets a name-based read of `stats.active`: the cached count of bytes
/// in active pages allocated by the application.
pub fn active(resp: &CtlResponse) -> (r: Result<u64, CtlError>)
    ensures
        r == interpret_u64(*resp),
{
    read_u64(resp)
}

/// Interprets a name-based read of `stats.metadata`: the cached count of
/// bytes dedicated to allocator metadata.
pub fn metadata(resp: &CtlResponse) -> (r: Result<u64, CtlError>)
    ensures
        r == interpret_u64(*resp),
{
    read_u64(resp)
}

/// Interprets a name-based read of `stats.resident`: the cached count of
/// bytes in physically resident data pages mapped by the allocator.
pub fn resident(resp: &CtlResponse) -> (r: Result<u64, CtlError>)
    ensures
        r == interpret_u64(*resp),
{
    read_u64(resp)
}

/// Interprets a name-based read of `stats.mapped`: the cached count of bytes
/// in active extents mapped by the allocator.
pub fn mapped(resp: &CtlResponse) -> (r: Result<u64, CtlError>)
    ensures
        r == interpret_u64(*resp),
{
    read_u64(resp)
}

/// A reusable handle on the `stats.allocated` control point.
pub struct Allocated {
    path: ControlPath,
}

impl Allocated {
    /// The path this handle reads through.
    pub closed spec fn spec_path(&self) -> ControlPath {
        self.path
    }

    /// Wraps a resolved path to this statistic's control point. A path that
    /// resolves any other point is a schema mismatch and is refused.
    pub fn new(path: ControlPath) -> (r: Result<Allocated, CtlError>)
        ensures
            path.spec_point() == ControlPoint::StatsAllocated ==> {
                &&& r is Ok
                &&& r->Ok_0.spec_path() == path
            },
            path.spec_point() != ControlPoint::StatsAllocated ==> r == Err::<Allocated, CtlError>(
                CtlError::SizeMismatch,
            ),
    {
        if matches!(path.point(), ControlPoint::StatsAllocated) {
            Ok(Allocated { path })
        } else {
            Err(CtlError::SizeMismatch)
        }
    }

    /// The resolved path, for the embedding's path-based call.
    pub fn path(&self) -> (p: &ControlPath)
        ensures
            *p == self.spec_path(),
    {
        &self.path
    }

    /// Interprets a path-based read through this handle, exactly as
    /// [`allocated`] interprets the name-based one.
    pub fn get(&self, resp: &CtlResponse) -> (r: Result<u64, CtlError>)
        ensures
            r == interpret_u64(*resp),
    {
        read_u64(resp)
    }
}

/// A reusable handle on the `stats.active` control point.
pub struct Active {
    path: ControlPath,
}

impl Active {
    /// The path this handle reads through.
    pub closed spec fn spec_path(&self) -> ControlPath {
        self.path
    }

    /// Wraps a resolved path to this statistic's control point. A path that
    /// resolves any other point is a schema mismatch and is refused.
    pub fn new(path: ControlPath) -> (r: Result<Active, CtlError>)
        ensures
            path.spec_point() == ControlPoint::StatsActive ==> {
                &&& r is Ok
                &&& r->Ok_0.spec_path() == path
            },
            path.spec_point() != ControlPoint::StatsActive ==> r == Err::<Active, CtlError>(
                CtlError::SizeMismatch,
            ),
    {
        if matches!(path.point(), ControlPoint::StatsActive) {
            Ok(Active { path })
        } else {
            Err(CtlError::SizeMismatch)
        }
    }

    /// The resolved path, for the embedding's path-based call.
    pub fn path(&self) -> (p: &ControlPath)
        ensures
            *p == self.spec_path(),
    {
        &self.path
    }

    /// Interprets a path-based read through this handle, exactly as
    /// [`active`] interprets the name-based one.
    pub fn get(&self, resp: &CtlResponse) -> (r: Result<u64, CtlError>)
        ensures
            r == interpret_u64(*resp),
    {
        read_u64(resp)
    }
}

/// A reusable handle on the `stats.metadata` control point.
pub struct Metadata {
    path: ControlPath,
}

impl Metadata {
    /// The path this handle reads through.
    pub closed spec fn spec_path(&self) -> ControlPath {
        self.path
    }

    /// Wraps a resolved path to this statistic's control point. A path that
    /// resolves any other point is a schema mismatch and is refused.
    pub fn new(path: ControlPath) -> (r: Result<Metadata, CtlError>)
        ensures
            path.spec_point() == ControlPoint::StatsMetadata ==> {
                &&& r is Ok
                &&& r->Ok_0.spec_path() == path
            },
            path.spec_point() != ControlPoint::StatsMetadata ==> r == Err::<Metadata, CtlError>(
                CtlError::SizeMismatch,
            ),
    {
        if matches!(path.point(), ControlPoint::StatsMetadata) {
            Ok(Metadata { path })
        } else {
            Err(CtlError::SizeMismatch)
        }
    }

    /// The resolved path, for the embedding's path-based call.
    pub fn path(&self) -> (p: &ControlPath)
        ensures
            *p == self.spec_path(),
    {
        &self.path
    }

    /// Interprets a path-based read through this handle, exactly as
    /// [`metadata`] interprets the name-based one.
    pub fn get(&self, resp: &CtlResponse) -> (r: Result<u64, CtlError>)
        ensures
            r == interpret_u64(*resp),
    {
        read_u64(resp)
    }
}

/// A reusable handle on the `stats.resident` control point.
pub struct Resident {
    path: ControlPath,
}

impl Resident {
    /// The path this handle reads through.
    pub closed spec fn spec_path(&self) -> ControlPath {
        self.path
    }

    /// Wraps a resolved path to this statistic's control point. A path that
    /// resolves any other point is a schema mismatch and is refused.
    pub fn new(path: ControlPath) -> (r: Result<Resident, CtlError>)
        ensures
            path.spec_point() == ControlPoint::StatsResident ==> {
                &&& r is Ok
                &&& r->Ok_0.spec_path() == path
            },
            path.spec_point() != ControlPoint::StatsResident ==> r == Err::<Resident, CtlError>(
                CtlError::SizeMismatch,
            ),
    {
        if matches!(path.point(), ControlPoint::StatsResident) {
            Ok(Resident { path })
        } else {
            Err(CtlError::SizeMismatch)
        }
    }

    /// The resolved path, for the embedding's path-based call.
    pub fn path(&self) -> (p: &ControlPath)
        ensures
            *p == self.spec_path(),
    {
        &self.path
    }

    /// Interprets a path-based read through this handle, exactly as
    /// [`resident`] interprets the name-based one.
    pub fn get(&self, resp: &CtlResponse) -> (r: Result<u64, CtlError>)
        ensures
            r == interpret_u64(*resp),
    {
        read_u64(resp)
    }
}

/// A reusable handle on the `stats.mapped` control point.
pub struct Mapped {
    path: ControlPath,
}

impl Mapped {
    /// The path this handle reads through.
    pub closed spec fn spec_path(&self) -> ControlPath {
        self.path
    }

    /// Wraps a resolved path to this statistic's control point. A path that
    /// resolves any other point is a schema mismatch and is refused.
    pub fn new(path: ControlPath) -> (r: Result<Mapped, CtlError>)
        ensures
            path.spec_point() == ControlPoint::StatsMapped ==> {
                &&& r is Ok
                &&& r->Ok_0.spec_path() == path
            },
            path.spec_point() != ControlPoint::StatsMapped ==> r == Err::<Mapped, CtlError>(
                CtlError::SizeMismatch,
            ),
    {
        if matches!(path.point(), ControlPoint::StatsMapped) {
            Ok(Mapped { path })
        } else {
            Err(CtlError::SizeMismatch)
        }
    }

    /// The resolved path, for the embedding's path-based call.
    pub fn path(&self) -> (p: &ControlPath)
        ensures
            *p == self.spec_path(),
    {
        &self.path
    }

    /// Interprets a path-based read through this handle, exactly as
    /// [`mapped`] interprets the name-based one.
    pub fn get(&self, resp: &CtlResponse) -> (r: Result<u64, CtlError>)
        ensures
            r == interpret_u64(*resp),
    {
        read_u64(resp)
    }
}

} // verus!
