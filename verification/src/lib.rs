//! A typed control layer over a hierarchical, string-addressed allocator
//! control interface.
//!
//! The underlying interface is driven through three raw call shapes: a
//! name-based transfer, a path-based transfer, and a name-to-path resolution.
//! All three are foreign calls whose raw buffers this crate never touches;
//! instead, the crate owns every decision around those calls: preparing the
//! name and input buffers, classifying the returned status, enforcing the
//! exact-size discipline on every typed transfer, decoding the returned
//! bytes, validating text, and confining per-thread pointer handles to the
//! thread that obtained them. An embedding (an outer crate that links the
//! actual allocator) performs the raw calls and hands each outcome back as a
//! [`CtlResponse`]; everything the embedding must decide before and after a
//! call is computed here, under contract.
//!
//! The interface is taken as 64-bit: every fixed-size control value, and
//! every pointer a control point hands out, is eight bytes wide.

use vstd::prelude::*;
use vstd::bytes::{spec_u64_from_le_bytes, spec_u64_to_le_bytes, u64_from_le_bytes, u64_to_le_bytes};

pub mod model;
pub mod stats;
pub mod text;
pub mod thread;

verus! {

/// The error taxonomy of every control operation.
#[derive(Clone, Copy, Debug, PartialEq, Eq, Structural)]
pub enum CtlError {
    /// The dotted name does not resolve to any known control point.
    NotFound,
    /// The interface's reported byte length for a control point differs from
    /// the size the caller's type requires; the transfer is refused whole.
    SizeMismatch,
    /// A string-valued control point returned bytes that are not valid text.
    InvalidData,
    /// The interface reported a nonzero status not otherwise classified,
    /// carried as a platform-style error code.
    Os(i32),
}

/// The status code the interface reports when a dotted name is unknown
/// (the platform's errno for a missing entry).
pub const NOT_FOUND_STATUS: i32 = 2;

/// The status code the interface reports when the caller's buffer length
/// disagrees with a control point's declared byte length (the platform's
/// errno for an invalid argument). The interface signals a size mismatch
/// this way — sometimes leaving its reported length exactly where the
/// caller set it — so the status must be classified, not only the length.
pub const INVALID_SIZE_STATUS: i32 = 22;

/// Classifies a raw interface status once the statuses that carry their own
/// meaning (an unknown name, a size disagreement) have been peeled off:
/// zero is success, anything else is an operating-system error code.
pub fn status_result(status: i32) -> (r: Result<(), CtlError>)
    ensures
        status == 0 ==> r == Ok::<(), CtlError>(()),
        status != 0 ==> r == Err::<(), CtlError>(CtlError::Os(status)),
{
    if status == 0 {
        Ok(())
    } else {
        Err(CtlError::Os(status))
    }
}

/// The control points this crate prepares names and paths for: the
/// interface's version string, its statistics epoch, the process-wide
/// cumulative byte counters, and the two per-thread counter pointers.
#[derive(Clone, Copy, Debug, PartialEq, Eq, Structural)]
pub enum ControlPoint {
    /// `version`: the interface's version string.
    Version,
    /// `epoch`: the generation counter that refreshes cached statistics.
    Epoch,
    /// `stats.allocated`: bytes allocated by the application.
    StatsAllocated,
    /// `stats.active`: bytes in active pages allocated by the application.
    StatsActive,
    /// `stats.metadata`: bytes dedicated to allocator metadata.
    StatsMetadata,
    /// `stats.resident`: bytes in physically resident data pages.
    StatsResident,
    /// `stats.mapped`: bytes in active extents mapped by the allocator.
    StatsMapped,
    /// `thread.allocatedp`: pointer to the calling thread's cumulative
    /// allocated-byte counter.
    ThreadAllocatedP,
    /// `thread.deallocatedp`: pointer to the calling thread's cumulative
    /// deallocated-byte counter.
    ThreadDeallocatedP,
}

/// The dotted name of a control point, as the bytes handed to the interface:
/// the text of the name followed by one terminating zero byte.
pub open spec fn name_seq(p: ControlPoint) -> Seq<u8> {
    match p {
        ControlPoint::Version => seq![118u8, 101u8, 114u8, 115u8, 105u8, 111u8, 110u8, 0u8],
        ControlPoint::Epoch => seq![101u8, 112u8, 111u8, 99u8, 104u8, 0u8],
        ControlPoint::StatsAllocated => seq![
            115u8, 116u8, 97u8, 116u8, 115u8, 46u8, 97u8, 108u8, 108u8, 111u8, 99u8, 97u8, 116u8, 101u8,
            100u8, 0u8,
        ],
        ControlPoint::StatsActive => seq![
            115u8, 116u8, 97u8, 116u8, 115u8, 46u8, 97u8, 99u8, 116u8, 105u8, 118u8, 101u8, 0u8,
        ],
        ControlPoint::StatsMetadata => seq![
            115u8, 116u8, 97u8, 116u8, 115u8, 46u8, 109u8, 101u8, 116u8, 97u8, 100u8, 97u8, 116u8, 97u8,
            0u8,
        ],
        ControlPoint::StatsResident => seq![
            115u8, 116u8, 97u8, 116u8, 115u8, 46u8, 114u8, 101u8, 115u8, 105u8, 100u8, 101u8, 110u8, 116u8,
            0u8,
        ],
        ControlPoint::StatsMapped => seq![
            115u8, 116u8, 97u8, 116u8, 115u8, 46u8, 109u8, 97u8, 112u8, 112u8, 101u8, 100u8, 0u8,
        ],
        ControlPoint::ThreadAllocatedP => seq![
            116u8, 104u8, 114u8, 101u8, 97u8, 100u8, 46u8, 97u8, 108u8, 108u8, 111u8, 99u8, 97u8, 116u8,
            101u8, 100u8, 112u8, 0u8,
        ],
        ControlPoint::ThreadDeallocatedP => seq![
            116u8, 104u8, 114u8, 101u8, 97u8, 100u8, 46u8, 100u8, 101u8, 97u8, 108u8, 108u8, 111u8, 99u8,
            97u8, 116u8, 101u8, 100u8, 112u8, 0u8,
        ],
    }
}

/// The number of components a resolved path for this control point holds:
/// one for each dot-separated part of its name.
pub open spec fn depth_of(p: ControlPoint) -> int {
    match p {
        ControlPoint::Version => 1,
        ControlPoint::Epoch => 1,
        _ => 2,
    }
}

/// True of a byte sequence that can stand as a C-style name for the
/// interface: at least one byte of text, exactly one zero byte, at the end.
pub open spec fn nul_terminated_name(s: Seq<u8>) -> bool {
    &&& s.len() >= 2
    &&& s[s.len() - 1] == 0
    &&& forall|i: int| 0 <= i < s.len() - 1 ==> s[i] != 0
}

/// Every prepared name is a well-formed C-style string.
pub proof fn lemma_names_are_c_strings(p: ControlPoint)
    ensures
        nul_terminated_name(name_seq(p)),
{
}

/// Distinct control points bear distinct names: addressing by name is
/// unambiguous.
pub proof fn lemma_names_distinct(p: ControlPoint, q: ControlPoint)
    requires
        p != q,
    ensures
        name_seq(p) != name_seq(q),
{
    if name_seq(p) == name_seq(q) {
        assert(name_seq(p).len() == name_seq(q).len());
        if name_seq(p).len() == 13 || name_seq(p).len() == 15 {
            // the two pairs of names of equal length differ in the byte
            // right after the dot
            assert(name_seq(p)[6] == name_seq(q)[6]);
        }
        assert(false);
    }
}

/// Produces the name buffer for a control point, ready to hand to the
/// interface's name-based calls.
pub fn name_bytes(p: ControlPoint) -> (v: Vec<u8>)
    ensures
        v@ == name_seq(p),
{
    let mut v: Vec<u8> = Vec::new();
    match p {
        ControlPoint::Version => {
            v.push(118u8);
            v.push(101u8);
            v.push(114u8);
            v.push(115u8);
            v.push(105u8);
            v.push(111u8);
            v.push(110u8);
            v.push(0u8);
            assert(v@ =~= name_seq(p));
        }
        ControlPoint::Epoch => {
            v.push(101u8);
            v.push(112u8);
            v.push(111u8);
            v.push(99u8);
            v.push(104u8);
            v.push(0u8);
            assert(v@ =~= name_seq(p));
        }
        ControlPoint::StatsAllocated => {
            v.push(115u8);
            v.push(116u8);
            v.push(97u8);
            v.push(116u8);
            v.push(115u8);
            v.push(46u8);
            v.push(97u8);
            v.push(108u8);
            v.push(108u8);
            v.push(111u8);
            v.push(99u8);
            v.push(97u8);
            v.push(116u8);
            v.push(101u8);
            v.push(100u8);
            v.push(0u8);
            assert(v@ =~= name_seq(p));
        }
        ControlPoint::StatsActive => {
            v.push(115u8);
            v.push(116u8);
            v.push(97u8);
            v.push(116u8);
            v.push(115u8);
            v.push(46u8);
            v.push(97u8);
            v.push(99u8);
            v.push(116u8);
            v.push(105u8);
            v.push(118u8);
            v.push(101u8);
            v.push(0u8);
            assert(v@ =~= name_seq(p));
        }
        ControlPoint::StatsMetadata => {
            v.push(115u8);
            v.push(116u8);
            v.push(97u8);
            v.push(116u8);
            v.push(115u8);
            v.push(46u8);
            v.push(109u8);
            v.push(101u8);
            v.push(116u8);
            v.push(97u8);
            v.push(100u8);
            v.push(97u8);
            v.push(116u8);
            v.push(97u8);
            v.push(0u8);
            assert(v@ =~= name_seq(p));
        }
        ControlPoint::StatsResident => {
            v.push(115u8);
            v.push(116u8);
            v.push(97u8);
            v.push(116u8);
            v.push(115u8);
            v.push(46u8);
            v.push(114u8);
            v.push(101u8);
            v.push(115u8);
            v.push(105u8);
            v.push(100u8);
            v.push(101u8);
            v.push(110u8);
            v.push(116u8);
            v.push(0u8);
            assert(v@ =~= name_seq(p));
        }
        ControlPoint::StatsMapped => {
            v.push(115u8);
            v.push(116u8);
            v.push(97u8);
            v.push(116u8);
            v.push(115u8);
            v.push(46u8);
            v.push(109u8);
            v.push(97u8);
            v.push(112u8);
            v.push(112u8);
            v.push(101u8);
            v.push(100u8);
            v.push(0u8);
            assert(v@ =~= name_seq(p));
        }
        ControlPoint::ThreadAllocatedP => {
            v.push(116u8);
            v.push(104u8);
            v.push(114u8);
            v.push(101u8);
            v.push(97u8);
            v.push(100u8);
            v.push(46u8);
            v.push(97u8);
            v.push(108u8);
            v.push(108u8);
            v.push(111u8);
            v.push(99u8);
            v.push(97u8);
            v.push(116u8);
            v.push(101u8);
            v.push(100u8);
            v.push(112u8);
            v.push(0u8);
            assert(v@ =~= name_seq(p));
        }
        ControlPoint::ThreadDeallocatedP => {
            v.push(116u8);
            v.push(104u8);
            v.push(114u8);
            v.push(101u8);
            v.push(97u8);
            v.push(100u8);
            v.push(46u8);
            v.push(100u8);
            v.push(101u8);
            v.push(97u8);
            v.push(108u8);
            v.push(108u8);
            v.push(111u8);
            v.push(99u8);
            v.push(97u8);
            v.push(116u8);
            v.push(101u8);
            v.push(100u8);
            v.push(112u8);
            v.push(0u8);
            assert(v@ =~= name_seq(p));
        }
    }
    v
}

/// The path-buffer capacity the embedding must allocate before resolving a
/// control point's name.
pub fn depth(p: ControlPoint) -> (n: usize)
    ensures
        n == depth_of(p),
{
    match p {
        ControlPoint::Version => 1,
        ControlPoint::Epoch => 1,
        _ => 2,
    }
}

/// A resolved control path: the numeric form of one control point's name,
/// produced once by [`resolve_finish`] and reused for the rest of the
/// process. Immutable after construction; only constructed and read.
pub struct ControlPath {
    point: ControlPoint,
    comps: Vec<usize>,
}

impl ControlPath {
    /// The control point this path resolves.
    pub closed spec fn spec_point(&self) -> ControlPoint {
        self.point
    }

    /// The numeric components of the path.
    pub closed spec fn spec_comps(&self) -> Seq<usize> {
        self.comps@
    }

    /// The control point this path resolves.
    pub fn point(&self) -> (p: ControlPoint)
        ensures
            p == self.spec_point(),
    {
        self.point
    }

    /// The numeric components, as the embedding hands them to path-based
    /// calls.
    pub fn components(&self) -> (c: &Vec<usize>)
        ensures
            c@ == self.spec_comps(),
    {
        &self.comps
    }
}

/// Constructs a path from parts. Reserved for stand-ins for the interface
/// inside this crate; real paths come from [`resolve_finish`].
pub(crate) fn path_from_parts(point: ControlPoint, comps: Vec<usize>) -> (r: ControlPath)
    ensures
        r.spec_point() == point,
        r.spec_comps() == comps@,
{
    ControlPath { point, comps }
}

/// The outcome of one raw interface call, as the embedding hands it back:
/// the returned status, the output buffer as the call left it, and the byte
/// length the interface reported for the control point.
pub struct CtlResponse {
    /// The call's returned status; zero is success.
    pub status: i32,
    /// The output buffer after the call.
    pub buf: Vec<u8>,
    /// The length the interface reported into its in-out length parameter.
    pub reported_len: usize,
}

/// True when a response's buffer and reported length both match the byte
/// size the caller's type requires; nothing may be decoded otherwise.
pub open spec fn sized_ok(resp: CtlResponse, n: int) -> bool {
    &&& resp.buf@.len() == n
    &&& resp.reported_len == n
}

/// How a typed eight-byte transfer interprets the interface's response:
/// an unknown control point is `NotFound`; the interface's own invalid-size
/// status is `SizeMismatch`; any other nonzero status is `Os`; a success
/// whose buffer or reported length is not exactly eight bytes is
/// `SizeMismatch` too; and only a success of exactly eight bytes decodes,
/// as the little-endian reading of the buffer.
pub open spec fn interpret_u64(resp: CtlResponse) -> Result<u64, CtlError> {
    if resp.status == NOT_FOUND_STATUS {
        Err(CtlError::NotFound)
    } else if resp.status == INVALID_SIZE_STATUS {
        Err(CtlError::SizeMismatch)
    } else if resp.status != 0 {
        Err(CtlError::Os(resp.status))
    } else if !sized_ok(resp, 8) {
        Err(CtlError::SizeMismatch)
    } else {
        Ok(spec_u64_from_le_bytes(resp.buf@))
    }
}

/// Interprets the resolution call's outcome for a control point's name.
///
/// `path_buf` is the path buffer as the call left it and `reported_len` the
/// component count the interface reported. The reported count must exactly
/// equal the capacity asked for ([`depth_of`] the point); any mismatch is an
/// interface-skew defect surfaced as `SizeMismatch`, never truncated or
/// padded. An unknown name is `NotFound`; any other nonzero status is `Os`.
pub fn resolve_finish(
    point: ControlPoint,
    status: i32,
    path_buf: Vec<usize>,
    reported_len: usize,
) -> (r: Result<ControlPath, CtlError>)
    ensures
        status == NOT_FOUND_STATUS ==> r == Err::<ControlPath, CtlError>(CtlError::NotFound),
        status != 0 && status != NOT_FOUND_STATUS ==> r == Err::<ControlPath, CtlError>(
            CtlError::Os(status),
        ),
        status == 0 && !(path_buf@.len() == depth_of(point) && reported_len == path_buf@.len())
            ==> r == Err::<ControlPath, CtlError>(CtlError::SizeMismatch),
        status == 0 && path_buf@.len() == depth_of(point) && reported_len == path_buf@.len() ==> {
            &&& r is Ok
            &&& r->Ok_0.spec_point() == point
            &&& r->Ok_0.spec_comps() == path_buf@
        },
{
    if status == NOT_FOUND_STATUS {
        return Err(CtlError::NotFound);
    }
    if status != 0 {
        return Err(CtlError::Os(status));
    }
    let d = depth(point);
    if path_buf.len() != d || reported_len != path_buf.len() {
        return Err(CtlError::SizeMismatch);
    }
    Ok(ControlPath { point, comps: path_buf })
}

/// Interprets a typed read of one eight-byte control value, exactly as
/// [`interpret_u64`] says.
///
/// A size disagreement blocks the decode entirely and is `SizeMismatch`,
/// whether the interface signals it through its invalid-size status or
/// through a reported length that differs from eight; a value is produced
/// only from a success of exactly eight bytes.
pub fn read_u64(resp: &CtlResponse) -> (r: Result<u64, CtlError>)
    ensures
        r == interpret_u64(*resp),
{
    if resp.status == NOT_FOUND_STATUS {
        return Err(CtlError::NotFound);
    }
    if resp.status == INVALID_SIZE_STATUS {
        return Err(CtlError::SizeMismatch);
    }
    if let Err(e) = status_result(resp.status) {
        return Err(e);
    }
    if resp.buf.len() != 8 || resp.reported_len != 8 {
        return Err(CtlError::SizeMismatch);
    }
    Ok(u64_from_le_bytes(resp.buf.as_slice()))
}

/// Encodes the new value for a combined write-and-read-previous transfer.
/// The embedding submits these bytes as the call's input; the same buffer
/// comes back holding the pre-write value.
pub fn write_read_input(value: u64) -> (v: Vec<u8>)
    ensures
        v@ == spec_u64_to_le_bytes(value),
        v@.len() == 8,
{
    u64_to_le_bytes(value)
}

/// Interprets a combined write-and-read-previous transfer of one eight-byte
/// control value: the decoded result is the value the control point held
/// immediately before this call's write took effect. Size discipline is
/// exactly that of [`read_u64`].
pub fn write_read_u64(resp: &CtlResponse) -> (r: Result<u64, CtlError>)
    ensures
        r == interpret_u64(*resp),
{
    read_u64(resp)
}

/// Interprets a read of one pointer-sized control value as the address it
/// carries. The address is only a number here; the embedding alone may turn
/// it back into a pointer, on the thread the interface associated it with.
pub fn read_pointer(resp: &CtlResponse) -> (r: Result<u64, CtlError>)
    ensures
        r == interpret_u64(*resp),
{
    read_u64(resp)
}

/// Interprets a name-based read of the interface's version string: the
/// response carries the address of interface-owned, zero-terminated text.
/// The bytes found there are validated by [`text::text_from_bytes`].
pub fn version(resp: &CtlResponse) -> (r: Result<u64, CtlError>)
    ensures
        r == interpret_u64(*resp),
{
    read_pointer(resp)
}

/// Interprets a name-based advance of the statistics epoch: a combined
/// write-and-read-previous with input one, whose result is the epoch the
/// interface held before this call.
pub fn epoch(resp: &CtlResponse) -> (r: Result<u64, CtlError>)
    ensures
        r == interpret_u64(*resp),
{
    write_read_u64(resp)
}

/// The input bytes an epoch advance submits: the value one, encoded for the
/// write half of the transfer. Any nonzero write triggers a refresh.
pub fn epoch_input() -> (v: Vec<u8>)
    ensures
        v@ == spec_u64_to_le_bytes(1),
        v@.len() == 8,
{
    write_read_input(1)
}

/// What a combined write submits decodes back to the value submitted: the
/// write half and the read half of a transfer share one encoding, so the
/// value a caller writes is exactly the value the interface is handed.
pub proof fn lemma_input_round_trip(v: u64)
    ensures
        spec_u64_from_le_bytes(spec_u64_to_le_bytes(v)) == v,
{
    vstd::bytes::lemma_auto_spec_u64_to_from_le_bytes();
}


/// A reusable handle on the interface's version string control point.
pub struct Version {
    path: ControlPath,
}

impl Version {
    /// The path this handle reads through.
    pub closed spec fn spec_path(&self) -> ControlPath {
        self.path
    }

    /// Wraps a resolved path to the version control point. A path that
    /// resolves any other point is a schema mismatch and is refused.
    pub fn new(path: ControlPath) -> (r: Result<Version, CtlError>)
        ensures
            path.spec_point() == ControlPoint::Version ==> {
                &&& r is Ok
                &&& r->Ok_0.spec_path() == path
            },
            path.spec_point() != ControlPoint::Version ==> r == Err::<Version, CtlError>(
                CtlError::SizeMismatch,
            ),
    {
        if matches!(path.point(), ControlPoint::Version) {
            Ok(Version { path })
        } else {
            Err(CtlError::SizeMismatch)
        }
    }

    /// The resolved path, for the embedding's path-based call.
    pub fn path(&self) -> (p: &ControlPath)
        ensures
            *p == self.spec_path(),
    {
        &self.path
    }

    /// Interprets a path-based read through this handle, exactly as
    /// [`version`] interprets the name-based one.
    pub fn get(&self, resp: &CtlResponse) -> (r: Result<u64, CtlError>)
        ensures
            r == interpret_u64(*resp),
    {
        read_pointer(resp)
    }
}

/// A reusable handle on the statistics epoch control point.
pub struct Epoch {
    path: ControlPath,
}

impl Epoch {
    /// The path this handle writes through.
    pub closed spec fn spec_path(&self) -> ControlPath {
        self.path
    }

    /// Wraps a resolved path to the epoch control point. A path that
    /// resolves any other point is a schema mismatch and is refused.
    pub fn new(path: ControlPath) -> (r: Result<Epoch, CtlError>)
        ensures
            path.spec_point() == ControlPoint::Epoch ==> {
                &&& r is Ok
                &&& r->Ok_0.spec_path() == path
            },
            path.spec_point() != ControlPoint::Epoch ==> r == Err::<Epoch, CtlError>(
                CtlError::SizeMismatch,
            ),
    {
        if matches!(path.point(), ControlPoint::Epoch) {
            Ok(Epoch { path })
        } else {
            Err(CtlError::SizeMismatch)
        }
    }

    /// The resolved path, for the embedding's path-based call.
    pub fn path(&self) -> (p: &ControlPath)
        ensures
            *p == self.spec_path(),
    {
        &self.path
    }

    /// The input bytes an advance through this handle submits.
    pub fn advance_input(&self) -> (v: Vec<u8>)
        ensures
            v@ == spec_u64_to_le_bytes(1),
            v@.len() == 8,
    {
        write_read_input(1)
    }

    /// Interprets a path-based advance through this handle: the decoded
    /// result is the epoch the interface held before this advance.
    pub fn advance(&self, resp: &CtlResponse) -> (r: Result<u64, CtlError>)
        ensures
            r == interpret_u64(*resp),
    {
        write_read_u64(resp)
    }
}

} // verus!
