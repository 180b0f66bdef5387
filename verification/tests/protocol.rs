//! The resolution and typed-transfer protocol, driven on concrete responses.

use jemalloc_ctl::{
    depth, epoch, epoch_input, name_bytes, read_pointer, read_u64, resolve_finish, status_result,
    version, write_read_input, write_read_u64, ControlPoint, CtlError, CtlResponse, Epoch,
    Version, INVALID_SIZE_STATUS, NOT_FOUND_STATUS,
};

fn ok_response(buf: Vec<u8>) -> CtlResponse {
    let n = buf.len();
    CtlResponse { status: 0, buf, reported_len: n }
}

#[test]
fn status_zero_is_success() {
    assert_eq!(status_result(0), Ok(()));
    assert_eq!(status_result(22), Err(CtlError::Os(22)));
    assert_eq!(status_result(-1), Err(CtlError::Os(-1)));
}

#[test]
fn names_are_dotted_and_terminated() {
    let v = name_bytes(ControlPoint::Version);
    assert_eq!(v, b"version\0".to_vec());
    let e = name_bytes(ControlPoint::Epoch);
    assert_eq!(e, b"epoch\0".to_vec());
    let a = name_bytes(ControlPoint::StatsAllocated);
    assert_eq!(a, b"stats.allocated\0".to_vec());
    let c = name_bytes(ControlPoint::StatsActive);
    assert_eq!(c, b"stats.active\0".to_vec());
    let m = name_bytes(ControlPoint::StatsMetadata);
    assert_eq!(m, b"stats.metadata\0".to_vec());
    let r = name_bytes(ControlPoint::StatsResident);
    assert_eq!(r, b"stats.resident\0".to_vec());
    let p = name_bytes(ControlPoint::StatsMapped);
    assert_eq!(p, b"stats.mapped\0".to_vec());
    let ta = name_bytes(ControlPoint::ThreadAllocatedP);
    assert_eq!(ta, b"thread.allocatedp\0".to_vec());
    let td = name_bytes(ControlPoint::ThreadDeallocatedP);
    assert_eq!(td, b"thread.deallocatedp\0".to_vec());
}

#[test]
fn depths_match_the_names() {
    assert_eq!(depth(ControlPoint::Version), 1);
    assert_eq!(depth(ControlPoint::Epoch), 1);
    assert_eq!(depth(ControlPoint::StatsAllocated), 2);
    assert_eq!(depth(ControlPoint::ThreadDeallocatedP), 2);
}

#[test]
fn resolve_unknown_name_is_not_found() {
    let r = resolve_finish(ControlPoint::Epoch, NOT_FOUND_STATUS, vec![0usize], 1);
    assert!(matches!(r, Err(CtlError::NotFound)));
}

#[test]
fn resolve_other_failure_is_os() {
    let r = resolve_finish(ControlPoint::Epoch, 22, vec![0usize], 1);
    assert!(matches!(r, Err(CtlError::Os(22))));
}

#[test]
fn resolve_reported_length_must_match_exactly() {
    // the interface claims it wrote fewer components than asked for
    let r = resolve_finish(ControlPoint::StatsAllocated, 0, vec![7usize, 9usize], 1);
    assert!(matches!(r, Err(CtlError::SizeMismatch)));
    // the buffer itself has the wrong capacity for the point
    let r = resolve_finish(ControlPoint::StatsAllocated, 0, vec![7usize], 1);
    assert!(matches!(r, Err(CtlError::SizeMismatch)));
}

#[test]
fn resolve_success_keeps_the_components() {
    let r = resolve_finish(ControlPoint::StatsAllocated, 0, vec![7usize, 9usize], 2).unwrap();
    assert_eq!(r.point(), ControlPoint::StatsAllocated);
    assert_eq!(r.components(), &vec![7usize, 9usize]);
}

#[test]
fn read_failure_is_os() {
    let resp = CtlResponse { status: 13, buf: vec![0u8; 8], reported_len: 8 };
    assert_eq!(read_u64(&resp), Err(CtlError::Os(13)));
}

#[test]
fn read_of_an_unknown_point_is_not_found() {
    // a build of the interface without this control point reports the
    // missing-entry status on the read itself
    let resp = CtlResponse { status: NOT_FOUND_STATUS, buf: vec![0u8; 8], reported_len: 8 };
    assert_eq!(read_u64(&resp), Err(CtlError::NotFound));
    assert_eq!(write_read_u64(&resp), Err(CtlError::NotFound));
    assert_eq!(epoch(&resp), Err(CtlError::NotFound));
    assert_eq!(version(&resp), Err(CtlError::NotFound));
}

#[test]
fn read_with_invalid_size_status_is_size_mismatch() {
    // the interface signals a size disagreement through its invalid-size
    // status, sometimes leaving the reported length exactly where the
    // caller set it: the status alone must classify
    let resp = CtlResponse { status: INVALID_SIZE_STATUS, buf: vec![0u8; 8], reported_len: 8 };
    assert_eq!(read_u64(&resp), Err(CtlError::SizeMismatch));
    assert_eq!(write_read_u64(&resp), Err(CtlError::SizeMismatch));
    assert_eq!(epoch(&resp), Err(CtlError::SizeMismatch));
    assert_eq!(version(&resp), Err(CtlError::SizeMismatch));
    // the truncating variant reports the shorter length as well
    let resp = CtlResponse { status: INVALID_SIZE_STATUS, buf: vec![0u8; 8], reported_len: 4 };
    assert_eq!(read_u64(&resp), Err(CtlError::SizeMismatch));
}

#[test]
fn read_with_wrong_reported_size_is_size_mismatch() {
    // a four-byte control point read into an eight-byte type
    let resp = CtlResponse { status: 0, buf: vec![0u8; 8], reported_len: 4 };
    assert_eq!(read_u64(&resp), Err(CtlError::SizeMismatch));
    // a sixteen-byte control point
    let resp = CtlResponse { status: 0, buf: vec![0u8; 8], reported_len: 16 };
    assert_eq!(read_u64(&resp), Err(CtlError::SizeMismatch));
    // a short buffer is never decoded either
    let resp = CtlResponse { status: 0, buf: vec![1u8, 0, 0, 0], reported_len: 8 };
    assert_eq!(read_u64(&resp), Err(CtlError::SizeMismatch));
}

#[test]
fn read_decodes_little_endian() {
    let resp = ok_response(vec![1, 0, 0, 0, 0, 0, 0, 0]);
    assert_eq!(read_u64(&resp), Ok(1));
    let resp = ok_response(vec![0x78, 0x56, 0x34, 0x12, 0, 0, 0, 0]);
    assert_eq!(read_u64(&resp), Ok(0x12345678));
    let resp = ok_response(vec![0xff; 8]);
    assert_eq!(read_u64(&resp), Ok(u64::MAX));
}

#[test]
fn write_input_round_trips_through_read() {
    for v in [0u64, 1, 5, 7, 0xdead_beef_0badu64, u64::MAX] {
        let resp = ok_response(write_read_input(v));
        assert_eq!(write_read_u64(&resp), Ok(v));
    }
}

#[test]
fn epoch_input_is_one() {
    assert_eq!(epoch_input(), vec![1, 0, 0, 0, 0, 0, 0, 0]);
}

#[test]
fn epoch_interprets_the_pre_write_value() {
    let resp = ok_response(vec![41, 0, 0, 0, 0, 0, 0, 0]);
    assert_eq!(epoch(&resp), Ok(41));
}

#[test]
fn version_reads_a_pointer_sized_value() {
    let resp = ok_response(vec![0x10, 0x20, 0, 0, 0, 0, 0, 0]);
    assert_eq!(version(&resp), Ok(0x2010));
    assert_eq!(read_pointer(&resp), Ok(0x2010));
    let resp = CtlResponse { status: 0, buf: vec![0u8; 8], reported_len: 4 };
    assert_eq!(version(&resp), Err(CtlError::SizeMismatch));
}

#[test]
fn handles_refuse_paths_of_other_points() {
    let epoch_path = resolve_finish(ControlPoint::Epoch, 0, vec![1usize], 1).unwrap();
    assert!(matches!(Version::new(epoch_path), Err(CtlError::SizeMismatch)));
    let version_path = resolve_finish(ControlPoint::Version, 0, vec![0usize], 1).unwrap();
    assert!(matches!(Epoch::new(version_path), Err(CtlError::SizeMismatch)));
}

#[test]
fn handles_carry_their_path_and_interpret_responses() {
    let path = resolve_finish(ControlPoint::Epoch, 0, vec![1usize], 1).unwrap();
    let epoch_handle = Epoch::new(path).unwrap();
    assert_eq!(epoch_handle.path().point(), ControlPoint::Epoch);
    assert_eq!(epoch_handle.path().components(), &vec![1usize]);
    assert_eq!(epoch_handle.advance_input(), vec![1, 0, 0, 0, 0, 0, 0, 0]);
    let resp = ok_response(vec![3, 0, 0, 0, 0, 0, 0, 0]);
    assert_eq!(epoch_handle.advance(&resp), Ok(3));

    let path = resolve_finish(ControlPoint::Version, 0, vec![0usize], 1).unwrap();
    let version_handle = Version::new(path).unwrap();
    assert_eq!(version_handle.path().point(), ControlPoint::Version);
    let resp = ok_response(vec![0, 1, 0, 0, 0, 0, 0, 0]);
    assert_eq!(version_handle.get(&resp), Ok(256));
}
