//! The interface model's laws, exercised on concrete runs.

use jemalloc_ctl::model::ModelInterface;
use jemalloc_ctl::{name_bytes, ControlPoint, CtlError};

#[test]
fn two_immediate_advances_differ_by_one() {
    let mut m = ModelInterface::new();
    let a = m.advance();
    let b = m.advance();
    assert_eq!(b, a + 1);
}

#[test]
fn reads_by_name_and_by_resolved_path_agree() {
    let mut m = ModelInterface::new();
    m.note_allocation(4096);
    m.advance();
    m.note_allocation(512);

    let allocated_name = name_bytes(ControlPoint::StatsAllocated);
    let path = m.resolve(&allocated_name).unwrap();
    assert_eq!(path.point(), ControlPoint::StatsAllocated);
    assert_eq!(m.read_by_name(&allocated_name), m.read_by_path(&path));

    let epoch_name = name_bytes(ControlPoint::Epoch);
    let path = m.resolve(&epoch_name).unwrap();
    assert_eq!(path.point(), ControlPoint::Epoch);
    assert_eq!(m.read_by_name(&epoch_name), m.read_by_path(&path));
}

#[test]
fn a_stale_read_understates_and_an_advance_refreshes() {
    let mut m = ModelInterface::new();
    let allocated_name = name_bytes(ControlPoint::StatsAllocated);

    // allocate one mebibyte; without an advance the read still observes the
    // old snapshot, which understates the live value
    m.note_allocation(1024 * 1024);
    assert_eq!(m.read_by_name(&allocated_name), Ok(0));

    // strictly after an advance, the read reflects the allocation
    m.advance();
    assert_eq!(m.read_by_name(&allocated_name), Ok(1024 * 1024));
}

#[test]
fn a_write_returns_the_value_immediately_preceding() {
    let mut m = ModelInterface::new();
    let first = m.set_tunable(5);
    assert_eq!(first, 0);
    assert_eq!(m.read_tunable(), 5);
    let second = m.set_tunable(7);
    assert_eq!(second, 5);
    assert_eq!(m.read_tunable(), 7);
}

#[test]
fn resolving_an_unknown_name_fails_and_leaves_no_partial_state() {
    let m = ModelInterface::new();
    let bogus = b"no.such.control\0".to_vec();
    assert!(matches!(m.resolve(&bogus), Err(CtlError::NotFound)));

    // valid names still resolve exactly as before
    let epoch_name = name_bytes(ControlPoint::Epoch);
    let path = m.resolve(&epoch_name).unwrap();
    assert_eq!(path.point(), ControlPoint::Epoch);
    let allocated_name = name_bytes(ControlPoint::StatsAllocated);
    let path = m.resolve(&allocated_name).unwrap();
    assert_eq!(path.point(), ControlPoint::StatsAllocated);
}

#[test]
fn epoch_reads_move_only_at_an_advance() {
    let mut m = ModelInterface::new();
    let epoch_name = name_bytes(ControlPoint::Epoch);
    assert_eq!(m.read_by_name(&epoch_name), Ok(0));
    m.note_allocation(17);
    assert_eq!(m.read_by_name(&epoch_name), Ok(0));
    m.advance();
    assert_eq!(m.read_by_name(&epoch_name), Ok(1));
}
