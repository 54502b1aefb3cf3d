//! The capability and kind selectors, and the error conversions.

use mmarinus::mapping::Kind;
use mmarinus::perms;
use mmarinus::Error;
use mmarinus::OsError;
use mmarinus::Private;
use mmarinus::Shared;
use mmarinus::Type;

#[test]
fn known_capabilities_produce_their_bits() {
    assert_eq!(perms::NoAccess.perms(), 0);
    assert_eq!(perms::Read.perms(), 1);
    assert_eq!(perms::Write.perms(), 2);
    assert_eq!(perms::Execute.perms(), 4);
    assert_eq!(perms::ReadWrite.perms(), 3);
    assert_eq!(perms::ReadExecute.perms(), 5);
    assert_eq!(perms::WriteExecute.perms(), 6);
    assert_eq!(perms::ReadWriteExecute.perms(), 7);
}

#[test]
fn unknown_capability_passes_its_value_through() {
    assert_eq!(perms::Unknown(9).perms(), 9);
}

#[test]
fn kinds_produce_their_bits() {
    assert_eq!(Private.kind(), 2);
    assert_eq!(Shared.kind(), 1);
}

#[test]
fn an_error_wraps_a_bare_failure() {
    let e = Error::from(OsError::InvalidData);
    assert_eq!(e.map, ());
    assert_eq!(e.err, OsError::InvalidData);
}

#[test]
fn an_error_reduces_to_its_failure() {
    let e = Error { map: 7u32, err: OsError::Errno(22) };
    assert_eq!(OsError::from(e), OsError::Errno(22));
}
