//! The mapped region: release, re-protect, re-map and split.

use mmarinus::builder::MAP_ANONYMOUS;
use mmarinus::builder::MAP_FIXED;
use mmarinus::mapping::try_length;
use mmarinus::mapping::MAP_PRIVATE;
use mmarinus::perms;
use mmarinus::Mapping;
use mmarinus::OsError;
use mmarinus::Private;

const PAGE: usize = 4096;
const BASE: usize = 256 * 1024 * 1024;

fn mapped(size: usize) -> Mapping<perms::Read, Private> {
    Mapping::bytes(size)
        .anywhere()
        .anonymously()
        .map(perms::Read)
        .unwrap()
        .complete(BASE)
}

#[test]
fn accessors_report_the_region() {
    let m = mapped(8192);
    assert_eq!(m.addr(), BASE);
    assert_eq!(m.size(), 8192);
}

#[test]
fn releasing_a_region_names_its_range() {
    let m = mapped(8192);
    assert_eq!(m.release(), Some((BASE, 8192)));
}

#[test]
fn releasing_a_zero_length_sentinel_destroys_nothing() {
    let m = mapped(8192);
    let (l, r) = m.split(0, PAGE).unwrap();
    assert_eq!(l.size(), 0);
    assert_eq!(l.release(), None);
    assert_eq!(r.release(), Some((BASE, 8192)));
}

#[test]
fn reprotect_preserves_address_and_length() {
    let m = mapped(8192);
    let req = m.reprotect(perms::ReadWrite);
    assert_eq!(req.addr(), BASE);
    assert_eq!(req.size(), 8192);
    assert_eq!(req.prot(), 3);
    let m2 = req.complete();
    assert_eq!(m2.addr(), BASE);
    assert_eq!(m2.size(), 8192);
}

#[test]
fn failed_reprotect_returns_the_region_intact() {
    let m = mapped(8192);
    let e = m.reprotect(perms::ReadWrite).fail(13);
    assert_eq!(e.err, OsError::Errno(13));
    assert_eq!(e.map.addr(), BASE);
    assert_eq!(e.map.size(), 8192);
}

#[test]
fn split_in_the_middle_cuts_exactly() {
    let m = mapped(8192);
    let (l, r) = m.split(4096, PAGE).unwrap();
    assert_eq!(l.addr(), BASE);
    assert_eq!(l.size(), 4096);
    assert_eq!(r.addr(), BASE + 4096);
    assert_eq!(r.size(), 4096);
}

#[test]
fn split_at_unaligned_offset_fails() {
    let m = mapped(8192);
    let e = m.split(100, PAGE).unwrap_err();
    assert_eq!(e.err, OsError::InvalidInput);
    assert_eq!(e.map.addr(), BASE);
    assert_eq!(e.map.size(), 8192);
}

#[test]
fn split_past_the_end_fails() {
    let m = mapped(8192);
    let e = m.split(8192 + PAGE, PAGE).unwrap_err();
    assert_eq!(e.err, OsError::InvalidInput);
    assert_eq!(e.map.addr(), BASE);
    assert_eq!(e.map.size(), 8192);
}

#[test]
fn split_of_an_unaligned_region_fails_even_at_offset_zero() {
    let m = Mapping::bytes(8192)
        .anywhere()
        .anonymously()
        .map(perms::Read)
        .unwrap()
        .complete(BASE + 100);
    let e = m.split(0, PAGE).unwrap_err();
    assert_eq!(e.err, OsError::InvalidInput);
    assert_eq!(e.map.addr(), BASE + 100);
    assert_eq!(e.map.size(), 8192);
}

#[test]
fn split_without_a_page_size_fails() {
    let m = mapped(8192);
    let e = m.split(4096, 0).unwrap_err();
    assert_eq!(e.err, OsError::InvalidInput);
}

#[test]
fn split_at_an_address_before_the_start_takes_the_full_length() {
    let m = mapped(8192);
    let (l, r) = m.split_at(BASE - PAGE, PAGE).unwrap();
    assert_eq!(l.size(), 8192);
    assert_eq!(r.addr(), BASE + 8192);
    assert_eq!(r.size(), 0);
}

#[test]
fn remap_forces_replacement_at_the_same_address() {
    let m = mapped(8192);
    let q = m.remap().anonymously().map(perms::ReadWrite).unwrap();
    assert_eq!(q.addr, BASE);
    assert_eq!(q.length, 8192);
    assert_eq!(q.flags, MAP_PRIVATE | MAP_FIXED | MAP_ANONYMOUS);
    let m2 = q.complete(BASE);
    assert_eq!(m2.addr(), BASE);
    assert_eq!(m2.size(), 8192);
}

#[test]
fn failed_remap_returns_the_region_intact() {
    let m = mapped(8192);
    let q = m.remap().anonymously().map(perms::ReadWrite).unwrap();
    let e = q.fail(12);
    assert_eq!(e.err, OsError::Errno(12));
    assert_eq!(e.map.addr(), BASE);
    assert_eq!(e.map.size(), 8192);
}

#[test]
fn into_unknown_preserves_the_region() {
    let m = mapped(8192);
    let u = m.into_unknown();
    assert_eq!(u.addr(), BASE);
    assert_eq!(u.size(), 8192);
}

#[test]
fn try_length_accepts_what_fits() {
    assert_eq!(try_length(8192).unwrap(), 8192);
    assert_eq!(try_length(0).unwrap(), 0);
}

#[test]
fn end_to_end_split_of_an_eight_mebibyte_mapping() {
    const SIZE: usize = 8 * 1024 * 1024;
    const HALF: usize = SIZE / 2;

    let m = Mapping::bytes(SIZE)
        .anywhere()
        .anonymously()
        .map(perms::Read)
        .unwrap()
        .complete(BASE);

    let (l, r) = m.split(HALF, PAGE).unwrap();
    assert_eq!(l.addr(), BASE);
    assert_eq!(l.size(), HALF);
    assert_eq!(r.addr(), BASE + HALF);
    assert_eq!(r.size(), HALF);

    let first = l.release().unwrap();
    let second = r.release().unwrap();
    assert_eq!(first, (BASE, HALF));
    assert_eq!(second, (BASE + HALF, HALF));
    assert_eq!(first.0 + first.1, second.0);
}
