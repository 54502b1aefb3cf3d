//! Boundary splits: cutting a region at offset zero or at its full
//! length yields one zero-length sentinel side.

use mmarinus::perms;
use mmarinus::Mapping;

const PAGE: usize = 4096;
const BASE: usize = 512 * 1024 * 1024;

fn mapped(size: usize) -> Mapping<perms::Read, mmarinus::Private> {
    Mapping::bytes(size)
        .anywhere()
        .anonymously()
        .map(perms::Read)
        .unwrap()
        .complete(BASE)
}

#[test]
fn map_zero_split() {
    const SIZE: usize = 4 * 1024 * 1024;

    let map = mapped(SIZE);

    let at = map.addr();
    let (l, r) = map.split_at(at, PAGE).unwrap();
    assert_eq!(l.size(), 0);
    assert_eq!(r.size(), SIZE);
}

#[test]
fn map_full_size_split() {
    const SIZE: usize = 4 * 1024 * 1024;

    let map = mapped(SIZE);

    let at = map.addr() + SIZE;
    let (l, r) = map.split_at(at, PAGE).unwrap();
    assert_eq!(l.size(), SIZE);
    assert_eq!(r.size(), 0);
}

#[test]
fn lib_zero_split() {
    const SIZE: usize = 4 * 1024 * 1024;

    let map = mapped(SIZE);

    let at = map.addr();
    let (l, r) = map.split_at(at, PAGE).unwrap();
    assert_eq!(l.size(), 0);
    assert_eq!(r.size(), SIZE);
}

#[test]
fn lib_full_size_split() {
    const SIZE: usize = 4 * 1024 * 1024;

    let map = mapped(SIZE);

    let at = map.addr() + SIZE;
    let (l, r) = map.split_at(at, PAGE).unwrap();
    assert_eq!(l.size(), SIZE);
    assert_eq!(r.size(), 0);
}
