//! The staged builder used to construct a new memory mapping.
//!
//! A request threads through four stages: the size, the placement
//! directive, the backing source, and finally the capability choice.
//! Only the final stage checks the parameters for mutual consistency and
//! translates them into the exact arguments of the create-mapping
//! primitive; an inconsistent combination is rejected there with a
//! parameter-consistency failure, before any call could be issued.

use core::marker::PhantomData;

use vstd::prelude::*;

use crate::error::Error;
use crate::error::OsError;
use crate::mapping::Kind;
use crate::mapping::Mapping;
use crate::mapping::Private;
use crate::perms::Type;

verus! {

/// Flag demanding the exact address and failing if it is occupied (the
/// Linux `MAP_FIXED_NOREPLACE` value).
pub const MAP_FIXED_NOREPLACE: i32 = 1048576;

/// Flag demanding the exact address, silently replacing any mapping
/// already there (the Linux `MAP_FIXED` value).
pub const MAP_FIXED: i32 = 16;

/// Flag selecting zero-filled memory with no file backing (the Linux
/// `MAP_ANONYMOUS` value).
pub const MAP_ANONYMOUS: i32 = 32;

/// Flag requesting huge pages for the mapping (the Linux `MAP_HUGETLB`
/// value).
pub const MAP_HUGETLB: i32 = 262144;

/// Bit position of the huge-page size power within the flag word (the
/// Linux `MAP_HUGE_SHIFT` value).
pub const MAP_HUGE_SHIFT: i32 = 26;

/// The largest huge-page size power the flag word can encode: the power
/// must fit in six bits (the Linux `MAP_HUGE_MASK` value).
pub const MAP_HUGE_MASK: i32 = 63;

/// A stage of the builder.
pub trait Stage {
}

/// The placement directive: the constraint governing where in address
/// space a new mapping may land.
///
/// Address zero is reserved to mean "no constraint", so the directives
/// that name an address can only be honoured at a nonzero one.
#[derive(Clone, Copy, Debug, PartialEq, Eq, Structural)]
pub enum Address {
    /// The kernel chooses the address.
    Anywhere,
    /// The mapping must land at the exact address and fails if that
    /// range is occupied.
    At(usize),
    /// The mapping should land near the address; the kernel may
    /// relocate it.
    Near(usize),
    /// The mapping must land at the exact address, silently replacing
    /// any mapping already there.
    Onto(usize),
}

/// The first stage: only the requested length in bytes.
pub struct Size<M> {
    pub(crate) prev: M,
    pub(crate) size: usize,
}

/// The second stage: the length plus a placement directive.
pub struct Destination<M> {
    pub(crate) prev: Size<M>,
    pub(crate) addr: Address,
}

/// The third stage: the length, the placement directive, and the backing
/// source (a file descriptor with a byte offset, or the no-file sentinel
/// descriptor -1), with an optional huge-page hint.
pub struct Source<M, K: Kind> {
    pub(crate) prev: Destination<M>,
    pub(crate) fd: i32,
    pub(crate) offset: i64,
    pub(crate) huge: Option<u8>,
    pub(crate) kind: K,
}

impl<M> Stage for Size<M> {
}

impl<M> Stage for Destination<M> {
}

impl<M, K: Kind> Stage for Source<M, K> {
}

/// A builder used to construct a new memory mapping.
pub struct Builder<S: Stage>(pub(crate) S);

impl<M> Builder<Size<M>> {
    /// The requested length in bytes.
    pub open(crate) spec fn spec_size(&self) -> usize {
        self.0.size
    }

    /// The ownership carried as the return-on-failure payload.
    pub open(crate) spec fn spec_prev(&self) -> M {
        self.0.prev
    }

    /// Creates the mapping anywhere in valid memory.
    ///
    /// This hands address zero and no placement flag to the create
    /// primitive.
    pub fn anywhere(self) -> (r: Builder<Destination<M>>)
        ensures
            r.spec_addr() == Address::Anywhere,
            r.spec_size() == self.spec_size(),
            r.spec_prev() == self.spec_prev(),
    {
        Builder(Destination { prev: self.0, addr: Address::Anywhere })
    }

    /// Creates the mapping at the specified address, failing if that
    /// range is occupied.
    pub fn at(self, addr: usize) -> (r: Builder<Destination<M>>)
        ensures
            r.spec_addr() == Address::At(addr),
            r.spec_size() == self.spec_size(),
            r.spec_prev() == self.spec_prev(),
    {
        Builder(Destination { prev: self.0, addr: Address::At(addr) })
    }

    /// Creates the mapping near the specified address.
    pub fn near(self, addr: usize) -> (r: Builder<Destination<M>>)
        ensures
            r.spec_addr() == Address::Near(addr),
            r.spec_size() == self.spec_size(),
            r.spec_prev() == self.spec_prev(),
    {
        Builder(Destination { prev: self.0, addr: Address::Near(addr) })
    }

    /// Creates the mapping at the specified address, replacing whatever
    /// is already mapped there.
    ///
    /// This is the one placement whose misuse can silently corrupt
    /// unrelated memory: the create primitive will destroy any existing
    /// mapping in the range without warning.  Choose it only when the
    /// range is known to be yours to replace.
    pub fn onto(self, addr: usize) -> (r: Builder<Destination<M>>)
        ensures
            r.spec_addr() == Address::Onto(addr),
            r.spec_size() == self.spec_size(),
            r.spec_prev() == self.spec_prev(),
    {
        Builder(Destination { prev: self.0, addr: Address::Onto(addr) })
    }
}

impl<M> Builder<Destination<M>> {
    /// The placement directive chosen so far.
    pub open(crate) spec fn spec_addr(&self) -> Address {
        self.0.addr
    }

    /// The requested length in bytes.
    pub open(crate) spec fn spec_size(&self) -> usize {
        self.0.prev.size
    }

    /// The ownership carried as the return-on-failure payload.
    pub open(crate) spec fn spec_prev(&self) -> M {
        self.0.prev.prev
    }

    /// Creates the mapping without any file backing.
    ///
    /// The descriptor is forced to the no-file sentinel -1 and the
    /// offset to 0; the kind defaults to private.
    pub fn anonymously(self) -> (r: Builder<Source<M, Private>>)
        ensures
            r.spec_fd() == -1,
            r.spec_offset() == 0,
            r.spec_huge() is None,
            r.spec_kind() == Private,
            r.spec_addr() == self.spec_addr(),
            r.spec_size() == self.spec_size(),
            r.spec_prev() == self.spec_prev(),
    {
        Builder(Source { prev: self.0, fd: -1, offset: 0, huge: None, kind: Private })
    }

    /// Creates the mapping using the contents of the file behind the
    /// given raw descriptor, starting at the given byte offset.
    ///
    /// The descriptor is only passed through to the create primitive; it
    /// is neither retained nor closed here.  The kind defaults to
    /// private.
    pub fn from(self, fd: i32, offset: i64) -> (r: Builder<Source<M, Private>>)
        ensures
            r.spec_fd() == fd,
            r.spec_offset() == offset,
            r.spec_huge() is None,
            r.spec_kind() == Private,
            r.spec_addr() == self.spec_addr(),
            r.spec_size() == self.spec_size(),
            r.spec_prev() == self.spec_prev(),
    {
        Builder(Source { prev: self.0, fd, offset, huge: None, kind: Private })
    }
}

/// The address handed to the create primitive for a placement directive.
pub open spec fn placement_addr(a: Address) -> usize {
    match a {
        Address::Anywhere => 0,
        Address::At(x) => x,
        Address::Near(x) => x,
        Address::Onto(x) => x,
    }
}

/// The placement flag bits handed to the create primitive for a
/// placement directive.
pub open spec fn placement_flags(a: Address) -> i32 {
    match a {
        Address::Anywhere => 0,
        Address::At(_) => MAP_FIXED_NOREPLACE,
        Address::Near(_) => 0,
        Address::Onto(_) => MAP_FIXED,
    }
}

/// Whether a placement directive is consistent: address zero is reserved
/// to mean "no constraint", so a directive that names an address is only
/// honoured at a nonzero one.
pub open spec fn placement_ok(a: Address) -> bool {
    a is Anywhere || placement_addr(a) != 0
}

/// The anonymous-memory flag bits for a backing descriptor: the no-file
/// sentinel -1 forces the anonymous flag.
pub open spec fn anonymous_flags(fd: i32) -> i32 {
    if fd == -1 {
        MAP_ANONYMOUS
    } else {
        0
    }
}

/// The huge-page flag bits for an optional size-power hint.
pub open spec fn huge_flags(huge: Option<u8>) -> i32 {
    match huge {
        Option::None => 0,
        Option::Some(pow) => ((pow as i32) << MAP_HUGE_SHIFT) | MAP_HUGETLB,
    }
}

/// Whether a huge-page hint fits the flag word's six-bit encoding.
pub open spec fn huge_ok(huge: Option<u8>) -> bool {
    huge matches Some(pow) ==> pow as i32 <= MAP_HUGE_MASK
}

/// A fully validated create-mapping call, ready to be issued.
///
/// The public fields are exactly the arguments of the create primitive.
/// The pre-call ownership rides along: if the call fails, [`fail`] hands
/// it back untouched; if the call succeeds, [`complete`] discards it
/// (nothing was ever mapped for it to release) and produces the new
/// [`Mapping`].
///
/// [`fail`]: MapRequest::fail
/// [`complete`]: MapRequest::complete
#[derive(Debug)]
pub struct MapRequest<M, T: Type, K: Kind> {
    pub(crate) prev: M,
    /// The address demanded of the create primitive (zero for no
    /// constraint).
    pub addr: usize,
    /// The requested length in bytes.
    pub length: usize,
    /// The protection bits.
    pub prot: i32,
    /// The combined kind, placement, anonymous and huge-page flag bits.
    pub flags: i32,
    /// The backing file descriptor, or -1 for an anonymous mapping.
    pub fd: i32,
    /// The byte offset into the backing file.
    pub offset: i64,
    pub(crate) data: PhantomData<(T, K)>,
}

impl<M, T: Type, K: Kind> MapRequest<M, T, K> {
    /// The ownership carried as the return-on-failure payload.
    pub open(crate) spec fn spec_prev(&self) -> M {
        self.prev
    }

    /// The address demanded of the create primitive.
    pub open(crate) spec fn spec_addr(&self) -> usize {
        self.addr
    }

    /// The requested length in bytes.
    pub open(crate) spec fn spec_length(&self) -> usize {
        self.length
    }

    /// The protection bits.
    pub open(crate) spec fn spec_prot(&self) -> i32 {
        self.prot
    }

    /// The combined flag bits.
    pub open(crate) spec fn spec_flags(&self) -> i32 {
        self.flags
    }

    /// The backing file descriptor.
    pub open(crate) spec fn spec_fd(&self) -> i32 {
        self.fd
    }

    /// The byte offset into the backing file.
    pub open(crate) spec fn spec_offset(&self) -> i64 {
        self.offset
    }

    /// Finishes the request after the create primitive succeeded and
    /// returned `ret` as the new region's address.
    ///
    /// The pre-call ownership is discarded without any release: it never
    /// was a live mapping of its own, and for a re-map it has just been
    /// replaced in place, so releasing it would destroy the new region.
    pub fn complete(self, ret: usize) -> (r: Mapping<T, K>)
        requires
            ret + self.spec_length() <= usize::MAX,
        ensures
            r.spec_addr() == ret,
            r.spec_size() == self.spec_length(),
    {
        Mapping { addr: ret, size: self.length, data: PhantomData }
    }

    /// Dissolves the request after the create primitive failed with the
    /// error number `errno`, handing the pre-call ownership back
    /// untouched.
    pub fn fail(self, errno: i32) -> (r: Error<M>)
        ensures
            r.map == self.spec_prev(),
            r.err == OsError::Errno(errno),
    {
        Error { map: self.prev, err: OsError::Errno(errno) }
    }
}

impl<M, K: Kind> Builder<Source<M, K>> {
    /// The backing file descriptor, or the no-file sentinel -1.
    pub open(crate) spec fn spec_fd(&self) -> i32 {
        self.0.fd
    }

    /// The byte offset into the backing file.
    pub open(crate) spec fn spec_offset(&self) -> i64 {
        self.0.offset
    }

    /// The huge-page size-power hint, if one was attached.
    pub open(crate) spec fn spec_huge(&self) -> Option<u8> {
        self.0.huge
    }

    /// The kind selector chosen so far.
    pub open(crate) spec fn spec_kind(&self) -> K {
        self.0.kind
    }

    /// The placement directive chosen so far.
    pub open(crate) spec fn spec_addr(&self) -> Address {
        self.0.prev.addr
    }

    /// The requested length in bytes.
    pub open(crate) spec fn spec_size(&self) -> usize {
        self.0.prev.prev.size
    }

    /// The ownership carried as the return-on-failure payload.
    pub open(crate) spec fn spec_prev(&self) -> M {
        self.0.prev.prev.prev
    }

    /// Uses huge pages for the mapping.
    ///
    /// A power of 0 asks the kernel to pick the huge-page size; any
    /// other power selects a page size of two to that power.
    pub fn with_huge_pages(self, pow: u8) -> (r: Self)
        ensures
            r.spec_huge() == Some(pow),
            r.spec_fd() == self.spec_fd(),
            r.spec_offset() == self.spec_offset(),
            r.spec_kind() == self.spec_kind(),
            r.spec_addr() == self.spec_addr(),
            r.spec_size() == self.spec_size(),
            r.spec_prev() == self.spec_prev(),
    {
        let Builder(src) = self;
        Builder(
            Source {
                prev: src.prev,
                fd: src.fd,
                offset: src.offset,
                huge: Some(pow),
                kind: src.kind,
            },
        )
    }

    /// Uses the specified kind for map creation.
    pub fn with_kind<X: Kind>(self, kind: X) -> (r: Builder<Source<M, X>>)
        ensures
            r.spec_kind() == kind,
            r.spec_fd() == self.spec_fd(),
            r.spec_offset() == self.spec_offset(),
            r.spec_huge() == self.spec_huge(),
            r.spec_addr() == self.spec_addr(),
            r.spec_size() == self.spec_size(),
            r.spec_prev() == self.spec_prev(),
    {
        let Builder(src) = self;
        Builder(
            Source { prev: src.prev, fd: src.fd, offset: src.offset, huge: src.huge, kind },
        )
    }

    /// Validates the accumulated parameters and translates them into a
    /// create-mapping call with the specified capability.
    ///
    /// The huge-page hint must fit the flag word's six-bit encoding, and
    /// a placement directive that names an address must name a nonzero
    /// one; otherwise the request is rejected here with a
    /// parameter-consistency failure that hands the carried ownership
    /// back, and the create primitive is never reached.
    pub fn map<T: Type>(self, perms: T) -> (r: Result<MapRequest<M, T, K>, Error<M>>)
        ensures
            r is Ok <==> huge_ok(self.spec_huge()) && placement_ok(self.spec_addr()),
            r matches Ok(q) ==> {
                &&& q.spec_prev() == self.spec_prev()
                &&& q.spec_addr() == placement_addr(self.spec_addr())
                &&& q.spec_length() == self.spec_size()
                &&& q.spec_prot() == perms.prot()
                &&& q.spec_flags() == (self.spec_kind().bits() | placement_flags(self.spec_addr())
                    | anonymous_flags(self.spec_fd()) | huge_flags(self.spec_huge()))
                &&& q.spec_fd() == self.spec_fd()
                &&& q.spec_offset() == self.spec_offset()
            },
            r matches Err(e) ==> e.map == self.spec_prev() && e.err == OsError::InvalidInput,
    {
        let Builder(src) = self;
        let Source { prev: dest, fd, offset, huge, kind } = src;
        let Destination { prev: sized, addr: directive } = dest;
        let Size { prev: owner, size } = sized;

        let prot = perms.perms();
        let kind_bits = kind.kind();

        let huge_bits: i32 = match huge {
            Some(pow) => {
                if pow as i32 > MAP_HUGE_MASK {
                    return Err(Error { map: owner, err: OsError::InvalidInput });
                }
                ((pow as i32) << MAP_HUGE_SHIFT) | MAP_HUGETLB
            }
            None => 0,
        };

        let addr: usize;
        let fixed_bits: i32;
        match directive {
            Address::Anywhere => {
                addr = 0;
                fixed_bits = 0;
            }
            Address::At(a) => {
                if a == 0 {
                    return Err(Error { map: owner, err: OsError::InvalidInput });
                }
                addr = a;
                fixed_bits = MAP_FIXED_NOREPLACE;
            }
            Address::Near(a) => {
                if a == 0 {
                    return Err(Error { map: owner, err: OsError::InvalidInput });
                }
                addr = a;
                fixed_bits = 0;
            }
            Address::Onto(a) => {
                if a == 0 {
                    return Err(Error { map: owner, err: OsError::InvalidInput });
                }
                addr = a;
                fixed_bits = MAP_FIXED;
            }
        }

        let anon_bits = if fd == -1 {
            MAP_ANONYMOUS
        } else {
            0
        };

        Ok(
            MapRequest {
                prev: owner,
                addr,
                length: size,
                prot,
                flags: kind_bits | fixed_bits | anon_bits | huge_bits,
                fd,
                offset,
                data: PhantomData,
            },
        )
    }
}

} // verus!
