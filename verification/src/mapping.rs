//! The owned handle to a mapped region, and the operations that
//! transactionally replace it.
//!
//! A [`Mapping`] records the address and length of a live region together
//! with a type-level capability and kind tag.  The operations that change
//! a region (re-protect, re-map, split) consume the old handle and either
//! produce replacements or hand the old handle back untouched inside an
//! [`Error`], so no region is ever released twice or leaked.  A handle of
//! length zero is a sentinel: it owns nothing and its release must not
//! invoke the destroy primitive.

use core::marker::PhantomData;

use vstd::prelude::*;

use crate::builder::Address;
use crate::builder::Builder;
use crate::builder::Destination;
use crate::builder::Size;
use crate::error::Error;
use crate::error::OsError;
use crate::perms::Known;
use crate::perms::Type;
use crate::perms::Unknown;

verus! {

/// Kind bits selecting a shared mapping (the Linux `MAP_SHARED` value).
pub const MAP_SHARED: i32 = 1;

/// Kind bits selecting a private mapping (the Linux `MAP_PRIVATE` value).
pub const MAP_PRIVATE: i32 = 2;

/// A kind selector for a mapping.
///
/// Anything that can produce the raw kind bits handed to the
/// create-mapping primitive.
pub trait Kind: Sized {
    /// The kind bits this selector stands for.
    spec fn bits(&self) -> i32;

    /// Produces the raw kind bits.
    fn kind(self) -> (r: i32)
        ensures
            r == self.bits(),
    ;
}

/// Marks a kind for which direct byte access to the region is sound.
pub trait Safe: Kind {
}

/// Indicates a private mapping: copy-on-write, isolated from every other
/// mapper of the same backing object.
#[derive(Debug)]
pub struct Private;

impl Kind for Private {
    open spec fn bits(&self) -> i32 {
        MAP_PRIVATE
    }

    fn kind(self) -> i32 {
        MAP_PRIVATE
    }
}

impl Safe for Private {
}

/// Indicates a shared mapping: visible to every other mapper of the same
/// backing object.  No synchronization of concurrent byte access is
/// provided here; that is the caller's responsibility.
#[derive(Debug)]
pub struct Shared;

impl Kind for Shared {
    open spec fn bits(&self) -> i32 {
        MAP_SHARED
    }

    fn kind(self) -> i32 {
        MAP_SHARED
    }
}

impl Safe for Shared {
}

/// The set of addresses covered by a region of `size` bytes at `addr`.
pub open spec fn region(addr: int, size: int) -> Set<int> {
    Set::new(|a: int| addr <= a < addr + size)
}

/// An owned handle to a mapped region of memory.
///
/// The capability tag `T` and the kind tag `K` are type-level only; the
/// handle itself records the address and length of the region.  The
/// handle with length zero is a sentinel that owns no memory.
#[derive(Debug)]
pub struct Mapping<T: Type, K: Kind> {
    pub(crate) addr: usize,
    pub(crate) size: usize,
    pub(crate) data: PhantomData<(T, K)>,
}

impl<T: Type, K: Kind> Mapping<T, K> {
    /// The covered range [addr, addr + size) lies within the address
    /// space.
    #[verifier::type_invariant]
    pub(crate) open spec fn inv(self) -> bool {
        self.addr + self.size <= usize::MAX
    }

    /// The base address of the region.
    pub open(crate) spec fn spec_addr(&self) -> usize {
        self.addr
    }

    /// The length of the region in bytes.
    pub open(crate) spec fn spec_size(&self) -> usize {
        self.size
    }

    /// The set of addresses the region covers.
    pub open spec fn spec_region(&self) -> Set<int> {
        region(self.spec_addr() as int, self.spec_size() as int)
    }

    /// Gets the address of the mapping.
    pub fn addr(&self) -> (r: usize)
        ensures
            r == self.spec_addr(),
    {
        self.addr
    }

    /// Gets the size of the mapping.
    pub fn size(&self) -> (r: usize)
        ensures
            r == self.spec_size(),
    {
        self.size
    }

    /// Dissolves the handle into the address and length that the destroy
    /// primitive must be called with, or `None` for the zero-length
    /// sentinel, which was never separately mapped and must not invoke
    /// the destroy primitive.
    pub fn release(self) -> (r: Option<(usize, usize)>)
        ensures
            r is Some <==> self.spec_size() > 0,
            r matches Some(p) ==> p == (self.spec_addr(), self.spec_size()),
    {
        if self.size > 0 {
            Some((self.addr, self.size))
        } else {
            None
        }
    }

    /// Changes the settings of an existing mapping.
    ///
    /// This re-enters the placement stage with the placement forced to
    /// fixed-replacing at the mapping's own address, so that the create
    /// primitive replaces the region in place, and with the mapping
    /// itself carried as the return-on-failure payload: a failed re-map
    /// hands the original mapping back whole and still valid.
    pub fn remap(self) -> (r: Builder<Destination<Self>>)
        ensures
            r.spec_addr() == Address::Onto(self.spec_addr()),
            r.spec_size() == self.spec_size(),
            r.spec_prev() == self,
    {
        let addr = self.addr;
        let size = self.size;
        Builder(Destination { addr: Address::Onto(addr), prev: Size { size, prev: self } })
    }

    /// Begins changing the permissions of an existing mapping.
    ///
    /// The request holds the address, length and new protection bits for
    /// the change-protection primitive; its outcome then decides
    /// ownership, through [`ReprotectRequest::complete`] or
    /// [`ReprotectRequest::fail`].
    pub fn reprotect<U: Type>(self, perms: U) -> (r: ReprotectRequest<T, K, U>)
        ensures
            r.spec_map() == self,
            r.spec_prot() == perms.prot(),
    {
        let prot = perms.perms();
        ReprotectRequest { map: self, prot, to: PhantomData }
    }

    /// Splits the mapping into two adjacent mappings at the specified
    /// offset.
    ///
    /// `page_size` is the page size the platform reports at the time of
    /// the call (a report of zero means it could not be obtained).  The
    /// split point must not pass the end of the region and its address
    /// must be page-aligned; otherwise the call fails with a
    /// parameter-consistency failure that hands the mapping back
    /// untouched.  On success the left piece covers the bytes before the
    /// offset and the right piece the bytes from the offset on; each is
    /// released independently, and a piece of length zero is a sentinel
    /// that releases nothing.
    pub fn split(self, offset: usize, page_size: usize) -> (r: Result<
        (Self, Self),
        Error<Self>,
    >)
        ensures
            split_post(self, offset as int, page_size as int, r),
    {
        proof {
            use_type_invariant(&self);
        }
        if page_size > 0 && offset <= self.size {
            let at = self.addr + offset;
            if at % page_size == 0 {
                let left = Mapping { addr: self.addr, size: offset, data: PhantomData };
                let right = Mapping { addr: at, size: self.size - offset, data: PhantomData };
                return Ok((left, right));
            }
        }
        Err(Error { map: self, err: OsError::InvalidInput })
    }

    /// Splits the mapping into two adjacent mappings at the specified
    /// address.
    ///
    /// An address at or after the start of the region names the forward
    /// offset from the start; an address before the start collapses the
    /// split point to the full length, making the left piece the whole
    /// region and the right piece empty.  The split itself then behaves
    /// exactly as [`Mapping::split`].
    pub fn split_at(self, addr: usize, page_size: usize) -> (r: Result<
        (Self, Self),
        Error<Self>,
    >)
        ensures
            split_post(
                self,
                split_at_offset(self.spec_addr() as int, self.spec_size() as int, addr as int),
                page_size as int,
                r,
            ),
    {
        let offset: usize = if addr >= self.addr {
            addr - self.addr
        } else {
            self.size
        };
        self.split(offset, page_size)
    }
}

impl<T: Known, K: Kind> Mapping<T, K> {
    /// Converts a mapping whose capability is fixed at compile time into
    /// one whose capability is tracked only at run time.
    ///
    /// Ownership transfers to the new handle; address and length are
    /// unchanged and nothing is released.
    pub fn into_unknown(self) -> (r: Mapping<Unknown, K>)
        ensures
            r.spec_addr() == self.spec_addr(),
            r.spec_size() == self.spec_size(),
    {
        proof {
            use_type_invariant(&self);
        }
        Mapping { addr: self.addr, size: self.size, data: PhantomData }
    }
}

impl Mapping<Unknown, Shared> {
    /// Begins creating a mapping of the specified size.
    pub fn bytes(size: usize) -> (r: Builder<Size<()>>)
        ensures
            r.spec_size() == size,
            r.spec_prev() == (),
    {
        Builder(Size { prev: (), size })
    }
}

/// A pending change-protection call on an existing mapping.
///
/// The caller issues the change-protection primitive with this request's
/// address, length and protection bits, then reports the outcome:
/// [`complete`] on success transfers ownership into a handle carrying
/// the new capability tag, [`fail`] hands the original mapping back
/// untouched together with the reported error.
///
/// [`complete`]: ReprotectRequest::complete
/// [`fail`]: ReprotectRequest::fail
#[derive(Debug)]
pub struct ReprotectRequest<T: Type, K: Kind, U: Type> {
    map: Mapping<T, K>,
    prot: i32,
    to: PhantomData<U>,
}

impl<T: Type, K: Kind, U: Type> ReprotectRequest<T, K, U> {
    /// The mapping whose protection is being changed.
    pub closed spec fn spec_map(&self) -> Mapping<T, K> {
        self.map
    }

    /// The protection bits demanded of the change-protection primitive.
    pub closed spec fn spec_prot(&self) -> i32 {
        self.prot
    }

    /// Gets the address of the region whose protection is being changed.
    pub fn addr(&self) -> (r: usize)
        ensures
            r == self.spec_map().spec_addr(),
    {
        self.map.addr()
    }

    /// Gets the length of the region whose protection is being changed.
    pub fn size(&self) -> (r: usize)
        ensures
            r == self.spec_map().spec_size(),
    {
        self.map.size()
    }

    /// Gets the protection bits demanded of the change-protection
    /// primitive.
    pub fn prot(&self) -> (r: i32)
        ensures
            r == self.spec_prot(),
    {
        self.prot
    }

    /// Finishes the request after the change-protection primitive
    /// succeeded.
    ///
    /// The new handle keeps the address and length and carries the new
    /// capability tag; no data moved.  The old handle is consumed
    /// without any release: ownership has transferred to the new one.
    pub fn complete(self) -> (r: Mapping<U, K>)
        ensures
            r.spec_addr() == self.spec_map().spec_addr(),
            r.spec_size() == self.spec_map().spec_size(),
    {
        proof {
            use_type_invariant(&self.map);
        }
        Mapping { addr: self.map.addr, size: self.map.size, data: PhantomData }
    }

    /// Dissolves the request after the change-protection primitive
    /// failed with the error number `errno`, handing the original
    /// mapping back untouched.
    pub fn fail(self, errno: i32) -> (r: Error<Mapping<T, K>>)
        ensures
            r.map == self.spec_map(),
            r.err == OsError::Errno(errno),
    {
        Error { map: self.map, err: OsError::Errno(errno) }
    }
}

/// Whether a region of `size` bytes at `addr` may be split at `offset`,
/// given the page size the platform reported: the page size was
/// obtained, the offset does not pass the end, and the split address is
/// page-aligned.
pub open spec fn split_allowed(addr: int, size: int, offset: int, page_size: int) -> bool {
    &&& page_size > 0
    &&& 0 <= offset <= size
    &&& (addr + offset) % page_size == 0
}

/// The split offset that an absolute address names within a region of
/// `size` bytes at `addr`: the forward offset for an address at or
/// after the start, the full length otherwise.
pub open spec fn split_at_offset(addr: int, size: int, at: int) -> int {
    if at >= addr {
        at - addr
    } else {
        size
    }
}

/// The contract of a split: it succeeds exactly when the split is
/// allowed; the pieces then cut the region at the offset, the left one
/// keeping the base address; otherwise the region comes back untouched
/// with a parameter-consistency failure.
pub open spec fn split_post<T: Type, K: Kind>(
    m: Mapping<T, K>,
    offset: int,
    page_size: int,
    r: Result<(Mapping<T, K>, Mapping<T, K>), Error<Mapping<T, K>>>,
) -> bool {
    &&& (r is Ok <==> split_allowed(
        m.spec_addr() as int,
        m.spec_size() as int,
        offset,
        page_size,
    ))
    &&& (r matches Ok((left, right)) ==> {
        &&& left.spec_addr() == m.spec_addr()
        &&& left.spec_size() == offset
        &&& right.spec_addr() == m.spec_addr() + offset
        &&& right.spec_size() == m.spec_size() - offset
    })
    &&& (r matches Err(e) ==> e.map == m && e.err == OsError::InvalidInput)
}

/// Splitting at offset 0 succeeds whenever the region's base address is
/// page-aligned, and yields a left piece of length 0 and a right piece
/// of the full length, both at the region's own address.
pub proof fn lemma_split_at_zero<T: Type, K: Kind>(
    m: Mapping<T, K>,
    page_size: int,
    r: Result<(Mapping<T, K>, Mapping<T, K>), Error<Mapping<T, K>>>,
)
    requires
        page_size > 0,
        m.spec_addr() as int % page_size == 0,
        split_post(m, 0, page_size, r),
    ensures
        r is Ok,
        r matches Ok((left, right)) ==> {
            &&& left.spec_addr() == m.spec_addr()
            &&& left.spec_size() == 0
            &&& right.spec_addr() == m.spec_addr()
            &&& right.spec_size() == m.spec_size()
        },
{
}

/// Splitting at the full length succeeds whenever the region's end
/// address is page-aligned, and yields a left piece that is the whole
/// region and a right piece of length 0 at the region's end.
pub proof fn lemma_split_at_length<T: Type, K: Kind>(
    m: Mapping<T, K>,
    page_size: int,
    r: Result<(Mapping<T, K>, Mapping<T, K>), Error<Mapping<T, K>>>,
)
    requires
        page_size > 0,
        (m.spec_addr() + m.spec_size()) % page_size == 0,
        split_post(m, m.spec_size() as int, page_size, r),
    ensures
        r is Ok,
        r matches Ok((left, right)) ==> {
            &&& left.spec_addr() == m.spec_addr()
            &&& left.spec_size() == m.spec_size()
            &&& right.spec_addr() == m.spec_addr() + m.spec_size()
            &&& right.spec_size() == 0
        },
{
}

/// Splitting at an offset whose address is not page-aligned always
/// fails with a parameter-consistency failure, and the failure hands the
/// region back with unchanged address and length.
pub proof fn lemma_split_unaligned<T: Type, K: Kind>(
    m: Mapping<T, K>,
    offset: int,
    page_size: int,
    r: Result<(Mapping<T, K>, Mapping<T, K>), Error<Mapping<T, K>>>,
)
    requires
        (m.spec_addr() + offset) % page_size != 0,
        split_post(m, offset, page_size, r),
    ensures
        r is Err,
        r matches Err(e) ==> e.map == m && e.err == OsError::InvalidInput,
{
}

/// Splitting at an offset past the end of the region always fails with
/// a parameter-consistency failure, and the failure hands the region
/// back with unchanged address and length.
pub proof fn lemma_split_too_far<T: Type, K: Kind>(
    m: Mapping<T, K>,
    offset: int,
    page_size: int,
    r: Result<(Mapping<T, K>, Mapping<T, K>), Error<Mapping<T, K>>>,
)
    requires
        offset > m.spec_size(),
        split_post(m, offset, page_size, r),
    ensures
        r is Err,
        r matches Err(e) ==> e.map == m && e.err == OsError::InvalidInput,
{
}

/// A successful split cuts the region exactly: the two pieces cover
/// disjoint address sets whose union is the original region, with no
/// gap and no overlap.
pub proof fn lemma_split_covers<T: Type, K: Kind>(
    m: Mapping<T, K>,
    offset: int,
    page_size: int,
    r: Result<(Mapping<T, K>, Mapping<T, K>), Error<Mapping<T, K>>>,
)
    requires
        split_post(m, offset, page_size, r),
    ensures
        r matches Ok((left, right)) ==> {
            &&& left.spec_region().union(right.spec_region()) =~= m.spec_region()
            &&& left.spec_region().disjoint(right.spec_region())
        },
{
    if let Ok((left, right)) = r {
        assert(left.spec_region().union(right.spec_region()) =~= m.spec_region());
        assert(left.spec_region().disjoint(right.spec_region()));
    }
}

/// Checks that a file length fits the platform's length type, as a
/// whole-file mapping must represent it.  A length that does not fit is
/// a data-validity failure, with no resource to return.
pub fn try_length(len: u64) -> (r: Result<usize, Error<()>>)
    ensures
        r is Ok <==> len <= usize::MAX,
        r matches Ok(size) ==> size == len,
        r matches Err(e) ==> e.map == () && e.err == OsError::InvalidData,
{
    if len <= usize::MAX as u64 {
        Ok(len as usize)
    } else {
        Err(Error { map: (), err: OsError::InvalidData })
    }
}

} // verus!
