//! Permissions for a mapping.
//!
//! A capability selector produces the raw protection bits demanded by the
//! mapping primitives.  The well-known selectors are zero-sized markers
//! whose bits are fixed; [`Unknown`] wraps a protection value decided at
//! run time.  The marker traits [`Readable`], [`Writeable`] and
//! [`Executable`] carry proof that the bits of a selector really grant
//! the access the marker claims, which is what gates byte access to a
//! mapped region.

use vstd::prelude::*;

verus! {

/// Protection bits granting no access at all (the Linux `PROT_NONE` value).
pub const PROT_NONE: i32 = 0;

/// Protection bit granting read access (the Linux `PROT_READ` value).
pub const PROT_READ: i32 = 1;

/// Protection bit granting write access (the Linux `PROT_WRITE` value).
pub const PROT_WRITE: i32 = 2;

/// Protection bit granting execute access (the Linux `PROT_EXEC` value).
pub const PROT_EXEC: i32 = 4;

/// A capability selector for a mapping.
///
/// Anything that can produce the raw protection bits handed to the
/// create-mapping and change-protection primitives.
pub trait Type: Sized {
    /// The protection bits this selector stands for.
    spec fn prot(&self) -> i32;

    /// Produces the raw protection bits.
    fn perms(self) -> (r: i32)
        ensures
            r == self.prot(),
    ;
}

/// A capability whose protection bits are fixed at compile time: every
/// value of the type stands for the same bits.
pub trait Known: Type {
    /// Any two selectors of this capability agree on their protection
    /// bits.
    proof fn fixed(a: &Self, b: &Self)
        ensures
            a.prot() == b.prot(),
    ;
}

/// Marks a known capability whose protection bits grant read access.
pub trait Readable: Known {
    /// The read bit is set in this capability's protection bits.
    proof fn grants_read(&self)
        ensures
            self.prot() & PROT_READ != 0,
    ;
}

/// Marks a known capability whose protection bits grant write access.
pub trait Writeable: Known {
    /// The write bit is set in this capability's protection bits.
    proof fn grants_write(&self)
        ensures
            self.prot() & PROT_WRITE != 0,
    ;
}

/// Marks a known capability whose protection bits grant execute access.
pub trait Executable: Known {
    /// The execute bit is set in this capability's protection bits.
    proof fn grants_execute(&self)
        ensures
            self.prot() & PROT_EXEC != 0,
    ;
}

/// Grants no access.
#[derive(Debug)]
pub struct NoAccess;

impl Type for NoAccess {
    open spec fn prot(&self) -> i32 {
        PROT_NONE
    }

    fn perms(self) -> i32 {
        PROT_NONE
    }
}

impl Known for NoAccess {
    proof fn fixed(a: &Self, b: &Self) {
    }
}

/// Grants read access.
#[derive(Debug)]
pub struct Read;

impl Type for Read {
    open spec fn prot(&self) -> i32 {
        PROT_READ
    }

    fn perms(self) -> i32 {
        PROT_READ
    }
}

impl Known for Read {
    proof fn fixed(a: &Self, b: &Self) {
    }
}

impl Readable for Read {
    proof fn grants_read(&self) {
        assert(1i32 & 1i32 != 0i32) by (bit_vector);
    }
}

/// Grants write access.
#[derive(Debug)]
pub struct Write;

impl Type for Write {
    open spec fn prot(&self) -> i32 {
        PROT_WRITE
    }

    fn perms(self) -> i32 {
        PROT_WRITE
    }
}

impl Known for Write {
    proof fn fixed(a: &Self, b: &Self) {
    }
}

impl Writeable for Write {
    proof fn grants_write(&self) {
        assert(2i32 & 2i32 != 0i32) by (bit_vector);
    }
}

/// Grants execute access.
#[derive(Debug)]
pub struct Execute;

impl Type for Execute {
    open spec fn prot(&self) -> i32 {
        PROT_EXEC
    }

    fn perms(self) -> i32 {
        PROT_EXEC
    }
}

impl Known for Execute {
    proof fn fixed(a: &Self, b: &Self) {
    }
}

impl Executable for Execute {
    proof fn grants_execute(&self) {
        assert(4i32 & 4i32 != 0i32) by (bit_vector);
    }
}

/// Grants read and write access.
#[derive(Debug)]
pub struct ReadWrite;

impl Type for ReadWrite {
    open spec fn prot(&self) -> i32 {
        PROT_READ | PROT_WRITE
    }

    fn perms(self) -> i32 {
        PROT_READ | PROT_WRITE
    }
}

impl Known for ReadWrite {
    proof fn fixed(a: &Self, b: &Self) {
    }
}

impl Readable for ReadWrite {
    proof fn grants_read(&self) {
        assert((1i32 | 2i32) & 1i32 != 0i32) by (bit_vector);
    }
}

impl Writeable for ReadWrite {
    proof fn grants_write(&self) {
        assert((1i32 | 2i32) & 2i32 != 0i32) by (bit_vector);
    }
}

/// Grants read and execute access.
#[derive(Debug)]
pub struct ReadExecute;

impl Type for ReadExecute {
    open spec fn prot(&self) -> i32 {
        PROT_READ | PROT_EXEC
    }

    fn perms(self) -> i32 {
        PROT_READ | PROT_EXEC
    }
}

impl Known for ReadExecute {
    proof fn fixed(a: &Self, b: &Self) {
    }
}

impl Readable for ReadExecute {
    proof fn grants_read(&self) {
        assert((1i32 | 4i32) & 1i32 != 0i32) by (bit_vector);
    }
}

impl Executable for ReadExecute {
    proof fn grants_execute(&self) {
        assert((1i32 | 4i32) & 4i32 != 0i32) by (bit_vector);
    }
}

/// Grants write and execute access.
#[derive(Debug)]
pub struct WriteExecute;

impl Type for WriteExecute {
    open spec fn prot(&self) -> i32 {
        PROT_WRITE | PROT_EXEC
    }

    fn perms(self) -> i32 {
        PROT_WRITE | PROT_EXEC
    }
}

impl Known for WriteExecute {
    proof fn fixed(a: &Self, b: &Self) {
    }
}

impl Writeable for WriteExecute {
    proof fn grants_write(&self) {
        assert((2i32 | 4i32) & 2i32 != 0i32) by (bit_vector);
    }
}

impl Executable for WriteExecute {
    proof fn grants_execute(&self) {
        assert((2i32 | 4i32) & 4i32 != 0i32) by (bit_vector);
    }
}

/// Grants read, write and execute access.
#[derive(Debug)]
pub struct ReadWriteExecute;

impl Type for ReadWriteExecute {
    open spec fn prot(&self) -> i32 {
        PROT_READ | PROT_WRITE | PROT_EXEC
    }

    fn perms(self) -> i32 {
        PROT_READ | PROT_WRITE | PROT_EXEC
    }
}

impl Known for ReadWriteExecute {
    proof fn fixed(a: &Self, b: &Self) {
    }
}

impl Readable for ReadWriteExecute {
    proof fn grants_read(&self) {
        assert((1i32 | 2i32 | 4i32) & 1i32 != 0i32) by (bit_vector);
    }
}

impl Writeable for ReadWriteExecute {
    proof fn grants_write(&self) {
        assert((1i32 | 2i32 | 4i32) & 2i32 != 0i32) by (bit_vector);
    }
}

impl Executable for ReadWriteExecute {
    proof fn grants_execute(&self) {
        assert((1i32 | 2i32 | 4i32) & 4i32 != 0i32) by (bit_vector);
    }
}

/// A capability known only at run time.
///
/// The wrapped value is trusted to be a valid protection mask for the
/// platform; an invalid mask surfaces as a failure reported by the
/// mapping primitive at the point of use, never earlier.
pub struct Unknown(pub i32);

impl Type for Unknown {
    open spec fn prot(&self) -> i32 {
        self.0
    }

    fn perms(self) -> i32 {
        self.0
    }
}

} // verus!
