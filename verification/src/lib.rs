//! A safety layer over the raw virtual-memory mapping primitives.
//!
//! A mapping is requested through a staged builder (size, then placement,
//! then backing source, then capability), which validates every parameter
//! combination before the single create call is issued.  The resulting
//! [`Mapping`] owns its address range: the operations that change it
//! (re-protect, re-map, split) consume the old handle and either produce
//! replacements or hand the old handle back untouched inside an [`Error`],
//! so a region is never released twice and never leaked.
//!
//! The privileged calls themselves (create, destroy, change protection,
//! query the page size) cannot be verified and are not made here: this
//! crate computes and checks their arguments, and an unverified shell
//! issues them and reports each outcome back.

pub mod builder;
pub mod error;
pub mod mapping;
pub mod perms;

pub use builder::Address;
pub use builder::Builder;
pub use builder::Destination;
pub use builder::MapRequest;
pub use builder::Size;
pub use builder::Source;
pub use builder::Stage;
pub use error::Error;
pub use error::OsError;
pub use mapping::Kind;
pub use mapping::Mapping;
pub use mapping::Private;
pub use mapping::Safe;
pub use mapping::Shared;
pub use perms::Executable;
pub use perms::Known;
pub use perms::Readable;
pub use perms::Type;
pub use perms::Writeable;
