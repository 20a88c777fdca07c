//! Relative pointers: pointers that are stored as a distance from the place where they stand.
//!
//! An archive is a sequence of bytes whose values point to each other. It can be written at one
//! address and read at another, because each pointer in it stores how far away its target is, and
//! not where. [`RawRelPtr`] is such a pointer, [`RelPtr`] adds the metadata of what it points to,
//! and [`Offset`] is implemented by the types that can store a distance.

pub mod laws;
pub mod offset;
pub mod offset_laws;
pub mod pointee;
pub mod pointer_laws;
pub mod primitive;
pub mod raw_rel_ptr;
pub mod rel_ptr;

pub use offset::{signed_offset, Offset, OffsetError};
pub use pointee::{ArchivePointee, ArchiveUnsized, RawParts};
pub use raw_rel_ptr::{
    RawRelPtr, RawRelPtrI16, RawRelPtrI32, RawRelPtrI64, RawRelPtrI8, RawRelPtrU16, RawRelPtrU32,
    RawRelPtrU64, RawRelPtrU8, RelPtrError,
};
pub use rel_ptr::{FieldPositions, Layout, Packed, RelPtr};
