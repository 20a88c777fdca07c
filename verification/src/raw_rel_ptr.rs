//! The untyped relative pointer.

use crate::offset::{Offset, OffsetError};
use crate::primitive::{
    ArchivedI16, ArchivedI32, ArchivedI64, ArchivedU16, ArchivedU32, ArchivedU64,
};
use vstd::prelude::*;

verus! {

/// Errors that can occur while creating raw relative pointers.
#[derive(Debug)]
pub enum RelPtrError {
    /// The given `from` and `to` positions for the relative pointer failed to form a valid offset.
    ///
    /// This is probably because the distance between them could not be represented by the offset
    /// type.
    OffsetError,
}

/// The address that a number comes to when it wraps around at the end of the address space.
pub open spec fn wrapped_address(n: int) -> int {
    n % (usize::MAX + 1)
}

/// A number less than one turn outside the address space wraps around once.
pub(crate) proof fn lemma_wrapped_once(n: int)
    requires
        -usize::MAX - 1 <= n <= 2 * usize::MAX + 1,
    ensures
        wrapped_address(n) == (if n < 0 {
            n + usize::MAX + 1
        } else if n > usize::MAX {
            n - usize::MAX - 1
        } else {
            n
        }),
{
    let size = usize::MAX + 1;
    if n < 0 {
        vstd::arithmetic::div_mod::lemma_mod_add_multiples_vanish(n, size);
        vstd::arithmetic::div_mod::lemma_small_mod((n + size) as nat, size as nat);
    } else if n > usize::MAX {
        vstd::arithmetic::div_mod::lemma_mod_sub_multiples_vanish(n, size);
        vstd::arithmetic::div_mod::lemma_small_mod((n - size) as nat, size as nat);
    } else {
        vstd::arithmetic::div_mod::lemma_small_mod(n as nat, size as nat);
    }
}

/// An untyped pointer which resolves relative to its position in memory.
///
/// Only the offset is part of the pointer's own bytes. The address at which those bytes stand
/// comes with the value, so that the pointer can be resolved.
///
/// Relative pointers can be relocated as long as the pointer and its target are moved together. If
/// either of them moves independently, the pointer is invalidated.
pub struct RawRelPtr<O> {
    address: usize,
    offset: O,
}

impl<O: Offset> RawRelPtr<O> {
    /// The address at which the pointer stands.
    pub closed spec fn spec_base(&self) -> usize {
        self.address
    }

    /// The offset in the form in which it is stored.
    pub closed spec fn spec_stored_offset(&self) -> O {
        self.offset
    }

    /// The stored offset as an `isize`.
    pub open spec fn spec_offset(&self) -> isize {
        crate::offset::wrapped_isize(self.stored_offset().stored()) as isize
    }

    /// Whether the offset is 0.
    pub open spec fn spec_is_null(&self) -> bool {
        self.offset() == 0
    }

    /// The address that the pointer resolves to, wrapped around at the ends of the address space.
    pub open spec fn target(&self) -> int {
        wrapped_address(self.base() + self.offset())
    }

    /// What an attempt to emplace a pointer between `from` and `to` makes of the pointer `before`:
    /// its offset becomes the one that `O` creates between the two positions, which is the
    /// distance, and its place stays; or, where no offset of type `O` is that far, it stays as it
    /// is.
    pub open spec fn emplaced(from: usize, to: usize, before: Self, after: Self) -> bool {
        match crate::offset::distance_between::<O>(from, to) {
            Ok(distance) => {
                &&& after.base() == before.base()
                &&& after.stored_offset().stored() == distance
                &&& call_ensures(
                    O::between,
                    (from, to),
                    Ok::<O, OffsetError>(after.stored_offset()),
                )
            },
            Err(_) => after == before,
        }
    }

    /// The relative pointer that stands at `address` and stores `offset`.
    pub fn at(address: usize, offset: O) -> (r: Self)
        ensures
            r.base() == address,
            r.stored_offset() == offset,
    {
        RawRelPtr { address, offset }
    }

    /// Gets the offset in the form in which it is stored.
    #[verifier::when_used_as_spec(spec_stored_offset)]
    pub fn stored_offset(&self) -> (r: O)
        ensures
            r == self.stored_offset(),
    {
        self.offset
    }

    /// Attempts to create a new `RawRelPtr` in-place between the given `from` and `to` positions.
    ///
    /// `out` is the pointer at position `from`.
    pub fn try_emplace(from: usize, to: usize, out: &mut Self) -> (r: Result<(), OffsetError>)
        ensures
            r == crate::offset::emplace_result::<O>(from, to),
            Self::emplaced(from, to, *old(out), *final(out)),
    {
        match O::between(from, to) {
            Ok(offset) => {
                out.offset = offset;
                Ok(())
            },
            Err(error) => Err(error),
        }
    }

    /// Creates a new `RawRelPtr` in-place between the given `from` and `to` positions.
    ///
    /// `out` is the pointer at position `from`. The offset between `from` and `to` must fit in an
    /// `isize` and not exceed the offset storage.
    pub fn emplace(from: usize, to: usize, out: &mut Self)
        requires
            crate::offset::emplace_result::<O>(from, to) is Ok,
        ensures
            Self::emplaced(from, to, *old(out), *final(out)),
    {
        Self::try_emplace(from, to, out).unwrap();
    }

    /// Gets the base address of the relative pointer.
    #[verifier::when_used_as_spec(spec_base)]
    pub fn base(&self) -> (r: usize)
        ensures
            r == self.base(),
    {
        self.address
    }

    /// Gets the offset of the relative pointer from its base.
    #[verifier::when_used_as_spec(spec_offset)]
    pub fn offset(&self) -> (r: isize)
        ensures
            r == self.offset(),
    {
        self.offset.to_isize()
    }

    /// Gets whether the offset of the relative pointer is 0.
    #[verifier::when_used_as_spec(spec_is_null)]
    pub fn is_null(&self) -> (r: bool)
        ensures
            r == self.is_null(),
    {
        self.offset() == 0
    }

    /// Calculates the memory address being pointed to by this relative pointer.
    ///
    /// The offset of this relative pointer, when added to its base, must not leave the address
    /// space.
    pub fn as_ptr(&self) -> (r: usize)
        requires
            0 <= self.base() + self.offset() <= usize::MAX,
        ensures
            r == self.base() + self.offset(),
    {
        self.base().checked_add_signed(self.offset()).unwrap()
    }

    /// Calculates the memory address being pointed to by this relative pointer using wrapping
    /// methods.
    pub fn as_ptr_wrapping(&self) -> (r: usize)
        ensures
            r == self.target(),
            0 <= self.base() + self.offset() <= usize::MAX ==> r == self.base()
                + self.offset(),
    {
        proof {
            lemma_wrapped_once(self.base() + self.offset());
        }
        self.base().wrapping_add_signed(self.offset())
    }
}

/// A raw relative pointer that uses an archived `i8` as the underlying offset.
pub type RawRelPtrI8 = RawRelPtr<i8>;

/// A raw relative pointer that uses an archived `i16` as the underlying offset.
pub type RawRelPtrI16 = RawRelPtr<ArchivedI16>;

/// A raw relative pointer that uses an archived `i32` as the underlying offset.
pub type RawRelPtrI32 = RawRelPtr<ArchivedI32>;

/// A raw relative pointer that uses an archived `i64` as the underlying offset.
pub type RawRelPtrI64 = RawRelPtr<ArchivedI64>;

/// A raw relative pointer that uses an archived `u8` as the underlying offset.
pub type RawRelPtrU8 = RawRelPtr<u8>;

/// A raw relative pointer that uses an archived `u16` as the underlying offset.
pub type RawRelPtrU16 = RawRelPtr<ArchivedU16>;

/// A raw relative pointer that uses an archived `u32` as the underlying offset.
pub type RawRelPtrU32 = RawRelPtr<ArchivedU32>;

/// A raw relative pointer that uses an archived `u64` as the underlying offset.
pub type RawRelPtrU64 = RawRelPtr<ArchivedU64>;

} // verus!
