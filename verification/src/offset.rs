//! Offsets: the distance between two positions, in the types that can store one.

use crate::primitive::{
    ArchivedI16, ArchivedI32, ArchivedI64, ArchivedU16, ArchivedU32, ArchivedU64,
};
use vstd::prelude::*;

verus! {

/// An error where the distance between two positions cannot be represented by the offset type.
#[derive(Clone, Copy, Debug, PartialEq, Eq, Structural)]
pub enum OffsetError {
    /// The offset overflowed the range of `isize`
    IsizeOverflow,
    /// The offset is too far for the offset type of the relative pointer
    ExceedsStorageRange,
}

impl OffsetError {
    /// The text that describes the error.
    pub open spec fn spec_message(self) -> Seq<char> {
        match self {
            OffsetError::IsizeOverflow => "the offset overflowed the range of `isize`"@,
            OffsetError::ExceedsStorageRange =>
                "the offset is too far for the offset type of the relative pointer"@,
        }
    }

    /// Describes the error in words.
    pub fn message(&self) -> (r: String)
        ensures
            r@ == self.spec_message(),
    {
        match self {
            OffsetError::IsizeOverflow => "the offset overflowed the range of `isize`".to_owned(),
            OffsetError::ExceedsStorageRange =>
                "the offset is too far for the offset type of the relative pointer".to_owned(),
        }
    }
}

/// Whether a distance is in the range of `isize`.
pub open spec fn in_isize(distance: int) -> bool {
    isize::MIN <= distance <= isize::MAX
}

/// The number that `n` comes to when it wraps around at the ends of the range of `isize`.
pub open spec fn wrapped_isize(n: int) -> int {
    if in_isize(n) {
        n
    } else {
        (n + isize::MAX + 1) % (usize::MAX + 1) - isize::MAX - 1
    }
}

/// Calculates the offset between two positions as an `isize`.
///
/// This function exists solely to get the distance between two `usizes` as an `isize` with a full
/// range of values.
///
/// # Examples
///
/// ```
/// use rel_ptr::{signed_offset, OffsetError};
///
/// assert_eq!(signed_offset(0, 1), Ok(1));
/// assert_eq!(signed_offset(1, 0), Ok(-1));
/// assert_eq!(signed_offset(0, isize::MAX as usize), Ok(isize::MAX));
/// assert_eq!(signed_offset(isize::MAX as usize, 0), Ok(-isize::MAX));
/// assert_eq!(signed_offset(0, isize::MAX as usize + 1), Err(OffsetError::IsizeOverflow));
/// assert_eq!(signed_offset(isize::MAX as usize + 1, 0), Ok(isize::MIN));
/// assert_eq!(signed_offset(0, isize::MAX as usize + 2), Err(OffsetError::IsizeOverflow));
/// assert_eq!(signed_offset(isize::MAX as usize + 2, 0), Err(OffsetError::IsizeOverflow));
/// ```
pub fn signed_offset(from: usize, to: usize) -> (r: Result<isize, OffsetError>)
    ensures
        r == (if in_isize(to - from) {
            Ok::<isize, OffsetError>((to - from) as isize)
        } else {
            Err(OffsetError::IsizeOverflow)
        }),
{
    let result: usize = to.wrapping_sub(from);
    let overflow: bool = to < from;
    let lowest: usize = #[verifier::truncate]
    (isize::MIN as usize);
    proof {
        lemma_isize_as_usize(isize::MIN);
        lemma_usize_as_isize(result);
    }
    if (!overflow && result <= (isize::MAX as usize)) || (overflow && result >= lowest) {
        Ok(#[verifier::truncate]
        (result as isize))
    } else {
        Err(OffsetError::IsizeOverflow)
    }
}

/// An offset that can be used with [`RawRelPtr`](crate::RawRelPtr).
pub trait Offset: Copy {
    /// Whether the storage of this type has room for a distance.
    spec fn holds(distance: int) -> bool;

    /// The number that is stored in this offset.
    spec fn stored(self) -> int;

    /// Creates a new offset between a `from` position and a `to` position.
    fn between(from: usize, to: usize) -> (r: Result<Self, OffsetError>)
        ensures
            match r {
                Ok(offset) => {
                    &&& in_isize(to - from)
                    &&& Self::holds(to - from)
                    &&& offset.stored() == to - from
                },
                Err(OffsetError::IsizeOverflow) => !in_isize(to - from),
                Err(OffsetError::ExceedsStorageRange) => {
                    &&& in_isize(to - from)
                    &&& !Self::holds(to - from)
                },
            },
    ;

    /// Gets the offset as an `isize`.
    ///
    /// A stored number outside the range of `isize`, which no offset between two positions has,
    /// wraps around.
    fn to_isize(&self) -> (r: isize)
        ensures
            r == wrapped_isize(self.stored()),
    ;
}

/// What comes of creating an offset of type `O` between two positions: the distance that it
/// stores, or the error.
pub open spec fn distance_between<O: Offset>(from: usize, to: usize) -> Result<int, OffsetError> {
    if !in_isize(to - from) {
        Err(OffsetError::IsizeOverflow)
    } else if !O::holds(to - from) {
        Err(OffsetError::ExceedsStorageRange)
    } else {
        Ok(to - from)
    }
}

/// What an attempt to emplace a pointer with an offset of type `O` between two positions returns.
pub open spec fn emplace_result<O: Offset>(from: usize, to: usize) -> Result<(), OffsetError> {
    match distance_between::<O>(from, to) {
        Ok(_) => Ok(()),
        Err(error) => Err(error),
    }
}

impl Offset for i8 {
    open spec fn holds(distance: int) -> bool {
        i8::MIN <= distance <= i8::MAX
    }

    open spec fn stored(self) -> int {
        self as int
    }

    fn between(from: usize, to: usize) -> (r: Result<Self, OffsetError>) {
        match signed_offset(from, to) {
            Ok(distance) => match i8::try_from(distance) {
                Ok(offset) => Ok(offset),
                Err(_) => Err(OffsetError::ExceedsStorageRange),
            },
            Err(error) => Err(error),
        }
    }

    fn to_isize(&self) -> (r: isize) {
        *self as isize
    }
}

impl Offset for u8 {
    open spec fn holds(distance: int) -> bool {
        u8::MIN <= distance <= u8::MAX
    }

    open spec fn stored(self) -> int {
        self as int
    }

    fn between(from: usize, to: usize) -> (r: Result<Self, OffsetError>) {
        match signed_offset(from, to) {
            Ok(distance) => match u8::try_from(distance) {
                Ok(offset) => Ok(offset),
                Err(_) => Err(OffsetError::ExceedsStorageRange),
            },
            Err(error) => Err(error),
        }
    }

    fn to_isize(&self) -> (r: isize) {
        *self as isize
    }
}

impl Offset for ArchivedI16 {
    open spec fn holds(distance: int) -> bool {
        i16::MIN <= distance <= i16::MAX
    }

    open spec fn stored(self) -> int {
        self@
    }

    fn between(from: usize, to: usize) -> (r: Result<Self, OffsetError>) {
        match signed_offset(from, to) {
            Ok(distance) => match i16::try_from(distance) {
                Ok(offset) => Ok(ArchivedI16::from_native(offset)),
                Err(_) => Err(OffsetError::ExceedsStorageRange),
            },
            Err(error) => Err(error),
        }
    }

    fn to_isize(&self) -> (r: isize) {
        self.to_native() as isize
    }
}

impl Offset for ArchivedI32 {
    open spec fn holds(distance: int) -> bool {
        i32::MIN <= distance <= i32::MAX
    }

    open spec fn stored(self) -> int {
        self@
    }

    fn between(from: usize, to: usize) -> (r: Result<Self, OffsetError>) {
        match signed_offset(from, to) {
            Ok(distance) => match i32::try_from(distance) {
                Ok(offset) => Ok(ArchivedI32::from_native(offset)),
                Err(_) => Err(OffsetError::ExceedsStorageRange),
            },
            Err(error) => Err(error),
        }
    }

    fn to_isize(&self) -> (r: isize) {
        self.to_native() as isize
    }
}

impl Offset for ArchivedI64 {
    open spec fn holds(distance: int) -> bool {
        i64::MIN <= distance <= i64::MAX
    }

    open spec fn stored(self) -> int {
        self@
    }

    fn between(from: usize, to: usize) -> (r: Result<Self, OffsetError>) {
        match signed_offset(from, to) {
            Ok(distance) => match i64::try_from(distance) {
                Ok(offset) => Ok(ArchivedI64::from_native(offset)),
                Err(_) => Err(OffsetError::ExceedsStorageRange),
            },
            Err(error) => Err(error),
        }
    }

    fn to_isize(&self) -> (r: isize) {
        let native: i64 = self.to_native();
        proof {
            let top = usize::MAX;
            assert(top <= !0usize) by (bit_vector);
            assert((native - (native as isize)) % (!0usize + 1) == 0) by (bit_vector);
            lemma_congruent_isize(native as int, native as isize);
        }
        #[verifier::truncate]
        (native as isize)
    }
}

impl Offset for ArchivedU16 {
    open spec fn holds(distance: int) -> bool {
        u16::MIN <= distance <= u16::MAX
    }

    open spec fn stored(self) -> int {
        self@
    }

    fn between(from: usize, to: usize) -> (r: Result<Self, OffsetError>) {
        match signed_offset(from, to) {
            Ok(distance) => match u16::try_from(distance) {
                Ok(offset) => Ok(ArchivedU16::from_native(offset)),
                Err(_) => Err(OffsetError::ExceedsStorageRange),
            },
            Err(error) => Err(error),
        }
    }

    fn to_isize(&self) -> (r: isize) {
        self.to_native() as isize
    }
}

impl Offset for ArchivedU32 {
    open spec fn holds(distance: int) -> bool {
        u32::MIN <= distance <= u32::MAX
    }

    open spec fn stored(self) -> int {
        self@
    }

    fn between(from: usize, to: usize) -> (r: Result<Self, OffsetError>) {
        match signed_offset(from, to) {
            Ok(distance) => match u32::try_from(distance) {
                Ok(offset) => Ok(ArchivedU32::from_native(offset)),
                Err(_) => Err(OffsetError::ExceedsStorageRange),
            },
            Err(error) => Err(error),
        }
    }

    fn to_isize(&self) -> (r: isize) {
        let native: u32 = self.to_native();
        proof {
            let top = usize::MAX;
            assert(top <= !0usize) by (bit_vector);
            assert((native - (native as isize)) % (!0usize + 1) == 0) by (bit_vector);
            lemma_congruent_isize(native as int, native as isize);
        }
        #[verifier::truncate]
        (native as isize)
    }
}

impl Offset for ArchivedU64 {
    open spec fn holds(distance: int) -> bool {
        u64::MIN <= distance <= u64::MAX
    }

    open spec fn stored(self) -> int {
        self@
    }

    fn between(from: usize, to: usize) -> (r: Result<Self, OffsetError>) {
        match signed_offset(from, to) {
            Ok(distance) => match u64::try_from(distance) {
                Ok(offset) => Ok(ArchivedU64::from_native(offset)),
                Err(_) => Err(OffsetError::ExceedsStorageRange),
            },
            Err(error) => Err(error),
        }
    }

    fn to_isize(&self) -> (r: isize) {
        let native: u64 = self.to_native();
        proof {
            let top = usize::MAX;
            assert(top <= !0usize) by (bit_vector);
            assert((native - (native as isize)) % (!0usize + 1) == 0) by (bit_vector);
            lemma_congruent_isize(native as int, native as isize);
        }
        #[verifier::truncate]
        (native as isize)
    }
}

/// An `isize` that is apart from `n` by a multiple of the number of `usize` values is what `n` wraps
/// around to.
proof fn lemma_congruent_isize(n: int, t: isize)
    requires
        (n - t) % (usize::MAX + 1) == 0,
    ensures
        wrapped_isize(n) == t,
{
    let size = usize::MAX + 1;
    let half = isize::MAX + 1;
    vstd::arithmetic::div_mod::lemma_mod_equivalence(n + half, t + half, size);
    vstd::arithmetic::div_mod::lemma_small_mod((t + half) as nat, size as nat);
    if in_isize(n) {
        vstd::arithmetic::div_mod::lemma_small_mod((n + half) as nat, size as nat);
    }
}

/// Casting an `isize` to `usize` adds the number of `usize` values to a negative one.
proof fn lemma_isize_as_usize(x: isize)
    ensures
        x as usize == (if x < 0 {
            x + usize::MAX + 1
        } else {
            x as int
        }),
{
    let top = usize::MAX;
    assert(top <= !0usize) by (bit_vector);
    assert(x < 0 ==> x as usize == x + !0usize + 1) by (bit_vector);
}

/// Casting a `usize` to `isize` subtracts the number of `usize` values from one that is too large.
proof fn lemma_usize_as_isize(x: usize)
    ensures
        x as isize == (if x > isize::MAX {
            x - usize::MAX - 1
        } else {
            x as int
        }),
{
    let top = usize::MAX;
    assert(top <= !0usize) by (bit_vector);
    assert(x as isize == x || x as isize == x - !0usize - 1) by (bit_vector);
}

} // verus!
