//! What the operations on offsets and archived integers return, in terms of numbers and bytes.

use crate::offset::{Offset, OffsetError};
use crate::primitive::{
    ArchivedI16, ArchivedI32, ArchivedI64, ArchivedU16, ArchivedU32, ArchivedU64,
};
use vstd::prelude::*;

verus! {

/// What [`signed_offset`](crate::signed_offset) returns leads from the first position to the second.
/// It is an error exactly where no `isize` does.
pub proof fn law_signed_offset(from: usize, to: usize, r: Result<isize, OffsetError>)
    requires
        call_ensures(crate::offset::signed_offset, (from, to), r),
    ensures
        r matches Ok(distance) ==> from + distance == to,
        r is Ok <==> isize::MIN <= to - from <= isize::MAX,
        r matches Err(error) ==> error == OffsetError::IsizeOverflow,
{
}

/// The distance back is the opposite of the distance there.
pub proof fn law_signed_offset_back(
    from: usize,
    to: usize,
    there: Result<isize, OffsetError>,
    back: Result<isize, OffsetError>,
)
    requires
        call_ensures(crate::offset::signed_offset, (from, to), there),
        call_ensures(crate::offset::signed_offset, (to, from), back),
    ensures
        there matches Ok(a) ==> (back matches Ok(b) ==> a + b == 0),
        there matches Ok(a) ==> (back is Ok <==> a != isize::MIN),
{
}

/// A distance is in the range of `isize` if and only if an `isize` can be that number.
pub proof fn law_in_isize(distance: int)
    ensures
        crate::offset::in_isize(distance) <==> (distance as isize) as int == distance,
{
}

/// Wrapping around leads to a number of some `isize`, by whole turns, and leaves such a number as it
/// is.
pub proof fn law_wrapped_isize(n: int)
    ensures
        isize::MIN <= crate::offset::wrapped_isize(n) <= isize::MAX,
        (crate::offset::wrapped_isize(n) - n) % (usize::MAX + 1) == 0,
        isize::MIN <= n <= isize::MAX ==> crate::offset::wrapped_isize(n) == n,
{
    let size = usize::MAX + 1;
    let x = n + isize::MAX + 1;
    vstd::arithmetic::div_mod::lemma_mod_bound(x, size);
    vstd::arithmetic::div_mod::lemma_sub_mod_noop(x % size, x, size);
    vstd::arithmetic::div_mod::lemma_mod_twice(x, size);
    vstd::arithmetic::div_mod::lemma_small_mod(0, size as nat);
    assert((x % size - x) % size == 0);
}

/// An offset is created exactly where the distance is in the range of `isize` and the storage has
/// room for it, and stores that distance. Otherwise the error tells which of the two fails, the range
/// of `isize` first.
pub proof fn law_between<O: Offset>(from: usize, to: usize, r: Result<O, OffsetError>)
    requires
        call_ensures(O::between, (from, to), r),
    ensures
        r is Ok <==> isize::MIN <= to - from <= isize::MAX && O::holds(to - from),
        r matches Ok(offset) ==> from + offset.stored() == to,
        r == Err::<O, OffsetError>(OffsetError::IsizeOverflow) <==> !(isize::MIN <= to - from
            <= isize::MAX),
        r == Err::<O, OffsetError>(OffsetError::ExceedsStorageRange) <==> isize::MIN <= to - from
            <= isize::MAX && !O::holds(to - from),
{
}

/// An offset that was created between two positions, read as an `isize`, leads from the first
/// position to the second.
pub proof fn law_between_read_back<O: Offset>(from: usize, to: usize, offset: O, r: isize)
    requires
        call_ensures(O::between, (from, to), Ok::<O, OffsetError>(offset)),
        call_ensures(O::to_isize, (&offset,), r),
    ensures
        from + r == to,
{
}

/// An offset read as an `isize` is the number that it stores, by whole turns where that is out of
/// range.
pub proof fn law_to_isize<O: Offset>(offset: O, r: isize)
    requires
        call_ensures(O::to_isize, (&offset,), r),
    ensures
        isize::MIN <= offset.stored() <= isize::MAX ==> r == offset.stored(),
        (r - offset.stored()) % (usize::MAX + 1) == 0,
{
    law_wrapped_isize(offset.stored());
}

/// Attempts to emplace a pointer succeed exactly where the distance is in the range of `isize` and
/// the storage has room for it. Otherwise the error tells which of the two fails, the range of
/// `isize` first.
pub proof fn law_emplace_result<O: Offset>(from: usize, to: usize)
    ensures
        crate::offset::emplace_result::<O>(from, to) is Ok <==> isize::MIN <= to - from <= isize::MAX
            && O::holds(to - from),
        crate::offset::emplace_result::<O>(from, to) == Err::<(), OffsetError>(
            OffsetError::IsizeOverflow,
        ) <==> !(isize::MIN <= to - from <= isize::MAX),
        crate::offset::emplace_result::<O>(from, to) == Err::<(), OffsetError>(
            OffsetError::ExceedsStorageRange,
        ) <==> isize::MIN <= to - from <= isize::MAX && !O::holds(to - from),
{
}

/// Attempts to emplace a pointer return what creating the offset returns: they succeed together, and
/// fail with the same error.
pub proof fn law_emplace_result_is_that_of_between<O: Offset>(
    from: usize,
    to: usize,
    r: Result<O, OffsetError>,
)
    requires
        call_ensures(O::between, (from, to), r),
    ensures
        crate::offset::emplace_result::<O>(from, to) is Ok <==> r is Ok,
        r matches Err(error) ==> crate::offset::emplace_result::<O>(from, to) == Err::<
            (),
            OffsetError,
        >(error),
        r matches Ok(offset) ==> crate::offset::distance_between::<O>(from, to) == Ok::<
            int,
            OffsetError,
        >(offset.stored()),
        r matches Err(error) ==> crate::offset::distance_between::<O>(from, to) == Err::<
            int,
            OffsetError,
        >(error),
{
}

/// Each error is described by its own text.
pub proof fn law_message(error: OffsetError, r: String)
    requires
        call_ensures(OffsetError::message, (&error,), r),
    ensures
        error == OffsetError::IsizeOverflow ==> r@ == "the offset overflowed the range of `isize`"@,
        error == OffsetError::ExceedsStorageRange ==> r@
            == "the offset is too far for the offset type of the relative pointer"@,
{
}

/// The default archived `u32` has only zero bytes.
pub proof fn law_default_u32(r: ArchivedU32)
    requires
        call_ensures(<ArchivedU32 as Default>::default, (), r),
    ensures
        forall|i: int| 0 <= i < 4 ==> #[trigger] r.bytes@[i] == 0,
{
}

/// An `i8` has room for the distances from -128 to 127, and stores the number that it is.
pub proof fn law_i8_offset(distance: int, offset: i8)
    ensures
        <i8 as Offset>::holds(distance) <==> -128 <= distance <= 127,
        offset.stored() == offset,
{
}

/// An `u8` has room for the distances from 0 to 255, and stores the number that it is.
pub proof fn law_u8_offset(distance: int, offset: u8)
    ensures
        <u8 as Offset>::holds(distance) <==> 0 <= distance <= 255,
        offset.stored() == offset,
{
}

/// The number of an archived `u16` is the one that its bytes spell,
/// least significant byte first.
pub proof fn law_u16_number(archived: ArchivedU16)
    ensures
        archived@ == archived.bytes@[0] + 0x100 * archived.bytes@[1],
{
}

/// Archiving the native number writes the bytes that spell it,
/// least significant byte first.
pub proof fn law_u16_from_native(n: u16, r: ArchivedU16)
    requires
        call_ensures(ArchivedU16::from_native, (n,), r),
    ensures
        n == r.bytes@[0] + 0x100 * r.bytes@[1],
{
}

/// An archived `u16` is read as the number that its bytes spell,
/// least significant byte first.
pub proof fn law_u16_to_native(archived: ArchivedU16, r: u16)
    requires
        call_ensures(ArchivedU16::to_native, (archived,), r),
    ensures
        r == archived.bytes@[0] + 0x100 * archived.bytes@[1],
{
}

/// What was archived in the form of `u16` is read back.
pub proof fn law_u16_read_back(n: u16, archived: ArchivedU16, r: u16)
    requires
        call_ensures(ArchivedU16::from_native, (n,), archived),
        call_ensures(ArchivedU16::to_native, (archived,), r),
    ensures
        r == n,
{
}

/// An archived `u16` has room for the distances in the range of `u16`, and the number that it stores
/// is the one that its bytes spell.
pub proof fn law_u16_offset(distance: int, offset: ArchivedU16)
    ensures
        <ArchivedU16 as Offset>::holds(distance) <==> 0 <= distance
            <= 0xffff,
        offset.stored() == offset.bytes@[0] + 0x100 * offset.bytes@[1],
{
}

/// The number of an archived `u32` is the one that its bytes spell,
/// least significant byte first.
pub proof fn law_u32_number(archived: ArchivedU32)
    ensures
        archived@ == archived.bytes@[0]
            + 0x100 * archived.bytes@[1]
            + 0x1_0000 * archived.bytes@[2]
            + 0x100_0000 * archived.bytes@[3],
{
}

/// Archiving the native number writes the bytes that spell it,
/// least significant byte first.
pub proof fn law_u32_from_native(n: u32, r: ArchivedU32)
    requires
        call_ensures(ArchivedU32::from_native, (n,), r),
    ensures
        n == r.bytes@[0]
            + 0x100 * r.bytes@[1]
            + 0x1_0000 * r.bytes@[2]
            + 0x100_0000 * r.bytes@[3],
{
}

/// An archived `u32` is read as the number that its bytes spell,
/// least significant byte first.
pub proof fn law_u32_to_native(archived: ArchivedU32, r: u32)
    requires
        call_ensures(ArchivedU32::to_native, (archived,), r),
    ensures
        r == archived.bytes@[0]
            + 0x100 * archived.bytes@[1]
            + 0x1_0000 * archived.bytes@[2]
            + 0x100_0000 * archived.bytes@[3],
{
}

/// What was archived in the form of `u32` is read back.
pub proof fn law_u32_read_back(n: u32, archived: ArchivedU32, r: u32)
    requires
        call_ensures(ArchivedU32::from_native, (n,), archived),
        call_ensures(ArchivedU32::to_native, (archived,), r),
    ensures
        r == n,
{
}

/// An archived `u32` has room for the distances in the range of `u32`, and the number that it stores
/// is the one that its bytes spell.
pub proof fn law_u32_offset(distance: int, offset: ArchivedU32)
    ensures
        <ArchivedU32 as Offset>::holds(distance) <==> 0 <= distance
            <= 0xffff_ffff,
        offset.stored() == offset.bytes@[0]
            + 0x100 * offset.bytes@[1]
            + 0x1_0000 * offset.bytes@[2]
            + 0x100_0000 * offset.bytes@[3],
{
}

/// The number of an archived `u64` is the one that its bytes spell,
/// least significant byte first.
pub proof fn law_u64_number(archived: ArchivedU64)
    ensures
        archived@ == archived.bytes@[0]
            + 0x100 * archived.bytes@[1]
            + 0x1_0000 * archived.bytes@[2]
            + 0x100_0000 * archived.bytes@[3]
            + 0x1_0000_0000 * archived.bytes@[4]
            + 0x100_0000_0000 * archived.bytes@[5]
            + 0x1_0000_0000_0000 * archived.bytes@[6]
            + 0x100_0000_0000_0000 * archived.bytes@[7],
{
}

/// Archiving the native number writes the bytes that spell it,
/// least significant byte first.
pub proof fn law_u64_from_native(n: u64, r: ArchivedU64)
    requires
        call_ensures(ArchivedU64::from_native, (n,), r),
    ensures
        n == r.bytes@[0]
            + 0x100 * r.bytes@[1]
            + 0x1_0000 * r.bytes@[2]
            + 0x100_0000 * r.bytes@[3]
            + 0x1_0000_0000 * r.bytes@[4]
            + 0x100_0000_0000 * r.bytes@[5]
            + 0x1_0000_0000_0000 * r.bytes@[6]
            + 0x100_0000_0000_0000 * r.bytes@[7],
{
}

/// An archived `u64` is read as the number that its bytes spell,
/// least significant byte first.
pub proof fn law_u64_to_native(archived: ArchivedU64, r: u64)
    requires
        call_ensures(ArchivedU64::to_native, (archived,), r),
    ensures
        r == archived.bytes@[0]
            + 0x100 * archived.bytes@[1]
            + 0x1_0000 * archived.bytes@[2]
            + 0x100_0000 * archived.bytes@[3]
            + 0x1_0000_0000 * archived.bytes@[4]
            + 0x100_0000_0000 * archived.bytes@[5]
            + 0x1_0000_0000_0000 * archived.bytes@[6]
            + 0x100_0000_0000_0000 * archived.bytes@[7],
{
}

/// What was archived in the form of `u64` is read back.
pub proof fn law_u64_read_back(n: u64, archived: ArchivedU64, r: u64)
    requires
        call_ensures(ArchivedU64::from_native, (n,), archived),
        call_ensures(ArchivedU64::to_native, (archived,), r),
    ensures
        r == n,
{
}

/// An archived `u64` has room for the distances in the range of `u64`, and the number that it stores
/// is the one that its bytes spell.
pub proof fn law_u64_offset(distance: int, offset: ArchivedU64)
    ensures
        <ArchivedU64 as Offset>::holds(distance) <==> 0 <= distance
            <= 0xffff_ffff_ffff_ffff,
        offset.stored() == offset.bytes@[0]
            + 0x100 * offset.bytes@[1]
            + 0x1_0000 * offset.bytes@[2]
            + 0x100_0000 * offset.bytes@[3]
            + 0x1_0000_0000 * offset.bytes@[4]
            + 0x100_0000_0000 * offset.bytes@[5]
            + 0x1_0000_0000_0000 * offset.bytes@[6]
            + 0x100_0000_0000_0000 * offset.bytes@[7],
{
}

/// The number of an archived `i16` is the one that its bytes spell,
/// least significant byte first, in two's complement.
pub proof fn law_i16_number(archived: ArchivedI16)
    ensures
        archived@ == archived.bytes@[0] + 0x100 * archived.bytes@[1] - (if archived.bytes@[1] < 0x80 {
            0int
        } else {
            0x1_0000
        }),
{
}

/// Archiving the native number writes the bytes that spell it,
/// least significant byte first, in two's complement.
pub proof fn law_i16_from_native(n: i16, r: ArchivedI16)
    requires
        call_ensures(ArchivedI16::from_native, (n,), r),
    ensures
        n == r.bytes@[0] + 0x100 * r.bytes@[1] - (if r.bytes@[1] < 0x80 {
            0int
        } else {
            0x1_0000
        }),
{
}

/// An archived `i16` is read as the number that its bytes spell,
/// least significant byte first, in two's complement.
pub proof fn law_i16_to_native(archived: ArchivedI16, r: i16)
    requires
        call_ensures(ArchivedI16::to_native, (archived,), r),
    ensures
        r == archived.bytes@[0] + 0x100 * archived.bytes@[1] - (if archived.bytes@[1] < 0x80 {
            0int
        } else {
            0x1_0000
        }),
{
}

/// What was archived in the form of `i16` is read back.
pub proof fn law_i16_read_back(n: i16, archived: ArchivedI16, r: i16)
    requires
        call_ensures(ArchivedI16::from_native, (n,), archived),
        call_ensures(ArchivedI16::to_native, (archived,), r),
    ensures
        r == n,
{
}

/// An archived `i16` has room for the distances in the range of `i16`, and the number that it stores
/// is the one that its bytes spell.
pub proof fn law_i16_offset(distance: int, offset: ArchivedI16)
    ensures
        <ArchivedI16 as Offset>::holds(distance) <==> -0x8000 <= distance
            <= 0x7fff,
        offset.stored() == offset.bytes@[0] + 0x100 * offset.bytes@[1] - (if offset.bytes@[1] < 0x80 {
            0int
        } else {
            0x1_0000
        }),
{
}

/// The number of an archived `i32` is the one that its bytes spell,
/// least significant byte first, in two's complement.
pub proof fn law_i32_number(archived: ArchivedI32)
    ensures
        archived@ == archived.bytes@[0]
            + 0x100 * archived.bytes@[1]
            + 0x1_0000 * archived.bytes@[2]
            + 0x100_0000 * archived.bytes@[3] - (if archived.bytes@[3] < 0x80 {
            0int
        } else {
            0x1_0000_0000
        }),
{
}

/// Archiving the native number writes the bytes that spell it,
/// least significant byte first, in two's complement.
pub proof fn law_i32_from_native(n: i32, r: ArchivedI32)
    requires
        call_ensures(ArchivedI32::from_native, (n,), r),
    ensures
        n == r.bytes@[0]
            + 0x100 * r.bytes@[1]
            + 0x1_0000 * r.bytes@[2]
            + 0x100_0000 * r.bytes@[3] - (if r.bytes@[3] < 0x80 {
            0int
        } else {
            0x1_0000_0000
        }),
{
}

/// An archived `i32` is read as the number that its bytes spell,
/// least significant byte first, in two's complement.
pub proof fn law_i32_to_native(archived: ArchivedI32, r: i32)
    requires
        call_ensures(ArchivedI32::to_native, (archived,), r),
    ensures
        r == archived.bytes@[0]
            + 0x100 * archived.bytes@[1]
            + 0x1_0000 * archived.bytes@[2]
            + 0x100_0000 * archived.bytes@[3] - (if archived.bytes@[3] < 0x80 {
            0int
        } else {
            0x1_0000_0000
        }),
{
}

/// What was archived in the form of `i32` is read back.
pub proof fn law_i32_read_back(n: i32, archived: ArchivedI32, r: i32)
    requires
        call_ensures(ArchivedI32::from_native, (n,), archived),
        call_ensures(ArchivedI32::to_native, (archived,), r),
    ensures
        r == n,
{
}

/// An archived `i32` has room for the distances in the range of `i32`, and the number that it stores
/// is the one that its bytes spell.
pub proof fn law_i32_offset(distance: int, offset: ArchivedI32)
    ensures
        <ArchivedI32 as Offset>::holds(distance) <==> -0x8000_0000 <= distance
            <= 0x7fff_ffff,
        offset.stored() == offset.bytes@[0]
            + 0x100 * offset.bytes@[1]
            + 0x1_0000 * offset.bytes@[2]
            + 0x100_0000 * offset.bytes@[3] - (if offset.bytes@[3] < 0x80 {
            0int
        } else {
            0x1_0000_0000
        }),
{
}

/// The number of an archived `i64` is the one that its bytes spell,
/// least significant byte first, in two's complement.
pub proof fn law_i64_number(archived: ArchivedI64)
    ensures
        archived@ == archived.bytes@[0]
            + 0x100 * archived.bytes@[1]
            + 0x1_0000 * archived.bytes@[2]
            + 0x100_0000 * archived.bytes@[3]
            + 0x1_0000_0000 * archived.bytes@[4]
            + 0x100_0000_0000 * archived.bytes@[5]
            + 0x1_0000_0000_0000 * archived.bytes@[6]
            + 0x100_0000_0000_0000 * archived.bytes@[7] - (if archived.bytes@[7] < 0x80 {
            0int
        } else {
            0x1_0000_0000_0000_0000
        }),
{
}

/// Archiving the native number writes the bytes that spell it,
/// least significant byte first, in two's complement.
pub proof fn law_i64_from_native(n: i64, r: ArchivedI64)
    requires
        call_ensures(ArchivedI64::from_native, (n,), r),
    ensures
        n == r.bytes@[0]
            + 0x100 * r.bytes@[1]
            + 0x1_0000 * r.bytes@[2]
            + 0x100_0000 * r.bytes@[3]
            + 0x1_0000_0000 * r.bytes@[4]
            + 0x100_0000_0000 * r.bytes@[5]
            + 0x1_0000_0000_0000 * r.bytes@[6]
            + 0x100_0000_0000_0000 * r.bytes@[7] - (if r.bytes@[7] < 0x80 {
            0int
        } else {
            0x1_0000_0000_0000_0000
        }),
{
}

/// An archived `i64` is read as the number that its bytes spell,
/// least significant byte first, in two's complement.
pub proof fn law_i64_to_native(archived: ArchivedI64, r: i64)
    requires
        call_ensures(ArchivedI64::to_native, (archived,), r),
    ensures
        r == archived.bytes@[0]
            + 0x100 * archived.bytes@[1]
            + 0x1_0000 * archived.bytes@[2]
            + 0x100_0000 * archived.bytes@[3]
            + 0x1_0000_0000 * archived.bytes@[4]
            + 0x100_0000_0000 * archived.bytes@[5]
            + 0x1_0000_0000_0000 * archived.bytes@[6]
            + 0x100_0000_0000_0000 * archived.bytes@[7] - (if archived.bytes@[7] < 0x80 {
            0int
        } else {
            0x1_0000_0000_0000_0000
        }),
{
}

/// What was archived in the form of `i64` is read back.
pub proof fn law_i64_read_back(n: i64, archived: ArchivedI64, r: i64)
    requires
        call_ensures(ArchivedI64::from_native, (n,), archived),
        call_ensures(ArchivedI64::to_native, (archived,), r),
    ensures
        r == n,
{
}

/// An archived `i64` has room for the distances in the range of `i64`, and the number that it stores
/// is the one that its bytes spell.
pub proof fn law_i64_offset(distance: int, offset: ArchivedI64)
    ensures
        <ArchivedI64 as Offset>::holds(distance) <==> -0x8000_0000_0000_0000 <= distance
            <= 0x7fff_ffff_ffff_ffff,
        offset.stored() == offset.bytes@[0]
            + 0x100 * offset.bytes@[1]
            + 0x1_0000 * offset.bytes@[2]
            + 0x100_0000 * offset.bytes@[3]
            + 0x1_0000_0000 * offset.bytes@[4]
            + 0x100_0000_0000 * offset.bytes@[5]
            + 0x1_0000_0000_0000 * offset.bytes@[6]
            + 0x100_0000_0000_0000 * offset.bytes@[7] - (if offset.bytes@[7] < 0x80 {
            0int
        } else {
            0x1_0000_0000_0000_0000
        }),
{
}

} // verus!
