use rel_ptr::primitive::{
    ArchivedI16, ArchivedI32, ArchivedI64, ArchivedU16, ArchivedU32, ArchivedU64,
};
use rel_ptr::{signed_offset, Offset, OffsetError};

const ISIZE_MAX: usize = isize::MAX as usize;

#[test]
fn signed_offset_examples() {
    assert_eq!(signed_offset(0, 1), Ok(1));
    assert_eq!(signed_offset(1, 0), Ok(-1));
    assert_eq!(signed_offset(0, ISIZE_MAX), Ok(isize::MAX));
    assert_eq!(signed_offset(ISIZE_MAX, 0), Ok(-isize::MAX));
    assert_eq!(signed_offset(0, ISIZE_MAX + 1), Err(OffsetError::IsizeOverflow));
    assert_eq!(signed_offset(ISIZE_MAX + 1, 0), Ok(isize::MIN));
    assert_eq!(signed_offset(0, ISIZE_MAX + 2), Err(OffsetError::IsizeOverflow));
    assert_eq!(signed_offset(ISIZE_MAX + 2, 0), Err(OffsetError::IsizeOverflow));
}

#[test]
fn signed_offset_at_the_far_end() {
    assert_eq!(signed_offset(usize::MAX, usize::MAX), Ok(0));
    assert_eq!(signed_offset(usize::MAX, usize::MAX - 7), Ok(-7));
    assert_eq!(signed_offset(ISIZE_MAX + 1, usize::MAX), Ok(isize::MAX));
    assert_eq!(signed_offset(usize::MAX, ISIZE_MAX), Ok(isize::MIN));
    assert_eq!(signed_offset(0, usize::MAX), Err(OffsetError::IsizeOverflow));
    assert_eq!(signed_offset(usize::MAX, 0), Err(OffsetError::IsizeOverflow));
}

fn distance<O: Offset>(from: usize, to: usize) -> Result<isize, OffsetError> {
    match O::between(from, to) {
        Ok(offset) => Ok(offset.to_isize()),
        Err(error) => Err(error),
    }
}

#[test]
fn single_byte_offsets() {
    assert_eq!(distance::<i8>(1000, 1127), Ok(127));
    assert_eq!(distance::<i8>(1000, 1128), Err(OffsetError::ExceedsStorageRange));
    assert_eq!(distance::<i8>(1000, 872), Ok(-128));
    assert_eq!(distance::<i8>(1000, 871), Err(OffsetError::ExceedsStorageRange));
    assert_eq!(distance::<u8>(1000, 1255), Ok(255));
    assert_eq!(distance::<u8>(1000, 1256), Err(OffsetError::ExceedsStorageRange));
    assert_eq!(distance::<u8>(1000, 1000), Ok(0));
    assert_eq!(distance::<u8>(1000, 999), Err(OffsetError::ExceedsStorageRange));
    assert_eq!(i8::between(5, 2), Ok(-3));
    assert_eq!(u8::between(5, 205), Ok(200));
}

#[test]
fn two_byte_offsets() {
    assert_eq!(distance::<ArchivedI16>(40000, 72767), Ok(32767));
    assert_eq!(distance::<ArchivedI16>(40000, 72768), Err(OffsetError::ExceedsStorageRange));
    assert_eq!(distance::<ArchivedI16>(40000, 7232), Ok(-32768));
    assert_eq!(distance::<ArchivedI16>(40000, 7231), Err(OffsetError::ExceedsStorageRange));
    assert_eq!(distance::<ArchivedU16>(0, 65535), Ok(65535));
    assert_eq!(distance::<ArchivedU16>(0, 65536), Err(OffsetError::ExceedsStorageRange));
    assert_eq!(distance::<ArchivedU16>(1, 0), Err(OffsetError::ExceedsStorageRange));
}

#[test]
fn four_byte_offsets() {
    let base: usize = 0x8000_0000;
    assert_eq!(distance::<ArchivedI32>(0, 0x7fff_ffff), Ok(0x7fff_ffff));
    assert_eq!(distance::<ArchivedI32>(0, base), Err(OffsetError::ExceedsStorageRange));
    assert_eq!(distance::<ArchivedI32>(base, 0), Ok(-0x8000_0000));
    assert_eq!(distance::<ArchivedI32>(base + 1, 0), Err(OffsetError::ExceedsStorageRange));
    assert_eq!(distance::<ArchivedU32>(0, 0xffff_ffff), Ok(0xffff_ffff));
    assert_eq!(distance::<ArchivedU32>(0, 0x1_0000_0000), Err(OffsetError::ExceedsStorageRange));
    assert_eq!(distance::<ArchivedU32>(1, 0), Err(OffsetError::ExceedsStorageRange));
}

#[test]
fn eight_byte_offsets() {
    assert_eq!(distance::<ArchivedI64>(0, ISIZE_MAX), Ok(isize::MAX));
    assert_eq!(distance::<ArchivedI64>(ISIZE_MAX + 1, 0), Ok(isize::MIN));
    assert_eq!(distance::<ArchivedI64>(0, ISIZE_MAX + 1), Err(OffsetError::IsizeOverflow));
    assert_eq!(distance::<ArchivedU64>(0, ISIZE_MAX), Ok(isize::MAX));
    assert_eq!(distance::<ArchivedU64>(0, ISIZE_MAX + 1), Err(OffsetError::IsizeOverflow));
    assert_eq!(distance::<ArchivedU64>(1, 0), Err(OffsetError::ExceedsStorageRange));
}

#[test]
fn isize_overflow_comes_before_the_storage_range() {
    assert_eq!(distance::<i8>(0, usize::MAX), Err(OffsetError::IsizeOverflow));
    assert_eq!(distance::<u8>(usize::MAX, 0), Err(OffsetError::IsizeOverflow));
    assert_eq!(distance::<ArchivedI32>(0, usize::MAX), Err(OffsetError::IsizeOverflow));
}

#[test]
fn stored_numbers_beyond_isize_are_truncated() {
    assert_eq!(ArchivedU64::from_native(u64::MAX).to_isize(), -1);
    assert_eq!(ArchivedU64::from_native(1u64 << 63).to_isize(), isize::MIN);
    assert_eq!(255u8.to_isize(), 255);
    assert_eq!((-128i8).to_isize(), -128);
}

#[test]
fn offsets_depend_on_the_distance_alone() {
    for shift in [0usize, 1, 255, 4096, 1 << 40] {
        assert_eq!(i8::between(10 + shift, 3 + shift), Ok(-7));
        assert_eq!(
            u8::between(10 + shift, 3 + shift),
            Err(OffsetError::ExceedsStorageRange)
        );
    }
}

#[test]
fn error_messages() {
    assert_eq!(
        OffsetError::IsizeOverflow.message(),
        "the offset overflowed the range of `isize`"
    );
    assert_eq!(
        OffsetError::ExceedsStorageRange.message(),
        "the offset is too far for the offset type of the relative pointer"
    );
}

#[test]
fn archived_integers_are_little_endian() {
    assert_eq!(ArchivedU16::from_native(0x1234).bytes, [0x34, 0x12]);
    assert_eq!(ArchivedU32::from_native(0x1234_5678).bytes, [0x78, 0x56, 0x34, 0x12]);
    assert_eq!(
        ArchivedU64::from_native(0x0123_4567_89ab_cdef).bytes,
        [0xef, 0xcd, 0xab, 0x89, 0x67, 0x45, 0x23, 0x01]
    );
    assert_eq!(ArchivedI16::from_native(-2).bytes, [0xfe, 0xff]);
    assert_eq!(ArchivedI32::from_native(-2).bytes, [0xfe, 0xff, 0xff, 0xff]);
    assert_eq!(
        ArchivedI64::from_native(i64::MIN).bytes,
        [0, 0, 0, 0, 0, 0, 0, 0x80]
    );
}

#[test]
fn archived_integers_give_back_what_was_archived() {
    for n in [0u16, 1, 255, 256, 0x8000, u16::MAX] {
        assert_eq!(ArchivedU16::from_native(n).to_native(), n);
        assert_eq!(ArchivedU16::from_native(n).bytes, n.to_le_bytes());
    }
    for n in [0u32, 255, 256, 0xffff, 0x1_0000, 0x8000_0000, u32::MAX] {
        assert_eq!(ArchivedU32::from_native(n).to_native(), n);
        assert_eq!(ArchivedU32::from_native(n).bytes, n.to_le_bytes());
    }
    for n in [0u64, 255, 256, 0x1_0000_0000, 0xffff_ffff, 1 << 63, u64::MAX] {
        assert_eq!(ArchivedU64::from_native(n).to_native(), n);
        assert_eq!(ArchivedU64::from_native(n).bytes, n.to_le_bytes());
    }
    for n in [0i16, 1, -1, i16::MIN, i16::MAX, -256] {
        assert_eq!(ArchivedI16::from_native(n).to_native(), n);
        assert_eq!(ArchivedI16::from_native(n).bytes, n.to_le_bytes());
    }
    for n in [0i32, 1, -1, i32::MIN, i32::MAX, -65536] {
        assert_eq!(ArchivedI32::from_native(n).to_native(), n);
        assert_eq!(ArchivedI32::from_native(n).bytes, n.to_le_bytes());
    }
    for n in [0i64, 1, -1, i64::MIN, i64::MAX, -4294967296] {
        assert_eq!(ArchivedI64::from_native(n).to_native(), n);
        assert_eq!(ArchivedI64::from_native(n).bytes, n.to_le_bytes());
    }
}
