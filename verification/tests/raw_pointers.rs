use rel_ptr::primitive::{ArchivedI32, ArchivedU16, ArchivedU64};
use rel_ptr::{
    Offset, OffsetError, RawRelPtr, RawRelPtrI16, RawRelPtrI32, RawRelPtrI64, RawRelPtrI8,
    RawRelPtrU16, RawRelPtrU32, RawRelPtrU64, RawRelPtrU8, RelPtrError,
};

/// Emplaces a pointer at position `from` of an archive that starts at address `start`.
fn emplaced<O: Offset>(start: usize, from: usize, to: usize) -> RawRelPtr<O> {
    let blank = match O::between(0, 0) {
        Ok(offset) => offset,
        Err(_) => panic!("no room for 0"),
    };
    let mut ptr = RawRelPtr::at(start + from, blank);
    RawRelPtr::emplace(from, to, &mut ptr);
    ptr
}

#[test]
fn emplaced_pointer_resolves_to_its_target() {
    let ptr: RawRelPtrI32 = emplaced(0x1000, 24, 8);
    assert_eq!(ptr.base(), 0x1018);
    assert_eq!(ptr.offset(), -16);
    assert!(!ptr.is_null());
    assert_eq!(ptr.as_ptr(), 0x1008);
    assert_eq!(ptr.as_ptr_wrapping(), 0x1008);
}

#[test]
fn pointers_of_every_offset_type() {
    let i8_ptr: RawRelPtrI8 = emplaced(500, 100, 0);
    assert_eq!(i8_ptr.as_ptr(), 500);
    let i16_ptr: RawRelPtrI16 = emplaced(500, 30000, 0);
    assert_eq!(i16_ptr.as_ptr(), 500);
    let i32_ptr: RawRelPtrI32 = emplaced(500, 70000, 0);
    assert_eq!(i32_ptr.as_ptr(), 500);
    let i64_ptr: RawRelPtrI64 = emplaced(500, 5_000_000_000, 0);
    assert_eq!(i64_ptr.as_ptr(), 500);
    let u8_ptr: RawRelPtrU8 = emplaced(500, 0, 200);
    assert_eq!(u8_ptr.as_ptr(), 700);
    let u16_ptr: RawRelPtrU16 = emplaced(500, 0, 60000);
    assert_eq!(u16_ptr.as_ptr(), 60500);
    let u32_ptr: RawRelPtrU32 = emplaced(500, 0, 3_000_000_000);
    assert_eq!(u32_ptr.as_ptr(), 3_000_000_500);
    let u64_ptr: RawRelPtrU64 = emplaced(500, 0, 5_000_000_000);
    assert_eq!(u64_ptr.as_ptr(), 5_000_000_500);
}

#[test]
fn refused_pointer_stays_as_it_was() {
    let mut ptr = RawRelPtr::at(4096, 7i8);
    assert_eq!(
        RawRelPtr::try_emplace(0, 128, &mut ptr),
        Err(OffsetError::ExceedsStorageRange)
    );
    assert_eq!(
        RawRelPtr::try_emplace(0, usize::MAX, &mut ptr),
        Err(OffsetError::IsizeOverflow)
    );
    assert_eq!(ptr.base(), 4096);
    assert_eq!(ptr.stored_offset(), 7);
    assert_eq!(RawRelPtr::try_emplace(0, 127, &mut ptr), Ok(()));
    assert_eq!(ptr.base(), 4096);
    assert_eq!(ptr.stored_offset(), 127);
}

#[test]
fn archive_can_start_anywhere() {
    for start in [0usize, 1, 4096, 1 << 40] {
        let ptr: RawRelPtr<ArchivedU16> = emplaced(start, 6, 20);
        assert_eq!(ptr.as_ptr(), start + 20);
        assert_eq!(ptr.as_ptr_wrapping(), start + 20);
    }
}

#[test]
fn pointer_moved_with_its_target_stays_valid() {
    let ptr: RawRelPtr<ArchivedI32> = emplaced(10_000, 50, 10);
    assert_eq!(ptr.as_ptr(), 10_010);
    let moved = RawRelPtr::at(ptr.base() + 777, ptr.stored_offset());
    assert_eq!(moved.as_ptr(), 10_010 + 777);
}

#[test]
fn pointer_moved_alone_is_invalidated() {
    let ptr: RawRelPtr<ArchivedI32> = emplaced(10_000, 50, 10);
    let moved = RawRelPtr::at(ptr.base() + 1, ptr.stored_offset());
    assert_ne!(moved.as_ptr(), ptr.as_ptr());
    assert_ne!(moved.as_ptr_wrapping(), ptr.as_ptr_wrapping());
}

#[test]
fn null_pointers_resolve_to_themselves() {
    let ptr: RawRelPtrU8 = emplaced(4096, 12, 12);
    assert!(ptr.is_null());
    assert_eq!(ptr.offset(), 0);
    assert_eq!(ptr.as_ptr(), ptr.base());
    let other: RawRelPtrU8 = emplaced(4096, 12, 13);
    assert!(!other.is_null());
    assert_ne!(other.as_ptr(), other.base());
}

#[test]
fn addresses_wrap_around() {
    assert_eq!(RawRelPtr::at(3, -5i8).as_ptr_wrapping(), usize::MAX - 1);
    assert_eq!(RawRelPtr::at(usize::MAX, 5i8).as_ptr_wrapping(), 4);
    assert_eq!(RawRelPtr::at(usize::MAX, 0i8).as_ptr_wrapping(), usize::MAX);
    let far = RawRelPtr::at(10, ArchivedU64::from_native(u64::MAX));
    assert_eq!(far.as_ptr_wrapping(), 9);
}

#[test]
fn plain_and_wrapping_resolution_agree() {
    for (base, offset) in [(0usize, 0i8), (0, 127), (128, -128), (usize::MAX, -1)] {
        let ptr = RawRelPtr::at(base, offset);
        assert_eq!(ptr.as_ptr(), ptr.as_ptr_wrapping());
    }
}

#[test]
fn pointer_errors_can_be_shown() {
    assert_eq!(format!("{:?}", RelPtrError::OffsetError), "OffsetError");
}
