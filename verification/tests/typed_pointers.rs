use rel_ptr::primitive::{ArchivedI16, ArchivedU32};
use rel_ptr::{
    signed_offset, ArchivePointee, ArchiveUnsized, FieldPositions, Layout, Offset, OffsetError,
    Packed, RawRelPtr, RelPtr,
};

/// A type without a fixed size whose metadata keeps the position at which it was resolved.
struct Tagged([u8]);

#[derive(Clone, Copy, Debug, Default, PartialEq)]
struct Tag {
    pos: usize,
    resolver: u8,
}

impl ArchivePointee for Tagged {
    type Metadata = (usize, u8);
    type ArchivedMetadata = Tag;

    fn spec_pointer_metadata(archived: Tag) -> (usize, u8) {
        (archived.pos, archived.resolver)
    }

    fn pointer_metadata(archived: &Tag) -> (usize, u8) {
        (archived.pos, archived.resolver)
    }
}

struct Source;

impl ArchiveUnsized for Source {
    type Archived = Tagged;
    type MetadataResolver = u8;

    fn resolved_by(&self, _resolver: u8) -> bool {
        true
    }

    fn archived_metadata(&self, pos: usize, resolver: u8) -> Tag {
        Tag { pos, resolver }
    }

    fn resolve_metadata(&self, pos: usize, resolver: u8, out: &mut Tag) {
        *out = Tag { pos, resolver };
    }
}

const OLD: Tag = Tag { pos: 1, resolver: 2 };

/// The untyped pointer comes first, and there is a gap before the metadata.
struct RawFirst;

impl<O, M> Layout<O, M> for RawFirst {
    fn positions() -> FieldPositions {
        FieldPositions { raw: 0, metadata: 8 }
    }

    fn fields() -> FieldPositions {
        FieldPositions { raw: 0, metadata: 8 }
    }
}

/// The metadata comes first.
struct RawLast;

impl<O, M> Layout<O, M> for RawLast {
    fn positions() -> FieldPositions {
        FieldPositions { raw: 16, metadata: 0 }
    }

    fn fields() -> FieldPositions {
        FieldPositions { raw: 16, metadata: 0 }
    }
}

fn tagged<L: Layout<i8, Tag>>(address: usize) -> RelPtr<Tagged, i8, L> {
    RelPtr::new(RawRelPtr::at(address + L::fields().raw, 99), OLD)
}

fn sized_pointer_resolves<L: Layout<i8, ()>>() {
    let raw_pos = L::fields().raw;
    let raw = RawRelPtr::at(1000 + 40 + raw_pos, 0i8);
    let mut ptr: RelPtr<u64, i8, L> = RelPtr::new(raw, ());
    assert_eq!(RelPtr::try_emplace(40, 8, &mut ptr), Ok(()));
    assert_eq!(ptr.base(), 1040 + raw_pos);
    assert_eq!(ptr.offset(), -32 - raw_pos as isize);
    assert_eq!(ptr.as_ptr().address, 1008);
    assert_eq!(ptr.as_ptr_wrapping().address, 1008);
    assert_eq!(*ptr.metadata(), ());
    assert_eq!(ptr.as_ptr().metadata, ());
    RelPtr::emplace(40, 100, &mut ptr);
    assert_eq!(ptr.as_ptr().address, 1100);
}

#[test]
fn sized_pointer_resolves_to_its_target() {
    sized_pointer_resolves::<Packed>();
    sized_pointer_resolves::<RawFirst>();
    sized_pointer_resolves::<RawLast>();
}

#[test]
fn refused_typed_pointer_stays_as_it_was() {
    let mut sized: RelPtr<u64, i8> = RelPtr::new(RawRelPtr::at(1000, 5), ());
    assert_eq!(
        RelPtr::try_emplace(0, 200, &mut sized),
        Err(OffsetError::ExceedsStorageRange)
    );
    assert_eq!(sized.offset(), 5);

    let mut ptr = tagged::<RawLast>(1000);
    assert_eq!(
        RelPtr::try_resolve_emplace(0, 200, &Source, 9, &mut ptr),
        Err(OffsetError::ExceedsStorageRange)
    );
    assert_eq!(
        RelPtr::try_resolve_emplace(0, usize::MAX, &Source, 9, &mut ptr),
        Err(OffsetError::IsizeOverflow)
    );
    assert_eq!(
        RelPtr::try_resolve_emplace_from_raw_parts(0, 200, Tag::default(), &mut ptr),
        Err(OffsetError::ExceedsStorageRange)
    );
    assert_eq!(ptr.offset(), 99);
    assert_eq!(*ptr.metadata(), OLD);
    assert_eq!(ptr.base(), 1016);
}

#[test]
fn metadata_is_resolved_at_its_own_position() {
    let mut ptr = tagged::<RawFirst>(1000);
    assert_eq!(RelPtr::try_resolve_emplace(50, 60, &Source, 9, &mut ptr), Ok(()));
    assert_eq!(ptr.offset(), 10);
    assert_eq!(*ptr.metadata(), Tag { pos: 58, resolver: 9 });
    assert_eq!(ptr.as_ptr_wrapping().metadata, (58, 9));

    let mut ptr = tagged::<RawLast>(1000);
    RelPtr::resolve_emplace(50, 60, &Source, 7, &mut ptr);
    assert_eq!(ptr.offset(), -6);
    assert_eq!(*ptr.metadata(), Tag { pos: 50, resolver: 7 });
    assert_eq!(ptr.as_ptr().metadata, (50, 7));
}

fn raw_parts_do_the_same<L: Layout<i8, Tag>>() {
    let mut resolved = tagged::<L>(1000);
    RelPtr::resolve_emplace(50, 90, &Source, 3, &mut resolved);
    let mut supplied = tagged::<L>(1000);
    RelPtr::resolve_emplace_from_raw_parts(50, 90, *resolved.metadata(), &mut supplied);
    assert_eq!(supplied.base(), resolved.base());
    assert_eq!(supplied.offset(), resolved.offset());
    assert_eq!(supplied.metadata(), resolved.metadata());
}

#[test]
fn raw_parts_do_the_same_as_a_value() {
    raw_parts_do_the_same::<RawFirst>();
    raw_parts_do_the_same::<RawLast>();
}

fn null_pointer<L: Layout<i8, Tag>>() {
    let mut ptr = tagged::<L>(1000);
    assert_eq!(RelPtr::try_emplace_null(50, &mut ptr), Ok(()));
    assert!(ptr.is_null());
    assert_eq!(ptr.offset(), 0);
    assert_eq!(ptr.base(), 1000 + L::fields().raw);
    assert_eq!(*ptr.metadata(), Tag::default());
}

#[test]
fn null_pointer_has_offset_zero_and_default_metadata() {
    null_pointer::<RawFirst>();
    null_pointer::<RawLast>();
}

#[test]
fn unsigned_offsets_can_be_null_wherever_the_fields_stand() {
    let mut first: RelPtr<u32, u8, RawFirst> = RelPtr::new(RawRelPtr::at(1000, 9), ());
    assert!(!first.is_null());
    RelPtr::emplace_null(4, &mut first);
    assert!(first.is_null());
    let mut last: RelPtr<u32, u8, RawLast> = RelPtr::new(RawRelPtr::at(1000, 9), ());
    RelPtr::emplace_null(4, &mut last);
    assert!(last.is_null());
}

/// An offset type that has no room for 0 and that remembers the position it starts from.
#[derive(Clone, Copy, Debug, PartialEq)]
struct Forward {
    from: usize,
    distance: isize,
}

impl Offset for Forward {
    fn holds(_distance: vstd::prelude::int) -> bool {
        unreachable!()
    }

    fn stored(self) -> vstd::prelude::int {
        unreachable!()
    }

    fn between(from: usize, to: usize) -> Result<Self, OffsetError> {
        match signed_offset(from, to)? {
            distance if distance > 0 => Ok(Forward { from, distance }),
            _ => Err(OffsetError::ExceedsStorageRange),
        }
    }

    fn to_isize(&self) -> isize {
        self.distance
    }
}

#[test]
fn null_pointers_need_room_for_zero() {
    let blank = Forward { from: 1, distance: 1 };
    let mut ptr: RelPtr<u32, Forward> = RelPtr::new(RawRelPtr::at(1000, blank), ());
    assert_eq!(
        RelPtr::try_emplace_null(4, &mut ptr),
        Err(OffsetError::ExceedsStorageRange)
    );
    assert_eq!(ptr.raw().stored_offset(), blank);
}

#[test]
fn stored_offset_is_the_one_between_the_positions() {
    let blank = Forward { from: 1, distance: 1 };
    let mut ptr: RelPtr<u32, Forward, RawLast> = RelPtr::new(RawRelPtr::at(1000, blank), ());
    RelPtr::emplace(40, 100, &mut ptr);
    assert_eq!(ptr.raw().stored_offset(), Forward { from: 56, distance: 44 });
}

#[test]
fn null_slice_pointer_is_empty() {
    let length = ArchivedU32::from_native(3);
    let mut slice: RelPtr<[u16], i8> = RelPtr::new(RawRelPtr::at(1000, 9), length);
    RelPtr::emplace_null(4, &mut slice);
    assert!(slice.is_null());
    assert_eq!(slice.as_ptr().address, 1000);
    assert_eq!(slice.as_ptr().metadata, 0);
    let mut text: RelPtr<str, i8> = RelPtr::new(RawRelPtr::at(1000, 9), length);
    assert_eq!(RelPtr::try_emplace_null(4, &mut text), Ok(()));
    assert_eq!(text.as_ptr().metadata, 0);
    assert_eq!(ArchivedU32::default().bytes, [0, 0, 0, 0]);
}

#[test]
fn metadata_follows_at_once_in_the_packed_layout() {
    let fields = <Packed as Layout<ArchivedI16, ArchivedU32>>::fields();
    assert_eq!(fields, FieldPositions { raw: 0, metadata: 2 });
}

#[test]
fn base_is_at_the_same_place_in_all_pointers_of_a_type() {
    let mut ptr = tagged::<RawLast>(1000);
    let other = tagged::<RawLast>(5000);
    assert_eq!(ptr.base() - 1000, other.base() - 5000);
    RelPtr::resolve_emplace(0, 100, &Source, 4, &mut ptr);
    assert_eq!(ptr.base() - 1000, other.base() - 5000);
}

#[test]
fn pointer_comes_apart_into_what_it_was_made_of() {
    let (raw, metadata) = tagged::<RawLast>(1000).into_parts();
    assert_eq!(raw.base(), 1016);
    assert_eq!(raw.stored_offset(), 99);
    assert_eq!(metadata, OLD);
}

#[test]
fn byte_slice_pointer_finds_its_length() {
    let value: &[u8] = &[1, 2, 3, 4, 5];
    let blank = ArchivedU32::from_native(0);
    let raw = RawRelPtr::at(4096 + 32, ArchivedI16::from_native(0));
    let mut ptr: RelPtr<[u8], ArchivedI16> = RelPtr::new(raw, blank);
    RelPtr::resolve_emplace(32, 16, value, (), &mut ptr);
    assert_eq!(ptr.as_ptr().address, 4096 + 16);
    assert_eq!(ptr.as_ptr().metadata, 5);
    assert_eq!(ptr.metadata().to_native(), 5);
}

#[test]
fn string_and_slice_metadata_is_the_length() {
    assert_eq!(<str>::pointer_metadata(&ArchivedU32::from_native(70_000)), 70_000);
    assert_eq!(<[u64]>::pointer_metadata(&ArchivedU32::from_native(3)), 3);
}

#[test]
fn typed_pointer_moved_with_its_target_stays_valid() {
    let mut ptr = tagged::<RawLast>(1000);
    RelPtr::resolve_emplace(0, 20, &Source, 1, &mut ptr);
    let raw = RawRelPtr::at(ptr.base() + 500, -0x7f);
    let elsewhere: RelPtr<Tagged, i8, RawLast> = RelPtr::new(raw, *ptr.metadata());
    assert_ne!(elsewhere.as_ptr().address, ptr.as_ptr().address + 500);
    let raw = RawRelPtr::at(ptr.base() + 500, ptr.offset() as i8);
    let moved: RelPtr<Tagged, i8, RawLast> = RelPtr::new(raw, *ptr.metadata());
    assert_eq!(moved.as_ptr().address, ptr.as_ptr().address + 500);
    assert_eq!(moved.as_ptr().metadata, ptr.as_ptr().metadata);
}

#[test]
fn typed_addresses_wrap_around() {
    let ptr: RelPtr<u8, i8> = RelPtr::new(RawRelPtr::at(1, -2), ());
    assert_eq!(ptr.as_ptr_wrapping().address, usize::MAX);
}
