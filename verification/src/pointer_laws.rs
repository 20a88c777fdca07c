//! What the operations on relative pointers return, and what they leave in place, in terms of
//! addresses, positions and stored numbers.

use crate::offset::{Offset, OffsetError};
use crate::pointee::{ArchivePointee, ArchiveUnsized, RawParts};
use crate::primitive::ArchivedU32;
use crate::raw_rel_ptr::RawRelPtr;
use crate::rel_ptr::{FieldPositions, Layout, Packed, RelPtr};
use vstd::prelude::*;

verus! {

/// A pointer gives back the address at which it was made and the offset that it was made with.
pub proof fn law_raw_made_at<O: Offset>(
    address: usize,
    offset: O,
    ptr: RawRelPtr<O>,
    base: usize,
    stored: O,
)
    requires
        call_ensures(RawRelPtr::<O>::at, (address, offset), ptr),
        call_ensures(RawRelPtr::<O>::base, (&ptr,), base),
        call_ensures(RawRelPtr::<O>::stored_offset, (&ptr,), stored),
    ensures
        base == address == ptr.base(),
        stored == offset,
        ptr.stored_offset() == offset,
{
}

/// The offset of a pointer is the number that it stores, by whole turns where that is out of the
/// range of `isize`.
pub proof fn law_raw_offset<O: Offset>(ptr: RawRelPtr<O>, r: isize)
    requires
        call_ensures(RawRelPtr::<O>::offset, (&ptr,), r),
    ensures
        r == ptr.offset(),
        isize::MIN <= ptr.stored_offset().stored() <= isize::MAX ==> r
            == ptr.stored_offset().stored(),
        (r - ptr.stored_offset().stored()) % (usize::MAX + 1) == 0,
{
    crate::offset_laws::law_wrapped_isize(ptr.stored_offset().stored());
}

/// A pointer is null if and only if its offset is 0.
pub proof fn law_raw_is_null<O: Offset>(ptr: RawRelPtr<O>, offset: isize, r: bool)
    requires
        call_ensures(RawRelPtr::<O>::offset, (&ptr,), offset),
        call_ensures(RawRelPtr::<O>::is_null, (&ptr,), r),
    ensures
        r <==> offset == 0,
        r == ptr.is_null(),
{
}

/// A pointer resolves to the address that is its offset away from its base.
pub proof fn law_raw_as_ptr<O: Offset>(ptr: RawRelPtr<O>, base: usize, offset: isize, r: usize)
    requires
        call_ensures(RawRelPtr::<O>::base, (&ptr,), base),
        call_ensures(RawRelPtr::<O>::offset, (&ptr,), offset),
        call_ensures(RawRelPtr::<O>::as_ptr, (&ptr,), r),
    ensures
        r == base + offset,
{
}

/// The wrapping way to resolve a pointer leads to the address that is its offset away from its base,
/// by whole turns around the address space where that is outside.
pub proof fn law_raw_as_ptr_wrapping<O: Offset>(
    ptr: RawRelPtr<O>,
    base: usize,
    offset: isize,
    r: usize,
)
    requires
        call_ensures(RawRelPtr::<O>::base, (&ptr,), base),
        call_ensures(RawRelPtr::<O>::offset, (&ptr,), offset),
        call_ensures(RawRelPtr::<O>::as_ptr_wrapping, (&ptr,), r),
    ensures
        r == ptr.target(),
        0 <= base + offset <= usize::MAX ==> r == base + offset,
        (r - base - offset) % (usize::MAX + 1) == 0,
{
    law_wrapped_address(base + offset);
}

/// Wrapping around leads to an address, by whole turns, and leaves an address as it is.
pub proof fn law_wrapped_address(n: int)
    ensures
        0 <= crate::raw_rel_ptr::wrapped_address(n) <= usize::MAX,
        (crate::raw_rel_ptr::wrapped_address(n) - n) % (usize::MAX + 1) == 0,
        0 <= n <= usize::MAX ==> crate::raw_rel_ptr::wrapped_address(n) == n,
{
    let size = usize::MAX + 1;
    vstd::arithmetic::div_mod::lemma_mod_bound(n, size);
    vstd::arithmetic::div_mod::lemma_sub_mod_noop(n % size, n, size);
    vstd::arithmetic::div_mod::lemma_mod_twice(n, size);
    vstd::arithmetic::div_mod::lemma_small_mod(0, size as nat);
    if 0 <= n <= usize::MAX {
        vstd::arithmetic::div_mod::lemma_small_mod(n as nat, size as nat);
    }
    assert((n % size - n) % size == 0);
}

/// The target of a pointer is an address, apart from its base and its offset by whole turns around
/// the address space.
pub proof fn law_raw_target<O: Offset>(ptr: RawRelPtr<O>)
    ensures
        0 <= ptr.target() <= usize::MAX,
        (ptr.target() - ptr.base() - ptr.offset()) % (usize::MAX + 1) == 0,
{
    law_wrapped_address(ptr.base() + ptr.offset());
}

/// An attempt to emplace an untyped pointer succeeds exactly where the distance is in the range of
/// `isize` and the offset type has room for it. The pointer then stores that distance, as the offset
/// type creates it, where it stood. Otherwise the error is the one that tells why, and the pointer
/// stays as it was.
pub proof fn law_raw_try_emplace<O: Offset>(
    from: usize,
    to: usize,
    out: &mut RawRelPtr<O>,
    r: Result<(), OffsetError>,
)
    requires
        call_ensures(RawRelPtr::<O>::try_emplace, (from, to, out), r),
    ensures
        r is Ok <==> isize::MIN <= to - from <= isize::MAX && O::holds(to - from),
        r matches Err(error) ==> (error == OffsetError::IsizeOverflow <==> !(isize::MIN <= to - from
            <= isize::MAX)),
        r is Err ==> *final(out) == *old(out),
        r is Ok ==> {
            &&& final(out).base() == old(out).base()
            &&& from + final(out).stored_offset().stored() == to
            &&& from + final(out).offset() == to
            &&& call_ensures(
                O::between,
                (from, to),
                Ok::<O, OffsetError>(final(out).stored_offset()),
            )
        },
{
}

/// Emplacing an untyped pointer where there is room for the distance does what the attempt does.
pub proof fn law_raw_emplace<O: Offset>(from: usize, to: usize, out: &mut RawRelPtr<O>)
    requires
        isize::MIN <= to - from <= isize::MAX,
        O::holds(to - from),
        call_ensures(RawRelPtr::<O>::emplace, (from, to, out), ()),
    ensures
        final(out).base() == old(out).base(),
        from + final(out).stored_offset().stored() == to,
        from + final(out).offset() == to,
        call_ensures(O::between, (from, to), Ok::<O, OffsetError>(final(out).stored_offset())),
{
}

/// Emplacing can be asked for exactly where the attempt would succeed.
pub proof fn law_raw_emplace_is_possible<O: Offset>(from: usize, to: usize, out: &mut RawRelPtr<O>)
    requires
        isize::MIN <= to - from <= isize::MAX,
        O::holds(to - from),
    ensures
        call_requires(RawRelPtr::<O>::emplace, (from, to, out)),
{
}

/// What emplacing makes of an untyped pointer, told without the attempt's result.
pub proof fn law_raw_emplaced<O: Offset>(
    from: usize,
    to: usize,
    before: RawRelPtr<O>,
    after: RawRelPtr<O>,
)
    requires
        RawRelPtr::emplaced(from, to, before, after),
    ensures
        isize::MIN <= to - from <= isize::MAX && O::holds(to - from) ==> {
            &&& after.base() == before.base()
            &&& from + after.stored_offset().stored() == to
            &&& from + after.offset() == to
            &&& call_ensures(O::between, (from, to), Ok::<O, OffsetError>(after.stored_offset()))
        },
        !(isize::MIN <= to - from <= isize::MAX && O::holds(to - from)) ==> after == before,
{
}

/// The number of bytes that a layout needs reaches to the end of each field, and to the end of one
/// of them exactly.
pub proof fn law_layout_size<O, M, L: Layout<O, M>>()
    ensures
        L::positions().raw + vstd::layout::size_of::<O>() <= crate::rel_ptr::layout_size::<O, M, L>(),
        L::positions().metadata + vstd::layout::size_of::<M>() <= crate::rel_ptr::layout_size::<
            O,
            M,
            L,
        >(),
        crate::rel_ptr::layout_size::<O, M, L>() == L::positions().raw + vstd::layout::size_of::<O>()
            || crate::rel_ptr::layout_size::<O, M, L>() == L::positions().metadata
            + vstd::layout::size_of::<M>(),
{
}

/// In every layout, no byte belongs to both fields.
pub proof fn law_fields_are_disjoint<O, M, L: Layout<O, M>>(r: FieldPositions, byte: int)
    requires
        call_ensures(L::fields, (), r),
    ensures
        r == L::positions(),
        !(r.raw <= byte < r.raw + vstd::layout::size_of::<O>() && r.metadata <= byte < r.metadata
            + vstd::layout::size_of::<M>()),
{
}

/// In the packed layout the untyped pointer begins at the beginning, and the metadata where the
/// untyped pointer ends. The two together take up no more than their own bytes.
pub proof fn law_packed_fields<O, M>(r: FieldPositions)
    requires
        vstd::layout::size_of::<O>() <= usize::MAX,
        call_ensures(<Packed as Layout<O, M>>::fields, (), r),
    ensures
        r.raw == 0,
        r.metadata == vstd::layout::size_of::<O>(),
        r == <Packed as Layout<O, M>>::positions(),
        crate::rel_ptr::layout_size::<O, M, Packed>() == vstd::layout::size_of::<O>()
            + vstd::layout::size_of::<M>(),
{
}

/// In the packed layout a typed pointer begins at its base, and the untyped pointer is at the
/// position of the typed one.
pub proof fn law_packed_begins_at_base<T: ArchivePointee + ?Sized, O: Offset>(
    ptr: RelPtr<T, O>,
    pos: usize,
)
    ensures
        ptr.address() == ptr.base(),
        RelPtr::<T, O>::raw_position(pos) == pos,
{
}

/// A typed pointer in the packed layout that was emplaced between two positions stores the distance
/// between exactly these two.
pub proof fn law_packed_try_emplace<T, O: Offset>(
    from: usize,
    to: usize,
    out: &mut RelPtr<T, O>,
    r: Result<(), OffsetError>,
)
    requires
        call_ensures(RelPtr::<T, O>::try_emplace, (from, to, out), r),
    ensures
        r is Ok <==> isize::MIN <= to - from <= isize::MAX && O::holds(to - from),
        r is Ok ==> from + final(out).raw().stored_offset().stored() == to,
        r is Ok ==> final(out).base() + to == old(out).base() + from + final(out).offset(),
{
}

/// A typed pointer gives back the untyped pointer and the metadata that it was made of, whole or
/// taken apart.
pub proof fn law_typed_made_of<
    T: ArchivePointee + ?Sized,
    O: Offset,
    L: Layout<O, T::ArchivedMetadata>,
>(
    raw: RawRelPtr<O>,
    metadata: T::ArchivedMetadata,
    ptr: RelPtr<T, O, L>,
    base: usize,
    parts: (RawRelPtr<O>, T::ArchivedMetadata),
)
    requires
        call_ensures(RelPtr::<T, O, L>::new, (raw, metadata), ptr),
        call_ensures(RelPtr::<T, O, L>::base, (&ptr,), base),
        call_ensures(RelPtr::<T, O, L>::into_parts, (ptr,), parts),
    ensures
        base == raw.base() == ptr.base(),
        *ptr.raw() == raw,
        *ptr.metadata() == metadata,
        parts.0 == raw,
        parts.1 == metadata,
        ptr.offset() == raw.offset(),
        ptr.is_null() == raw.is_null(),
        ptr.target() == raw.target(),
{
}

/// The parts of a typed pointer can be read without taking it apart.
pub proof fn law_typed_parts<
    T: ArchivePointee + ?Sized,
    O: Offset,
    L: Layout<O, T::ArchivedMetadata>,
>(
    ptr: RelPtr<T, O, L>,
    raw: &RawRelPtr<O>,
    metadata: &T::ArchivedMetadata,
    parts: (RawRelPtr<O>, T::ArchivedMetadata),
)
    requires
        call_ensures(RelPtr::<T, O, L>::raw, (&ptr,), raw),
        call_ensures(RelPtr::<T, O, L>::metadata, (&ptr,), metadata),
        call_ensures(RelPtr::<T, O, L>::into_parts, (ptr,), parts),
    ensures
        *raw == *ptr.raw(),
        *metadata == *ptr.metadata(),
        parts.0 == *raw,
        parts.1 == *metadata,
{
}

/// The base of a typed pointer is the address of its untyped pointer. It is as far from the
/// beginning as the layout says, the beginning is an address, and all bytes of the untyped pointer
/// are inside.
pub proof fn law_typed_base<
    T: ArchivePointee + ?Sized,
    O: Offset,
    L: Layout<O, T::ArchivedMetadata>,
>(ptr: RelPtr<T, O, L>, r: usize)
    requires
        call_ensures(RelPtr::<T, O, L>::base, (&ptr,), r),
    ensures
        r == ptr.base() == ptr.raw().base(),
        0 <= ptr.address(),
        r == ptr.address() + L::positions().raw,
        r + vstd::layout::size_of::<O>() <= ptr.address() + RelPtr::<T, O, L>::size(),
        RelPtr::<T, O, L>::size() == crate::rel_ptr::layout_size::<O, T::ArchivedMetadata, L>(),
{
}

/// The fields of a typed pointer are at its own position, moved on by what the layout says.
pub proof fn law_typed_positions<
    T: ArchivePointee + ?Sized,
    O: Offset,
    L: Layout<O, T::ArchivedMetadata>,
>(pos: usize)
    ensures
        pos + L::positions().raw <= usize::MAX ==> RelPtr::<T, O, L>::raw_position(pos) == pos
            + L::positions().raw,
        pos + L::positions().metadata <= usize::MAX ==> RelPtr::<T, O, L>::metadata_position(pos)
            == pos + L::positions().metadata,
{
}

/// The offset of a typed pointer is the number that its untyped pointer stores, by whole turns where
/// that is out of the range of `isize`.
pub proof fn law_typed_offset<
    T: ArchivePointee + ?Sized,
    O: Offset,
    L: Layout<O, T::ArchivedMetadata>,
>(ptr: RelPtr<T, O, L>, r: isize)
    requires
        call_ensures(RelPtr::<T, O, L>::offset, (&ptr,), r),
    ensures
        r == ptr.offset() == ptr.raw().offset(),
        isize::MIN <= ptr.raw().stored_offset().stored() <= isize::MAX ==> r
            == ptr.raw().stored_offset().stored(),
        (r - ptr.raw().stored_offset().stored()) % (usize::MAX + 1) == 0,
{
    crate::offset_laws::law_wrapped_isize(ptr.raw().stored_offset().stored());
}

/// A typed pointer is null if and only if its offset is 0, and if and only if it resolves to its own
/// base.
pub proof fn law_typed_is_null<
    T: ArchivePointee + ?Sized,
    O: Offset,
    L: Layout<O, T::ArchivedMetadata>,
>(ptr: RelPtr<T, O, L>, base: usize, offset: isize, target: RawParts<T>, r: bool)
    requires
        call_ensures(RelPtr::<T, O, L>::base, (&ptr,), base),
        call_ensures(RelPtr::<T, O, L>::offset, (&ptr,), offset),
        call_ensures(RelPtr::<T, O, L>::as_ptr_wrapping, (&ptr,), target),
        call_ensures(RelPtr::<T, O, L>::is_null, (&ptr,), r),
    ensures
        r <==> offset == 0,
        r <==> target.address == base,
        r == ptr.is_null(),
{
    crate::laws::law_null_resolves_to_base(*ptr.raw());
}

/// A typed pointer is null if and only if its offset is 0, whatever offset and metadata it stores,
/// and if and only if its target is its base.
pub proof fn law_typed_null_iff_offset_zero<
    T: ArchivePointee + ?Sized,
    O: Offset,
    L: Layout<O, T::ArchivedMetadata>,
>(ptr: RelPtr<T, O, L>)
    ensures
        ptr.is_null() <==> ptr.offset() == 0,
        ptr.is_null() <==> ptr.target() == ptr.base(),
        ptr.is_null() <==> ptr.raw().is_null(),
        0 <= ptr.target() <= usize::MAX,
        (ptr.target() - ptr.base() - ptr.offset()) % (usize::MAX + 1) == 0,
{
    crate::laws::law_null_resolves_to_base(*ptr.raw());
    law_raw_target(*ptr.raw());
}

/// A typed pointer that was emplaced between two positions is null if and only if its untyped
/// pointer is at the second of them.
pub proof fn law_typed_emplaced_null_iff_same_position<
    T: ArchivePointee + ?Sized,
    O: Offset,
    L: Layout<O, T::ArchivedMetadata>,
>(
    from: usize,
    to: usize,
    metadata: T::ArchivedMetadata,
    before: RelPtr<T, O, L>,
    after: RelPtr<T, O, L>,
)
    requires
        from + L::positions().raw <= usize::MAX,
        isize::MIN <= to - from - L::positions().raw <= isize::MAX,
        O::holds(to - from - L::positions().raw),
        RelPtr::emplaced(from, to, metadata, before, after),
    ensures
        after.is_null() <==> from + L::positions().raw == to,
{
}

/// A typed pointer resolves to the address that is its offset away from its base, with what its
/// metadata stands for.
pub proof fn law_typed_as_ptr<
    T: ArchivePointee + ?Sized,
    O: Offset,
    L: Layout<O, T::ArchivedMetadata>,
>(ptr: RelPtr<T, O, L>, base: usize, offset: isize, metadata: T::Metadata, r: RawParts<T>)
    requires
        call_ensures(RelPtr::<T, O, L>::base, (&ptr,), base),
        call_ensures(RelPtr::<T, O, L>::offset, (&ptr,), offset),
        call_ensures(T::pointer_metadata, (ptr.metadata(),), metadata),
        call_ensures(RelPtr::<T, O, L>::as_ptr, (&ptr,), r),
    ensures
        r.address == base + offset,
        r.metadata == metadata,
{
}

/// The wrapping way to resolve a typed pointer leads to the address that is its offset away from its
/// base, by whole turns around the address space where that is outside, with what its metadata
/// stands for.
pub proof fn law_typed_as_ptr_wrapping<
    T: ArchivePointee + ?Sized,
    O: Offset,
    L: Layout<O, T::ArchivedMetadata>,
>(ptr: RelPtr<T, O, L>, base: usize, offset: isize, metadata: T::Metadata, r: RawParts<T>)
    requires
        call_ensures(RelPtr::<T, O, L>::base, (&ptr,), base),
        call_ensures(RelPtr::<T, O, L>::offset, (&ptr,), offset),
        call_ensures(T::pointer_metadata, (ptr.metadata(),), metadata),
        call_ensures(RelPtr::<T, O, L>::as_ptr_wrapping, (&ptr,), r),
    ensures
        r.address == ptr.target(),
        0 <= base + offset <= usize::MAX ==> r.address == base + offset,
        (r.address - base - offset) % (usize::MAX + 1) == 0,
        r.metadata == metadata,
{
    law_wrapped_address(base + offset);
}

/// What emplacing makes of a typed pointer: its untyped pointer, where it stood, stores the distance
/// from its own position to `to`, as the offset type creates it, and the metadata is the given one;
/// or, where there is no room for the distance, the pointer stays as it was.
pub proof fn law_typed_emplaced<
    T: ArchivePointee + ?Sized,
    O: Offset,
    L: Layout<O, T::ArchivedMetadata>,
>(
    from: usize,
    to: usize,
    metadata: T::ArchivedMetadata,
    before: RelPtr<T, O, L>,
    after: RelPtr<T, O, L>,
)
    requires
        from + L::positions().raw <= usize::MAX,
        RelPtr::emplaced(from, to, metadata, before, after),
    ensures
        ({
            let distance = to - from - L::positions().raw;
            if isize::MIN <= distance <= isize::MAX && O::holds(distance) {
                &&& after.base() == before.base()
                &&& after.raw().stored_offset().stored() == distance
                &&& after.offset() == distance
                &&& *after.metadata() == metadata
                &&& call_ensures(
                    O::between,
                    ((from + L::positions().raw) as usize, to),
                    Ok::<O, OffsetError>(after.raw().stored_offset()),
                )
            } else {
                after == before
            }
        }),
{
}

/// An attempt to emplace a pointer to a type of a fixed size succeeds exactly where the distance
/// from the untyped pointer is in the range of `isize` and the offset type has room for it. The
/// pointer then leads there from where it stood. Otherwise the error is the one that tells why, and
/// the pointer stays as it was.
pub proof fn law_typed_try_emplace<T, O: Offset, L: Layout<O, ()>>(
    from: usize,
    to: usize,
    out: &mut RelPtr<T, O, L>,
    r: Result<(), OffsetError>,
)
    requires
        from + L::positions().raw <= usize::MAX,
        call_ensures(RelPtr::<T, O, L>::try_emplace, (from, to, out), r),
    ensures
        ({
            let distance = to - from - L::positions().raw;
            &&& r is Ok <==> isize::MIN <= distance <= isize::MAX && O::holds(distance)
            &&& r matches Err(error) ==> (error == OffsetError::IsizeOverflow <==> !(isize::MIN
                <= distance <= isize::MAX))
            &&& r is Err ==> *final(out) == *old(out)
            &&& r is Ok ==> final(out).base() == old(out).base()
            &&& r is Ok ==> final(out).raw().stored_offset().stored() == distance
            &&& r is Ok ==> final(out).offset() == distance
            &&& r is Ok ==> call_ensures(
                O::between,
                ((from + L::positions().raw) as usize, to),
                Ok::<O, OffsetError>(final(out).raw().stored_offset()),
            )
        }),
{
}

/// Emplacing a pointer to a type of a fixed size, where there is room for the distance, does what
/// the attempt does.
pub proof fn law_typed_emplace<T, O: Offset, L: Layout<O, ()>>(
    from: usize,
    to: usize,
    out: &mut RelPtr<T, O, L>,
)
    requires
        from + L::positions().raw <= usize::MAX,
        isize::MIN <= to - from - L::positions().raw <= isize::MAX,
        O::holds(to - from - L::positions().raw),
        call_ensures(RelPtr::<T, O, L>::emplace, (from, to, out), ()),
    ensures
        final(out).base() == old(out).base(),
        final(out).raw().stored_offset().stored() == to - from - L::positions().raw,
        final(out).offset() == to - from - L::positions().raw,
        call_ensures(
            O::between,
            ((from + L::positions().raw) as usize, to),
            Ok::<O, OffsetError>(final(out).raw().stored_offset()),
        ),
{
}

/// An attempt to emplace a null pointer succeeds exactly where the offset type has room for 0. The
/// pointer then has the offset 0, which the offset type creates between a position and itself, and
/// default metadata, where it stood. Otherwise it stays as it was.
pub proof fn law_typed_try_emplace_null<
    T: ArchivePointee + ?Sized,
    O: Offset,
    L: Layout<O, T::ArchivedMetadata>,
>(pos: usize, out: &mut RelPtr<T, O, L>, r: Result<(), OffsetError>) where
    T::ArchivedMetadata: Default,

    requires
        pos + L::positions().raw <= usize::MAX,
        call_ensures(RelPtr::<T, O, L>::try_emplace_null, (pos, out), r),
    ensures
        r is Ok <==> O::holds(0),
        r matches Err(error) ==> error == OffsetError::ExceedsStorageRange,
        r is Err ==> *final(out) == *old(out),
        r is Ok ==> {
            let place = (pos + L::positions().raw) as usize;
            &&& final(out).base() == old(out).base()
            &&& final(out).raw().stored_offset().stored() == 0
            &&& final(out).offset() == 0
            &&& final(out).is_null()
            &&& call_ensures(
                <T::ArchivedMetadata as Default>::default,
                (),
                *final(out).metadata(),
            )
            &&& call_ensures(
                O::between,
                (place, place),
                Ok::<O, OffsetError>(final(out).raw().stored_offset()),
            )
        },
{
}

/// Emplacing a null pointer, where the offset type has room for 0, does what the attempt does.
pub proof fn law_typed_emplace_null<
    T: ArchivePointee + ?Sized,
    O: Offset,
    L: Layout<O, T::ArchivedMetadata>,
>(pos: usize, out: &mut RelPtr<T, O, L>) where T::ArchivedMetadata: Default
    requires
        pos + L::positions().raw <= usize::MAX,
        O::holds(0),
        call_ensures(RelPtr::<T, O, L>::emplace_null, (pos, out), ()),
    ensures
        final(out).base() == old(out).base(),
        final(out).raw().stored_offset().stored() == 0,
        final(out).offset() == 0,
        final(out).is_null(),
        call_ensures(<T::ArchivedMetadata as Default>::default, (), *final(out).metadata()),
{
}

/// An attempt to emplace a pointer for a value succeeds exactly where the distance from the untyped
/// pointer is in the range of `isize` and the offset type has room for it. The pointer then leads
/// there from where it stood, with the metadata that the value has for the position of the metadata.
/// Otherwise the error is the one that tells why, and the pointer stays as it was.
pub proof fn law_typed_try_resolve_emplace<
    T: ArchivePointee + ?Sized,
    O: Offset,
    L: Layout<O, T::ArchivedMetadata>,
    U: ArchiveUnsized<Archived = T> + ?Sized,
>(
    from: usize,
    to: usize,
    value: &U,
    metadata_resolver: U::MetadataResolver,
    out: &mut RelPtr<T, O, L>,
    r: Result<(), OffsetError>,
)
    requires
        from + L::positions().raw <= usize::MAX,
        call_ensures(
            RelPtr::<T, O, L>::try_resolve_emplace::<U>,
            (from, to, value, metadata_resolver, out),
            r,
        ),
    ensures
        ({
            let distance = to - from - L::positions().raw;
            let metadata_pos = (from + L::positions().metadata) as usize;
            &&& r is Ok <==> isize::MIN <= distance <= isize::MAX && O::holds(distance)
            &&& r matches Err(error) ==> (error == OffsetError::IsizeOverflow <==> !(isize::MIN
                <= distance <= isize::MAX))
            &&& r is Err ==> *final(out) == *old(out)
            &&& r is Ok ==> final(out).base() == old(out).base()
            &&& r is Ok ==> final(out).raw().stored_offset().stored() == distance
            &&& r is Ok ==> final(out).offset() == distance
            &&& r is Ok ==> call_ensures(
                O::between,
                ((from + L::positions().raw) as usize, to),
                Ok::<O, OffsetError>(final(out).raw().stored_offset()),
            )
            &&& r is Ok && from + L::positions().metadata <= usize::MAX ==> *final(out).metadata()
                == value.archived_metadata(metadata_pos, metadata_resolver)
        }),
{
}

/// Emplacing a pointer for a value, where there is room for the distance, does what the attempt
/// does.
pub proof fn law_typed_resolve_emplace<
    T: ArchivePointee + ?Sized,
    O: Offset,
    L: Layout<O, T::ArchivedMetadata>,
    U: ArchiveUnsized<Archived = T> + ?Sized,
>(
    from: usize,
    to: usize,
    value: &U,
    metadata_resolver: U::MetadataResolver,
    out: &mut RelPtr<T, O, L>,
)
    requires
        from + L::positions().raw <= usize::MAX,
        from + L::positions().metadata <= usize::MAX,
        isize::MIN <= to - from - L::positions().raw <= isize::MAX,
        O::holds(to - from - L::positions().raw),
        call_ensures(
            RelPtr::<T, O, L>::resolve_emplace::<U>,
            (from, to, value, metadata_resolver, out),
            (),
        ),
    ensures
        final(out).base() == old(out).base(),
        final(out).raw().stored_offset().stored() == to - from - L::positions().raw,
        final(out).offset() == to - from - L::positions().raw,
        call_ensures(
            O::between,
            ((from + L::positions().raw) as usize, to),
            Ok::<O, OffsetError>(final(out).raw().stored_offset()),
        ),
        *final(out).metadata() == value.archived_metadata(
            (from + L::positions().metadata) as usize,
            metadata_resolver,
        ),
{
}

/// An attempt to emplace a pointer with supplied metadata succeeds exactly where the distance from
/// the untyped pointer is in the range of `isize` and the offset type has room for it. The pointer
/// then leads there from where it stood, with that metadata. Otherwise the error is the one that
/// tells why, and the pointer stays as it was.
pub proof fn law_typed_try_resolve_emplace_from_raw_parts<
    T: ArchivePointee + ?Sized,
    O: Offset,
    L: Layout<O, T::ArchivedMetadata>,
>(
    from: usize,
    to: usize,
    archived_metadata: T::ArchivedMetadata,
    out: &mut RelPtr<T, O, L>,
    r: Result<(), OffsetError>,
)
    requires
        from + L::positions().raw <= usize::MAX,
        call_ensures(
            RelPtr::<T, O, L>::try_resolve_emplace_from_raw_parts,
            (from, to, archived_metadata, out),
            r,
        ),
    ensures
        ({
            let distance = to - from - L::positions().raw;
            &&& r is Ok <==> isize::MIN <= distance <= isize::MAX && O::holds(distance)
            &&& r matches Err(error) ==> (error == OffsetError::IsizeOverflow <==> !(isize::MIN
                <= distance <= isize::MAX))
            &&& r is Err ==> *final(out) == *old(out)
            &&& r is Ok ==> final(out).base() == old(out).base()
            &&& r is Ok ==> final(out).raw().stored_offset().stored() == distance
            &&& r is Ok ==> final(out).offset() == distance
            &&& r is Ok ==> call_ensures(
                O::between,
                ((from + L::positions().raw) as usize, to),
                Ok::<O, OffsetError>(final(out).raw().stored_offset()),
            )
            &&& r is Ok ==> *final(out).metadata() == archived_metadata
        }),
{
}

/// Emplacing a pointer with supplied metadata, where there is room for the distance, does what the
/// attempt does.
pub proof fn law_typed_resolve_emplace_from_raw_parts<
    T: ArchivePointee + ?Sized,
    O: Offset,
    L: Layout<O, T::ArchivedMetadata>,
>(
    from: usize,
    to: usize,
    archived_metadata: T::ArchivedMetadata,
    out: &mut RelPtr<T, O, L>,
)
    requires
        from + L::positions().raw <= usize::MAX,
        isize::MIN <= to - from - L::positions().raw <= isize::MAX,
        O::holds(to - from - L::positions().raw),
        call_ensures(
            RelPtr::<T, O, L>::resolve_emplace_from_raw_parts,
            (from, to, archived_metadata, out),
            (),
        ),
    ensures
        final(out).base() == old(out).base(),
        final(out).raw().stored_offset().stored() == to - from - L::positions().raw,
        final(out).offset() == to - from - L::positions().raw,
        call_ensures(
            O::between,
            ((from + L::positions().raw) as usize, to),
            Ok::<O, OffsetError>(final(out).raw().stored_offset()),
        ),
        *final(out).metadata() == archived_metadata,
{
}

/// What can be asked of every untyped pointer: to be emplaced between any two positions, and to be
/// resolved wherever its target is in the address space.
pub proof fn law_raw_calls_are_possible<O: Offset>(
    from: usize,
    to: usize,
    ptr: RawRelPtr<O>,
    out: &mut RawRelPtr<O>,
)
    ensures
        call_requires(RawRelPtr::<O>::try_emplace, (from, to, out)),
        call_requires(RawRelPtr::<O>::as_ptr_wrapping, (&ptr,)),
        0 <= ptr.base() + ptr.offset() <= usize::MAX ==> call_requires(
            RawRelPtr::<O>::as_ptr,
            (&ptr,),
        ),
{
}

/// A typed pointer can be emplaced, or be attempted to, wherever the positions of its fields are in
/// range. Without an attempt there must be room for the distance too.
pub proof fn law_typed_calls_are_possible<
    T: ArchivePointee + ?Sized,
    O: Offset,
    L: Layout<O, T::ArchivedMetadata>,
    U: ArchiveUnsized<Archived = T> + ?Sized,
>(
    from: usize,
    to: usize,
    value: &U,
    metadata_resolver: U::MetadataResolver,
    archived_metadata: T::ArchivedMetadata,
    ptr: RelPtr<T, O, L>,
    out: &mut RelPtr<T, O, L>,
)
    requires
        from + L::positions().raw <= usize::MAX,
    ensures
        ({
            let distance = to - from - L::positions().raw;
            let room = isize::MIN <= distance <= isize::MAX && O::holds(distance);
            &&& call_requires(
                RelPtr::<T, O, L>::try_resolve_emplace_from_raw_parts,
                (from, to, archived_metadata, out),
            )
            &&& room ==> call_requires(
                RelPtr::<T, O, L>::resolve_emplace_from_raw_parts,
                (from, to, archived_metadata, out),
            )
            &&& value.resolved_by(metadata_resolver) && (room ==> from + L::positions().metadata
                <= usize::MAX) ==> call_requires(
                RelPtr::<T, O, L>::try_resolve_emplace::<U>,
                (from, to, value, metadata_resolver, out),
            )
            &&& value.resolved_by(metadata_resolver) && room && from + L::positions().metadata
                <= usize::MAX ==> call_requires(
                RelPtr::<T, O, L>::resolve_emplace::<U>,
                (from, to, value, metadata_resolver, out),
            )
            &&& call_requires(RelPtr::<T, O, L>::as_ptr_wrapping, (&ptr,))
            &&& 0 <= ptr.base() + ptr.offset() <= usize::MAX ==> call_requires(
                RelPtr::<T, O, L>::as_ptr,
                (&ptr,),
            )
        }),
{
}

/// A pointer to a type of a fixed size can be emplaced, or be attempted to, wherever the position of
/// its untyped pointer is in range. Without an attempt there must be room for the distance too, and
/// for a null pointer room for 0.
pub proof fn law_sized_calls_are_possible<T, O: Offset, L: Layout<O, ()>>(
    from: usize,
    to: usize,
    raw: RawRelPtr<O>,
    out: &mut RelPtr<T, O, L>,
)
    requires
        from + L::positions().raw <= usize::MAX,
    ensures
        ({
            let distance = to - from - L::positions().raw;
            &&& call_requires(RelPtr::<T, O, L>::try_emplace, (from, to, out))
            &&& isize::MIN <= distance <= isize::MAX && O::holds(distance) ==> call_requires(
                RelPtr::<T, O, L>::emplace,
                (from, to, out),
            )
            &&& call_requires(RelPtr::<T, O, L>::try_emplace_null, (from, out))
            &&& O::holds(0) ==> call_requires(RelPtr::<T, O, L>::emplace_null, (from, out))
            &&& L::positions().raw <= raw.base() ==> call_requires(
                RelPtr::<T, O, L>::new,
                (raw, ()),
            )
        }),
{
}

/// The metadata of a pointer to a slice is exactly the number that was archived.
pub proof fn law_slice_metadata<U>(archived: ArchivedU32, r: usize)
    requires
        call_ensures(<[U] as ArchivePointee>::pointer_metadata, (&archived,), r),
    ensures
        r == archived@,
        r == <[U] as ArchivePointee>::spec_pointer_metadata(archived),
        r == archived.bytes@[0] + 0x100 * archived.bytes@[1] + 0x1_0000 * archived.bytes@[2]
            + 0x100_0000 * archived.bytes@[3],
{
}

/// The metadata of a pointer to a string slice is exactly the number that was archived.
pub proof fn law_str_metadata(archived: ArchivedU32, r: usize)
    requires
        call_ensures(<str as ArchivePointee>::pointer_metadata, (&archived,), r),
    ensures
        r == archived@,
        r == <str as ArchivePointee>::spec_pointer_metadata(archived),
        r == archived.bytes@[0] + 0x100 * archived.bytes@[1] + 0x1_0000 * archived.bytes@[2]
            + 0x100_0000 * archived.bytes@[3],
{
}

/// What archived metadata of slices and string slices stands for is the archived number.
pub proof fn law_lengths_stand_for_themselves<U>(archived: ArchivedU32)
    ensures
        <[U] as ArchivePointee>::spec_pointer_metadata(archived) == archived@,
        <str as ArchivePointee>::spec_pointer_metadata(archived) == archived@,
{
}

/// A length that was archived for a slice or a string slice is found again.
pub proof fn law_archived_length_is_found_again<U>(
    length: u32,
    archived: ArchivedU32,
    slice_metadata: usize,
    str_metadata: usize,
)
    requires
        call_ensures(ArchivedU32::from_native, (length,), archived),
        call_ensures(<[U] as ArchivePointee>::pointer_metadata, (&archived,), slice_metadata),
        call_ensures(<str as ArchivePointee>::pointer_metadata, (&archived,), str_metadata),
    ensures
        slice_metadata == length,
        str_metadata == length,
{
}

/// The metadata of a byte slice is resolved exactly where its length fits in 32 bits, and is that
/// length, whatever the position.
pub proof fn law_byte_slice_metadata(value: &[u8], pos: usize, out: &mut ArchivedU32)
    requires
        value@.len() <= 0xffff_ffff,
        call_ensures(<[u8] as ArchiveUnsized>::resolve_metadata, (value, pos, (), out), ()),
    ensures
        final(out)@ == value@.len(),
        *final(out) == value.archived_metadata(pos, ()),
{
}

/// A byte slice can be resolved if and only if its length fits in 32 bits.
pub proof fn law_byte_slice_resolved_by(value: &[u8], pos: usize)
    ensures
        value.resolved_by(()) <==> value@.len() <= 0xffff_ffff,
        value@.len() <= 0xffff_ffff ==> value.archived_metadata(pos, ())@ == value@.len(),
{
}

} // verus!
