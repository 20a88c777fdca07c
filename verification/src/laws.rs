//! What holds of relative pointers across several operations.

use crate::offset::{Offset, OffsetError};
use crate::pointee::{ArchivePointee, ArchiveUnsized};
use crate::primitive::ArchivedU32;
use crate::raw_rel_ptr::RawRelPtr;
use crate::rel_ptr::{Layout, RelPtr};
use vstd::prelude::*;

verus! {

/// An offset that was created between two positions leads from the first to the second: nothing of
/// the distance is lost when it is read as an `isize`.
pub proof fn law_offset_leads_to_position<O: Offset>(offset: O, from: usize, to: usize)
    requires
        crate::offset::distance_between::<O>(from, to) == Ok::<int, OffsetError>(
            offset.stored(),
        ),
    ensures
        crate::offset::wrapped_isize(offset.stored()) == offset.stored(),
        from + crate::offset::wrapped_isize(offset.stored()) == to,
{
}

/// Whether an offset can be created, and which one it is, depends on the distance between the two
/// positions alone.
pub proof fn law_only_the_distance_counts<O: Offset>(
    from: usize,
    to: usize,
    moved_from: usize,
    moved_to: usize,
)
    requires
        to - from == moved_to - moved_from,
    ensures
        crate::offset::distance_between::<O>(moved_from, moved_to)
            == crate::offset::distance_between::<O>(from, to),
{
}

/// A pointer that stands at position `from` of an archive and was emplaced between `from` and `to`
/// resolves to position `to` of that archive, wherever in memory the archive starts.
pub proof fn law_emplaced_pointer_resolves<O: Offset>(
    start: int,
    from: usize,
    to: usize,
    before: RawRelPtr<O>,
    after: RawRelPtr<O>,
)
    requires
        before.base() == start + from,
        0 <= start + to <= usize::MAX,
        crate::offset::emplace_result::<O>(from, to) is Ok,
        RawRelPtr::emplaced(from, to, before, after),
    ensures
        after.base() + after.offset() == start + to,
        after.target() == start + to,
{
    crate::raw_rel_ptr::lemma_wrapped_once(start + to);
}

/// Where the offset does not lead out of the address space, the plain and the wrapping way to
/// resolve a pointer agree.
pub proof fn law_wrapping_agrees<O: Offset>(ptr: RawRelPtr<O>)
    requires
        0 <= ptr.base() + ptr.offset() <= usize::MAX,
    ensures
        ptr.target() == ptr.base() + ptr.offset(),
{
    crate::raw_rel_ptr::lemma_wrapped_once(ptr.base() + ptr.offset());
}

/// A pointer that is moved together with its target resolves to the target at its new address.
pub proof fn law_relocated_with_target<O: Offset>(
    ptr: RawRelPtr<O>,
    moved: RawRelPtr<O>,
    shift: int,
)
    requires
        moved.stored_offset() == ptr.stored_offset(),
        moved.base() == ptr.base() + shift,
        0 <= ptr.target() + shift <= usize::MAX,
    ensures
        moved.target() == ptr.target() + shift,
{
    law_valid_iff_moved_together(ptr, moved, (ptr.target() + shift) as usize);
}

/// A pointer whose offset stays as it was still resolves to its target after a move if and only if
/// both were moved by the same distance, counted around the address space. If either of them moved
/// independently, the pointer is invalidated.
pub proof fn law_valid_iff_moved_together<O: Offset>(
    ptr: RawRelPtr<O>,
    moved: RawRelPtr<O>,
    moved_target: usize,
)
    requires
        moved.stored_offset() == ptr.stored_offset(),
    ensures
        moved.target() == moved_target <==> crate::raw_rel_ptr::wrapped_address(
            moved.base() - ptr.base(),
        ) == crate::raw_rel_ptr::wrapped_address(moved_target - ptr.target()),
{
    let size = usize::MAX + 1;
    let n = ptr.base() + ptr.offset();
    let m = moved.base() + moved.offset();
    let a = m - n;
    let b = moved_target - ptr.target();
    assert(a == moved.base() - ptr.base());
    vstd::arithmetic::div_mod::lemma_mod_equivalence(a, b, size);
    vstd::arithmetic::div_mod::lemma_mod_equivalence(m, moved_target as int, size);
    vstd::arithmetic::div_mod::lemma_small_mod(moved_target as nat, size as nat);
    // Both differences vanish together: they are apart by `n` less its own remainder.
    vstd::arithmetic::div_mod::lemma_sub_mod_noop_right(m - moved_target, n - n % size, size);
    vstd::arithmetic::div_mod::lemma_sub_mod_noop_right(n, n, size);
    assert((n - n % size) % size == 0);
    assert(a - b == (m - moved_target) - (n - n % size));
}

/// A pointer is null if and only if it resolves to itself.
pub proof fn law_null_resolves_to_base<O: Offset>(ptr: RawRelPtr<O>)
    ensures
        ptr.is_null() <==> ptr.target() == ptr.base(),
{
    crate::raw_rel_ptr::lemma_wrapped_once(ptr.base() + ptr.offset());
}

/// Emplacing a pointer makes it null if and only if it points from a position to that same
/// position.
pub proof fn law_emplaced_null_iff_same_position<O: Offset>(
    from: usize,
    to: usize,
    before: RawRelPtr<O>,
    after: RawRelPtr<O>,
)
    requires
        crate::offset::emplace_result::<O>(from, to) is Ok,
        RawRelPtr::emplaced(from, to, before, after),
    ensures
        after.is_null() <==> from == to,
{
}

/// A typed pointer that begins at position `from` of an archive and was emplaced between `from` and
/// `to` resolves to position `to` of that archive, with the metadata that it was given, wherever in
/// memory the archive starts and wherever in the pointer its fields stand.
pub proof fn law_emplaced_typed_pointer_resolves<
    T: ArchivePointee + ?Sized,
    O: Offset,
    L: Layout<O, T::ArchivedMetadata>,
>(
    start: int,
    from: usize,
    to: usize,
    metadata: T::ArchivedMetadata,
    before: RelPtr<T, O, L>,
    after: RelPtr<T, O, L>,
)
    requires
        before.address() == start + from,
        from + L::positions().raw <= usize::MAX,
        0 <= start + to <= usize::MAX,
        crate::offset::emplace_result::<O>(RelPtr::<T, O, L>::raw_position(from), to) is Ok,
        RelPtr::emplaced(from, to, metadata, before, after),
    ensures
        after.address() == before.address(),
        after.base() + after.offset() == start + to,
        after.target() == start + to,
        *after.metadata() == metadata,
{
    law_emplaced_pointer_resolves(start, RelPtr::<T, O, L>::raw_position(from), to, *before.raw(), *after.raw());
}

/// A typed pointer that is moved together with its target resolves to the target at its new
/// address, with the metadata that it had.
pub proof fn law_typed_relocated_with_target<
    T: ArchivePointee + ?Sized,
    O: Offset,
    L: Layout<O, T::ArchivedMetadata>,
>(
    ptr: RelPtr<T, O, L>,
    moved: RelPtr<T, O, L>,
    shift: int,
)
    requires
        moved.raw().stored_offset() == ptr.raw().stored_offset(),
        moved.metadata() == ptr.metadata(),
        moved.address() == ptr.address() + shift,
        0 <= ptr.target() + shift <= usize::MAX,
    ensures
        moved.target() == ptr.target() + shift,
        T::spec_pointer_metadata(*moved.metadata()) == T::spec_pointer_metadata(*ptr.metadata()),
{
    law_relocated_with_target(*ptr.raw(), *moved.raw(), shift);
}

/// A pointer that was emplaced as null is null, at the place where it was, with default metadata.
pub proof fn law_emplaced_null_is_null<
    T: ArchivePointee + ?Sized,
    O: Offset,
    L: Layout<O, T::ArchivedMetadata>,
>(
    pos: usize,
    before: RelPtr<T, O, L>,
    after: RelPtr<T, O, L>,
) where T::ArchivedMetadata: Default
    requires
        RelPtr::emplaced_null(pos, before, after),
    ensures
        after.is_null(),
        after.target() == before.base(),
        after.address() == before.address(),
        call_ensures(<T::ArchivedMetadata as Default>::default, (), *after.metadata()),
{
    law_null_resolves_to_base(*after.raw());
}

/// A pointer to a slice that was emplaced as null has length 0.
pub proof fn law_null_slice_is_empty<U, O: Offset, L: Layout<O, ArchivedU32>>(
    pos: usize,
    before: RelPtr<[U], O, L>,
    after: RelPtr<[U], O, L>,
)
    requires
        RelPtr::emplaced_null(pos, before, after),
    ensures
        <[U] as ArchivePointee>::spec_pointer_metadata(*after.metadata()) == 0,
{
}

/// A pointer to a string slice that was emplaced as null has length 0.
pub proof fn law_null_str_is_empty<O: Offset, L: Layout<O, ArchivedU32>>(
    pos: usize,
    before: RelPtr<str, O, L>,
    after: RelPtr<str, O, L>,
)
    requires
        RelPtr::emplaced_null(pos, before, after),
    ensures
        <str as ArchivePointee>::spec_pointer_metadata(*after.metadata()) == 0,
{
}

/// The base of a typed pointer lies inside it, together with all bytes of the untyped pointer, and
/// is as far from the beginning as in every other pointer of that type, whatever offset and
/// metadata they store.
pub proof fn law_base_inside_at_the_same_place<
    T: ArchivePointee + ?Sized,
    O: Offset,
    L: Layout<O, T::ArchivedMetadata>,
>(ptr: RelPtr<T, O, L>, other: RelPtr<T, O, L>)
    ensures
        ptr.address() <= ptr.base(),
        ptr.base() + vstd::layout::size_of::<O>() <= ptr.address() + RelPtr::<T, O, L>::size(),
        ptr.base() - ptr.address() == other.base() - other.address(),
{
}

/// A byte slice whose length was serialized is found again with that length.
pub proof fn law_byte_slice_keeps_its_length(value: &[u8], pos: usize)
    requires
        value.resolved_by(()),
    ensures
        <[u8] as ArchivePointee>::spec_pointer_metadata(value.archived_metadata(pos, ()))
            == value@.len(),
{
}

/// Emplacing a pointer with metadata that is resolved from a value and emplacing it with the same
/// metadata supplied directly come to the same.
pub proof fn law_metadata_source_does_not_count<
    T: ArchivePointee + ?Sized,
    O: Offset,
    L: Layout<O, T::ArchivedMetadata>,
    U,
>(
    from: usize,
    to: usize,
    value: &U,
    metadata_resolver: U::MetadataResolver,
    archived_metadata: T::ArchivedMetadata,
    before: RelPtr<T, O, L>,
    resolved: RelPtr<T, O, L>,
    supplied: RelPtr<T, O, L>,
) where U: ArchiveUnsized<Archived = T> + ?Sized
    requires
        archived_metadata == value.archived_metadata(
            RelPtr::<T, O, L>::metadata_position(from),
            metadata_resolver,
        ),
        RelPtr::emplaced(
            from,
            to,
            value.archived_metadata(RelPtr::<T, O, L>::metadata_position(from), metadata_resolver),
            before,
            resolved,
        ),
        RelPtr::emplaced(from, to, archived_metadata, before, supplied),
    ensures
        supplied.base() == resolved.base(),
        supplied.offset() == resolved.offset(),
        supplied.metadata() == resolved.metadata(),
{
}

} // verus!
