//! The typed relative pointer.

use crate::offset::{Offset, OffsetError};
use crate::pointee::{ArchivePointee, ArchiveUnsized, RawParts};
use crate::raw_rel_ptr::RawRelPtr;
use std::marker::PhantomData;
use vstd::prelude::*;

verus! {

/// Where the fields of a [`RelPtr`] stand, counted in bytes from its beginning.
#[derive(Clone, Copy, Debug, PartialEq, Eq)]
pub struct FieldPositions {
    /// The position of the untyped pointer.
    pub raw: usize,
    /// The position of the metadata.
    pub metadata: usize,
}

/// A way to lay out a [`RelPtr`] with offsets of type `O` and archived metadata of type `M`.
pub trait Layout<O, M> {
    /// The positions of the fields.
    spec fn positions() -> FieldPositions;

    /// Gets the positions of the fields. No byte belongs to both fields.
    fn fields() -> (r: FieldPositions)
        ensures
            r == Self::positions(),
            r.raw + vstd::layout::size_of::<O>() <= r.metadata || r.metadata
                + vstd::layout::size_of::<M>() <= r.raw,
    ;
}

/// The layout in which the untyped pointer comes first and the metadata follows it at once.
pub struct Packed;

impl<O, M> Layout<O, M> for Packed {
    open spec fn positions() -> FieldPositions {
        FieldPositions { raw: 0, metadata: vstd::layout::size_of::<O>() as usize }
    }

    fn fields() -> (r: FieldPositions) {
        FieldPositions { raw: 0, metadata: std::mem::size_of::<O>() }
    }
}

/// The number of bytes that a typed pointer takes up in the layout `L`, from its beginning to the
/// end of its last field.
pub open spec fn layout_size<O, M, L: Layout<O, M>>() -> int {
    let raw_end = L::positions().raw + vstd::layout::size_of::<O>();
    let metadata_end = L::positions().metadata + vstd::layout::size_of::<M>();
    if raw_end < metadata_end {
        metadata_end
    } else {
        raw_end
    }
}

/// The untyped pointer in a typed pointer, at an address that leaves room for what stands before
/// it.
struct Anchored<O: Offset, M, L: Layout<O, M>> {
    raw: RawRelPtr<O>,
    _layout: PhantomData<(M, L)>,
}

impl<O: Offset, M, L: Layout<O, M>> Anchored<O, M, L> {
    #[verifier::type_invariant]
    spec fn inv(&self) -> bool {
        L::positions().raw <= self.raw.base()
    }

    /// Attempts to emplace the untyped pointer between the given positions.
    fn try_emplace(&mut self, from: usize, to: usize) -> (r: Result<(), OffsetError>)
        ensures
            r == crate::offset::emplace_result::<O>(from, to),
            RawRelPtr::emplaced(from, to, old(self).raw, final(self).raw),
            r is Err ==> *final(self) == *old(self),
    {
        proof {
            use_type_invariant(&*self);
        }
        let mut raw = RawRelPtr::at(self.raw.base(), self.raw.stored_offset());
        match RawRelPtr::try_emplace(from, to, &mut raw) {
            Ok(_) => {
                self.raw = raw;
                Ok(())
            },
            Err(error) => Err(error),
        }
    }
}

/// A pointer which resolves to relative to its position in memory.
///
/// This is a strongly-typed version of [`RawRelPtr`]. Beside the untyped pointer it keeps the
/// metadata of its pointee, each at the position that the layout `L` gives to it.
pub struct RelPtr<
    T: ArchivePointee + ?Sized,
    O: Offset,
    L: Layout<O, T::ArchivedMetadata> = Packed,
> {
    anchored: Anchored<O, T::ArchivedMetadata, L>,
    metadata: T::ArchivedMetadata,
    _phantom: PhantomData<T>,
}

impl<T: ArchivePointee + ?Sized, O: Offset, L: Layout<O, T::ArchivedMetadata>> RelPtr<T, O, L> {
    /// The untyped pointer.
    pub closed spec fn spec_raw(&self) -> &RawRelPtr<O> {
        &self.anchored.raw
    }

    /// The metadata of the pointee.
    pub closed spec fn spec_metadata(&self) -> &T::ArchivedMetadata {
        &self.metadata
    }

    /// The address at which the untyped pointer stands.
    pub open spec fn spec_base(&self) -> usize {
        self.raw().base()
    }

    /// The number of bytes that the typed pointer takes up.
    pub open spec fn size() -> int {
        layout_size::<O, T::ArchivedMetadata, L>()
    }

    /// The address at which the typed pointer, with both its fields, begins.
    pub open spec fn address(&self) -> int {
        self.base() - L::positions().raw
    }

    /// The position of the untyped pointer in a typed pointer at position `pos`.
    pub open spec fn raw_position(pos: usize) -> usize {
        (pos + L::positions().raw) as usize
    }

    /// The position of the metadata in a typed pointer at position `pos`.
    pub open spec fn metadata_position(pos: usize) -> usize {
        (pos + L::positions().metadata) as usize
    }

    /// The relative pointer that is made up of `raw` and `metadata`.
    ///
    /// The typed pointer must not begin before the address space does.
    pub fn new(raw: RawRelPtr<O>, metadata: T::ArchivedMetadata) -> (r: Self)
        requires
            L::positions().raw <= raw.base(),
        ensures
            r.raw() == raw,
            r.metadata() == metadata,
    {
        RelPtr { anchored: Anchored { raw, _layout: PhantomData }, metadata, _phantom: PhantomData }
    }

    /// Takes the relative pointer apart into what it was made of.
    pub fn into_parts(self) -> (r: (RawRelPtr<O>, T::ArchivedMetadata))
        ensures
            r.0 == self.raw(),
            r.1 == self.metadata(),
    {
        (self.anchored.raw, self.metadata)
    }

    /// Gets the untyped pointer.
    #[verifier::when_used_as_spec(spec_raw)]
    pub fn raw(&self) -> (r: &RawRelPtr<O>)
        ensures
            r == self.raw(),
    {
        &self.anchored.raw
    }

    /// Gets the base address of the relative pointer.
    ///
    /// It lies inside the typed pointer, as far from the beginning as in every typed pointer of
    /// the same layout, and the untyped pointer that stands there ends inside it too.
    #[verifier::when_used_as_spec(spec_base)]
    pub fn base(&self) -> (r: usize)
        ensures
            r == self.base(),
            0 <= self.address() <= r,
            r == self.address() + L::positions().raw,
            r + vstd::layout::size_of::<O>() <= self.address() + Self::size(),
    {
        proof {
            use_type_invariant(&self.anchored);
        }
        self.anchored.raw.base()
    }

    /// Gets the metadata of the relative pointer.
    #[verifier::when_used_as_spec(spec_metadata)]
    pub fn metadata(&self) -> (r: &T::ArchivedMetadata)
        ensures
            r == self.metadata(),
    {
        &self.metadata
    }
}

impl<T, O: Offset, L: Layout<O, ()>> RelPtr<T, O, L> {
    /// Attempts to create a relative pointer from one position to another.
    ///
    /// `from` is the position of `out` within the archive, `to` that of the value pointed to.
    pub fn try_emplace(from: usize, to: usize, out: &mut Self) -> (r: Result<(), OffsetError>)
        requires
            from + L::positions().raw <= usize::MAX,
        ensures
            r == crate::offset::emplace_result::<O>(Self::raw_position(from), to),
            Self::emplaced(from, to, *old(out).metadata(), *old(out), *final(out)),
    {
        out.anchored.try_emplace(from + L::fields().raw, to)
    }

    /// Creates a relative pointer from one position to another.
    ///
    /// `from` is the position of `out` within the archive, `to` that of the value pointed to. The
    /// offset to `to` from the position of the untyped pointer in `out` must fit in an `isize` and
    /// not exceed the offset storage.
    pub fn emplace(from: usize, to: usize, out: &mut Self)
        requires
            from + L::positions().raw <= usize::MAX,
            crate::offset::emplace_result::<O>(Self::raw_position(from), to) is Ok,
        ensures
            Self::emplaced(from, to, *old(out).metadata(), *old(out), *final(out)),
    {
        Self::try_emplace(from, to, out).unwrap();
    }
}

impl<T: ArchivePointee + ?Sized, O: Offset, L: Layout<O, T::ArchivedMetadata>> RelPtr<
    T,
    O,
    L,
> where T::ArchivedMetadata: Default {
    /// Attempts to create a null relative pointer with default metadata.
    ///
    /// `pos` is the position of `out` within the archive.
    pub fn try_emplace_null(pos: usize, out: &mut Self) -> (r: Result<(), OffsetError>)
        requires
            pos + L::positions().raw <= usize::MAX,
        ensures
            r == (if O::holds(0) {
                Ok::<(), OffsetError>(())
            } else {
                Err(OffsetError::ExceedsStorageRange)
            }),
            r is Ok ==> Self::emplaced_null(pos, *old(out), *final(out)),
            r is Err ==> *final(out) == *old(out),
    {
        let place: usize = pos + L::fields().raw;
        match out.anchored.try_emplace(place, place) {
            Ok(_) => {
                out.metadata = Default::default();
                Ok(())
            },
            Err(error) => Err(error),
        }
    }

    /// Creates a null relative pointer with default metadata.
    ///
    /// `pos` is the position of `out` within the archive. An offset of `0` must not exceed the
    /// offset storage.
    pub fn emplace_null(pos: usize, out: &mut Self)
        requires
            pos + L::positions().raw <= usize::MAX,
            O::holds(0),
        ensures
            Self::emplaced_null(pos, *old(out), *final(out)),
    {
        Self::try_emplace_null(pos, out).unwrap()
    }

    /// What emplacing a null pointer at position `pos` makes of the pointer `before`: its offset
    /// becomes the one that `O` creates between a position and itself, which is 0, its metadata the
    /// default, and its place stays.
    pub open spec fn emplaced_null(pos: usize, before: Self, after: Self) -> bool {
        let place = Self::raw_position(pos);
        &&& RawRelPtr::emplaced(place, place, *before.raw(), *after.raw())
        &&& after.raw().stored_offset().stored() == 0
        &&& after.base() == before.base()
        &&& call_ensures(<T::ArchivedMetadata as Default>::default, (), *after.metadata())
    }
}

impl<T: ArchivePointee + ?Sized, O: Offset, L: Layout<O, T::ArchivedMetadata>> RelPtr<T, O, L> {
    /// The offset of the untyped pointer.
    pub open spec fn spec_offset(&self) -> isize {
        self.raw().offset()
    }

    /// Whether the offset is 0.
    pub open spec fn spec_is_null(&self) -> bool {
        self.raw().is_null()
    }

    /// The address that the pointer resolves to, wrapped around at the ends of the address space.
    pub open spec fn target(&self) -> int {
        self.raw().target()
    }

    /// What an attempt to emplace a pointer between `from` and `to` with the given metadata makes
    /// of the pointer `before`: its untyped pointer is emplaced, it gets the metadata, and its
    /// place stays; or, where no offset of type `O` is that far, it stays as it is.
    pub open spec fn emplaced(
        from: usize,
        to: usize,
        metadata: T::ArchivedMetadata,
        before: Self,
        after: Self,
    ) -> bool {
        let raw_from = Self::raw_position(from);
        if crate::offset::emplace_result::<O>(raw_from, to) is Ok {
            &&& RawRelPtr::emplaced(raw_from, to, *before.raw(), *after.raw())
            &&& *after.metadata() == metadata
        } else {
            after == before
        }
    }

    /// Attempts to create a relative pointer from one position to another.
    ///
    /// `from` is the position of `out` within the archive, `to` that of the value pointed to.
    /// `value` is the value being serialized, and `metadata_resolver` the result of serializing its
    /// metadata.
    pub fn try_resolve_emplace<U: ArchiveUnsized<Archived = T> + ?Sized>(
        from: usize,
        to: usize,
        value: &U,
        metadata_resolver: U::MetadataResolver,
        out: &mut Self,
    ) -> (r: Result<(), OffsetError>)
        requires
            from + L::positions().raw <= usize::MAX,
            crate::offset::emplace_result::<O>(Self::raw_position(from), to) is Ok ==> from
                + L::positions().metadata <= usize::MAX,
            value.resolved_by(metadata_resolver),
        ensures
            r == crate::offset::emplace_result::<O>(Self::raw_position(from), to),
            Self::emplaced(
                from,
                to,
                value.archived_metadata(Self::metadata_position(from), metadata_resolver),
                *old(out),
                *final(out),
            ),
    {
        match out.anchored.try_emplace(from + L::fields().raw, to) {
            Ok(_) => {
                let pos: usize = from + L::fields().metadata;
                value.resolve_metadata(pos, metadata_resolver, &mut out.metadata);
                Ok(())
            },
            Err(error) => Err(error),
        }
    }

    /// Creates a relative pointer from one position to another.
    ///
    /// `from` is the position of `out` within the archive, `to` that of the value pointed to. The
    /// offset to `to` from the position of the untyped pointer in `out` must fit in an `isize` and
    /// not exceed the offset storage. `value` is the value being serialized, and
    /// `metadata_resolver` the result of serializing its metadata.
    pub fn resolve_emplace<U: ArchiveUnsized<Archived = T> + ?Sized>(
        from: usize,
        to: usize,
        value: &U,
        metadata_resolver: U::MetadataResolver,
        out: &mut Self,
    )
        requires
            from + L::positions().raw <= usize::MAX,
            from + L::positions().metadata <= usize::MAX,
            crate::offset::emplace_result::<O>(Self::raw_position(from), to) is Ok,
            value.resolved_by(metadata_resolver),
        ensures
            Self::emplaced(
                from,
                to,
                value.archived_metadata(Self::metadata_position(from), metadata_resolver),
                *old(out),
                *final(out),
            ),
    {
        Self::try_resolve_emplace(from, to, value, metadata_resolver, out).unwrap();
    }

    /// Attempts to create a relative pointer from one position to another given raw pointer
    /// metadata.
    ///
    /// This does the same thing as [`RelPtr::try_resolve_emplace`], but the archived metadata is
    /// supplied directly rather than through an implementation of [`ArchiveUnsized`] on some value.
    pub fn try_resolve_emplace_from_raw_parts(
        from: usize,
        to: usize,
        archived_metadata: T::ArchivedMetadata,
        out: &mut Self,
    ) -> (r: Result<(), OffsetError>)
        requires
            from + L::positions().raw <= usize::MAX,
        ensures
            r == crate::offset::emplace_result::<O>(Self::raw_position(from), to),
            Self::emplaced(from, to, archived_metadata, *old(out), *final(out)),
    {
        match out.anchored.try_emplace(from + L::fields().raw, to) {
            Ok(_) => {
                out.metadata = archived_metadata;
                Ok(())
            },
            Err(error) => Err(error),
        }
    }

    /// Creates a relative pointer from one position to another given raw pointer metadata.
    ///
    /// This does the same thing as [`RelPtr::resolve_emplace`], but the archived metadata is
    /// supplied directly rather than through an implementation of [`ArchiveUnsized`] on some value.
    /// The offset to `to` from the position of the untyped pointer in `out` must fit in an `isize`
    /// and not exceed the offset storage.
    pub fn resolve_emplace_from_raw_parts(
        from: usize,
        to: usize,
        archived_metadata: T::ArchivedMetadata,
        out: &mut Self,
    )
        requires
            from + L::positions().raw <= usize::MAX,
            crate::offset::emplace_result::<O>(Self::raw_position(from), to) is Ok,
        ensures
            Self::emplaced(from, to, archived_metadata, *old(out), *final(out)),
    {
        Self::try_resolve_emplace_from_raw_parts(from, to, archived_metadata, out).unwrap();
    }

    /// Gets the offset of the relative pointer from its base.
    #[verifier::when_used_as_spec(spec_offset)]
    pub fn offset(&self) -> (r: isize)
        ensures
            r == self.offset(),
    {
        self.anchored.raw.offset()
    }

    /// Gets whether the offset of the relative pointer is 0.
    #[verifier::when_used_as_spec(spec_is_null)]
    pub fn is_null(&self) -> (r: bool)
        ensures
            r == self.is_null(),
    {
        self.anchored.raw.is_null()
    }

    /// Calculates the pointer that this relative pointer resolves to.
    ///
    /// The offset of this relative pointer, when added to its base, must not leave the address
    /// space.
    pub fn as_ptr(&self) -> (r: RawParts<T>)
        requires
            0 <= self.base() + self.offset() <= usize::MAX,
        ensures
            r.address == self.base() + self.offset(),
            r.metadata == T::spec_pointer_metadata(*self.metadata()),
    {
        RawParts { address: self.anchored.raw.as_ptr(), metadata: T::pointer_metadata(&self.metadata) }
    }

    /// Calculates the pointer that this relative pointer resolves to, using wrapping methods.
    pub fn as_ptr_wrapping(&self) -> (r: RawParts<T>)
        ensures
            r.address == self.target(),
            0 <= self.base() + self.offset() <= usize::MAX ==> r.address == self.base()
                + self.offset(),
            r.metadata == T::spec_pointer_metadata(*self.metadata()),
    {
        RawParts {
            address: self.anchored.raw.as_ptr_wrapping(),
            metadata: T::pointer_metadata(&self.metadata),
        }
    }
}

} // verus!
