//! What a typed relative pointer can point to.

use crate::primitive::ArchivedU32;
use vstd::prelude::*;

verus! {

/// A type that an archived pointer can point to.
///
/// A pointer to a value of the type consists of an address and of metadata that, for a type
/// without a fixed size, tells what the address alone does not. An archived pointer holds that
/// metadata in an archived form.
pub trait ArchivePointee {
    /// The metadata of pointers to this type.
    type Metadata;

    /// The archived version of that metadata.
    type ArchivedMetadata;

    /// The metadata that `archived` stands for.
    spec fn spec_pointer_metadata(archived: Self::ArchivedMetadata) -> Self::Metadata;

    /// Converts archived metadata to pointer metadata.
    fn pointer_metadata(archived: &Self::ArchivedMetadata) -> (r: Self::Metadata)
        ensures
            r == Self::spec_pointer_metadata(*archived),
    ;
}

/// Pointers to types of a fixed size need no metadata.
impl<T> ArchivePointee for T {
    type Metadata = ();

    type ArchivedMetadata = ();

    open spec fn spec_pointer_metadata(archived: ()) -> () {
        ()
    }

    fn pointer_metadata(archived: &()) -> (r: ()) {
        ()
    }
}

/// The metadata of a pointer to a slice is the number of its elements, archived in 32 bits.
impl<U> ArchivePointee for [U] {
    type Metadata = usize;

    type ArchivedMetadata = ArchivedU32;

    open spec fn spec_pointer_metadata(archived: ArchivedU32) -> usize {
        archived@ as usize
    }

    fn pointer_metadata(archived: &ArchivedU32) -> (r: usize)
        ensures
            r == archived@,
    {
        archived.to_native() as usize
    }
}

/// The metadata of a pointer to a string slice is the number of its bytes, archived in 32 bits.
impl ArchivePointee for str {
    type Metadata = usize;

    type ArchivedMetadata = ArchivedU32;

    open spec fn spec_pointer_metadata(archived: ArchivedU32) -> usize {
        archived@ as usize
    }

    fn pointer_metadata(archived: &ArchivedU32) -> (r: usize)
        ensures
            r == archived@,
    {
        archived.to_native() as usize
    }
}

/// A value that is archived as an [`ArchivePointee`], possibly of no fixed size.
pub trait ArchiveUnsized {
    /// The archived counterpart of this type.
    type Archived: ArchivePointee + ?Sized;

    /// What serializing the metadata of a value leaves for resolving it.
    type MetadataResolver;

    /// Whether serializing the metadata of this value can have left `resolver`.
    spec fn resolved_by(&self, resolver: Self::MetadataResolver) -> bool;

    /// The archived metadata of this value, for a pointer that keeps it at position `pos`.
    spec fn archived_metadata(
        &self,
        pos: usize,
        resolver: Self::MetadataResolver,
    ) -> <Self::Archived as ArchivePointee>::ArchivedMetadata;

    /// Creates the archived version of the metadata of this value at the position `pos`, in `out`.
    fn resolve_metadata(
        &self,
        pos: usize,
        resolver: Self::MetadataResolver,
        out: &mut <Self::Archived as ArchivePointee>::ArchivedMetadata,
    )
        requires
            self.resolved_by(resolver),
        ensures
            *final(out) == self.archived_metadata(pos, resolver),
    ;
}

/// Byte slices are archived as they are. Only the length of one that fits in 32 bits is serialized.
impl ArchiveUnsized for [u8] {
    type Archived = [u8];

    type MetadataResolver = ();

    open spec fn resolved_by(&self, resolver: ()) -> bool {
        self@.len() <= u32::MAX
    }

    open spec fn archived_metadata(&self, pos: usize, resolver: ()) -> ArchivedU32 {
        ArchivedU32::from_native(self@.len() as u32)
    }

    fn resolve_metadata(&self, pos: usize, resolver: (), out: &mut ArchivedU32)
        ensures
            final(out)@ == self@.len(),
    {
        *out = ArchivedU32::from_native(self.len() as u32);
    }
}

/// A pointer to a value of type `T`, in parts.
pub struct RawParts<T: ArchivePointee + ?Sized> {
    /// The address of the value.
    pub address: usize,
    /// The metadata that belongs to the address.
    pub metadata: T::Metadata,
}

} // verus!
