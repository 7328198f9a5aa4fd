use vstd::prelude::*;

verus! {

/// Errors of the persisted-state layer.
#[derive(Clone, Copy, Debug, PartialEq, Eq, Structural)]
pub enum StateError {
    /// A field identifier was not found in the registry. The registry is
    /// populated with every identifier at construction, so no operation of
    /// this crate returns it; it is part of the taxonomy for callers that
    /// extend the registry.
    UnknownField,
    /// A byte range reaches past the end of the 128-byte record.
    OutOfBounds,
    /// The declared length of a field disagrees with the length of the data
    /// supplied for it.
    LengthMismatch,
    /// A typed accessor was applied to a field of a different width or kind,
    /// or a value does not fit in its field: one wider than the declared
    /// width, or an endianness marker inconsistent with the little-endian
    /// codec.
    FieldWidthMismatch,
    /// The backing directory or file could not be created or written.
    /// Raised only by the embedding program around file operations.
    StorageUnavailable,
    /// The stored image is not a valid 128-byte record.
    CorruptStore,
}

} // verus!
