//! Field registry: the static mapping from a named field identifier to its
//! byte offset and byte length within the 128-byte record.
//!
//! The registered ranges follow the canonical layout of the record format:
//! a version/endianness header, a serial number, a block of counters and
//! status flags, the dosage defaults, and two reserved regions (bytes 12..32
//! and 54..128) that are kept free for future fields.

use vstd::prelude::*;

verus! {

/// Total size of the persisted record in bytes.
pub const RECORD_SIZE: usize = 128;

/// Identifier of one registered field of the persisted record.
#[derive(Clone, Copy, Debug, PartialEq, Eq, Structural)]
pub enum FieldId {
    /// Byte 3: 0 for little-endian, 1 for big-endian multi-byte fields.
    Endianness,
    /// Bytes 33..37: lifetime count of brewed coffees, little-endian u32.
    NumberOfCoffeesMade,
    /// Byte 37: boolean flag, 0x00 or 0xFF.
    NeedsCoffeeBeans,
    /// Byte 38: boolean flag, 0x00 or 0xFF.
    NeedsWater,
    /// Byte 39: boolean flag, 0x00 or 0xFF.
    NeedsGroundsRemoval,
    /// Byte 40: boolean flag, 0x00 or 0xFF.
    NeedsDescaling,
    /// Bytes 46..50: default water dosage in ml, little-endian u32.
    DefaultWaterDosage,
    /// Bytes 50..54: default coffee dosage in grams, little-endian u32.
    DefaultCoffeeDosage,
}

/// The kind of value a field holds, deciding which typed accessor fits it.
#[derive(Clone, Copy, Debug, PartialEq, Eq, Structural)]
pub enum FieldKind {
    /// A single raw byte (the endianness marker).
    ByteField,
    /// A boolean stored as one byte, 0x00 or 0xFF.
    FlagField,
    /// A little-endian u32 counter.
    CounterField,
    /// A little-endian u32 dosage default.
    DosageField,
}

/// Byte offset of a field within the record.
pub open spec fn field_offset(f: FieldId) -> nat {
    match f {
        FieldId::Endianness => 3,
        FieldId::NumberOfCoffeesMade => 33,
        FieldId::NeedsCoffeeBeans => 37,
        FieldId::NeedsWater => 38,
        FieldId::NeedsGroundsRemoval => 39,
        FieldId::NeedsDescaling => 40,
        FieldId::DefaultWaterDosage => 46,
        FieldId::DefaultCoffeeDosage => 50,
    }
}

/// Byte length of a field within the record.
pub open spec fn field_len(f: FieldId) -> nat {
    match f {
        FieldId::Endianness => 1,
        FieldId::NumberOfCoffeesMade => 4,
        FieldId::NeedsCoffeeBeans => 1,
        FieldId::NeedsWater => 1,
        FieldId::NeedsGroundsRemoval => 1,
        FieldId::NeedsDescaling => 1,
        FieldId::DefaultWaterDosage => 4,
        FieldId::DefaultCoffeeDosage => 4,
    }
}

/// The kind of each registered field.
pub open spec fn field_kind(f: FieldId) -> FieldKind {
    match f {
        FieldId::Endianness => FieldKind::ByteField,
        FieldId::NumberOfCoffeesMade => FieldKind::CounterField,
        FieldId::NeedsCoffeeBeans => FieldKind::FlagField,
        FieldId::NeedsWater => FieldKind::FlagField,
        FieldId::NeedsGroundsRemoval => FieldKind::FlagField,
        FieldId::NeedsDescaling => FieldKind::FlagField,
        FieldId::DefaultWaterDosage => FieldKind::DosageField,
        FieldId::DefaultCoffeeDosage => FieldKind::DosageField,
    }
}

/// The reserved regions of the record layout, preserved verbatim across
/// read-modify-write cycles: bytes 12..32 and bytes 54..128.
pub open spec fn is_reserved_index(i: int) -> bool {
    (12 <= i < 32) || (54 <= i < 128)
}

/// Resolves a field identifier to its (offset, length) pair.
///
/// The registry is populated with the complete canonical table at
/// construction and never changes, so resolution is total: every identifier
/// of `FieldId` is registered.
pub fn resolve(field: FieldId) -> (r: (usize, usize))
    ensures
        r.0 == field_offset(field),
        r.1 == field_len(field),
{
    match field {
        FieldId::Endianness => (3, 1),
        FieldId::NumberOfCoffeesMade => (33, 4),
        FieldId::NeedsCoffeeBeans => (37, 1),
        FieldId::NeedsWater => (38, 1),
        FieldId::NeedsGroundsRemoval => (39, 1),
        FieldId::NeedsDescaling => (40, 1),
        FieldId::DefaultWaterDosage => (46, 4),
        FieldId::DefaultCoffeeDosage => (50, 4),
    }
}

/// The kind of a field, as executable data.
pub fn kind_of(field: FieldId) -> (k: FieldKind)
    ensures
        k == field_kind(field),
{
    match field {
        FieldId::Endianness => FieldKind::ByteField,
        FieldId::NumberOfCoffeesMade => FieldKind::CounterField,
        FieldId::NeedsCoffeeBeans => FieldKind::FlagField,
        FieldId::NeedsWater => FieldKind::FlagField,
        FieldId::NeedsGroundsRemoval => FieldKind::FlagField,
        FieldId::NeedsDescaling => FieldKind::FlagField,
        FieldId::DefaultWaterDosage => FieldKind::DosageField,
        FieldId::DefaultCoffeeDosage => FieldKind::DosageField,
    }
}

/// Every registered field lies entirely within the record.
pub proof fn lemma_field_in_bounds(f: FieldId)
    ensures
        field_offset(f) + field_len(f) <= RECORD_SIZE,
{
}

/// Disjointness of the registry: no two registered fields overlap. Two
/// distinct fields occupy disjoint byte ranges of the record.
pub proof fn lemma_registry_disjoint(a: FieldId, b: FieldId)
    requires
        a != b,
    ensures
        field_offset(a) + field_len(a) <= field_offset(b) || field_offset(b) + field_len(b)
            <= field_offset(a),
{
}

/// No registered field touches a reserved region of the layout.
pub proof fn lemma_fields_avoid_reserved(f: FieldId, i: int)
    ensures
        field_offset(f) <= i < field_offset(f) + field_len(f) ==> !is_reserved_index(i),
{
}

} // verus!
