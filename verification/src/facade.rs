//! State facade: the public surface combining registry, buffer, codec and
//! persistence gateway behind a typed get/set API.
//!
//! Every read goes registry → buffer → codec; every write goes codec →
//! buffer, after which the caller flushes the image that `save` produces,
//! so the stored copy never lags more than one mutation behind memory.

use crate::codec::{
    decode_flag, decode_u32_le, encode_flag, encode_u32_le, encode_u8_le, flag_byte, flag_value,
    le_bytes, le_value, lemma_le_bytes_len, lemma_le_bytes_single, lemma_le_round_trip,
    lemma_le_value_bound, lemma_pow256_values,
};
use crate::errors::StateError;
use crate::persist::{default_record, image_well_formed, ReadFromFile, WriteToFile};
use crate::record::{lemma_splice_frame, lemma_splice_subrange, splice, Buffer};
use crate::registry::{
    field_kind, field_len, field_offset, is_reserved_index, kind_of, lemma_field_in_bounds,
    lemma_fields_avoid_reserved, resolve, FieldId, FieldKind, RECORD_SIZE,
};
use vstd::prelude::*;

verus! {

/// A typed value for one field of the record.
#[derive(Clone, Copy, Debug, PartialEq, Eq, Structural)]
pub enum FieldValue {
    /// A raw byte, held by `ByteField`s.
    Byte(u8),
    /// A boolean, held by `FlagField`s.
    Flag(bool),
    /// A u32 counter, held by `CounterField`s.
    Counter(u32),
    /// A u32 dosage default, held by `DosageField`s.
    Dosage(u32),
}

/// Whether a typed value has the kind of a field.
pub open spec fn value_has_kind(f: FieldId, v: FieldValue) -> bool {
    match v {
        FieldValue::Byte(_) => field_kind(f) == FieldKind::ByteField,
        FieldValue::Flag(_) => field_kind(f) == FieldKind::FlagField,
        FieldValue::Counter(_) => field_kind(f) == FieldKind::CounterField,
        FieldValue::Dosage(_) => field_kind(f) == FieldKind::DosageField,
    }
}

/// Whether a typed value may be stored in a field: it must have the
/// field's kind, and a raw byte must be 0 — the sole byte field is the
/// endianness marker, which must stay consistent with the little-endian
/// order the codec actually implements.
pub open spec fn value_fits(f: FieldId, v: FieldValue) -> bool {
    &&& value_has_kind(f, v)
    &&& (v matches FieldValue::Byte(b) ==> b == 0)
}

/// The bytes stored for a typed value: raw bytes and normalized flag bytes
/// verbatim, integers as little-endian images.
pub open spec fn value_bytes(v: FieldValue) -> Seq<u8> {
    match v {
        FieldValue::Byte(b) => seq![b],
        FieldValue::Flag(b) => seq![flag_byte(b)],
        FieldValue::Counter(n) => le_bytes(n as nat, 4),
        FieldValue::Dosage(n) => le_bytes(n as nat, 4),
    }
}

/// The bytes of field `f` within record `s`.
pub open spec fn field_bytes(s: Seq<u8>, f: FieldId) -> Seq<u8> {
    s.subrange(field_offset(f) as int, (field_offset(f) + field_len(f)) as int)
}

/// The record bytes after setting field `f` to `v`.
pub open spec fn spec_set(s: Seq<u8>, f: FieldId, v: FieldValue) -> Seq<u8> {
    splice(s, field_offset(f), value_bytes(v))
}

/// The typed value read from field `f` of record `s`.
pub open spec fn spec_get(s: Seq<u8>, f: FieldId) -> FieldValue {
    match field_kind(f) {
        FieldKind::ByteField => FieldValue::Byte(field_bytes(s, f)[0]),
        FieldKind::FlagField => FieldValue::Flag(flag_value(field_bytes(s, f)[0])),
        FieldKind::CounterField => FieldValue::Counter(le_value(field_bytes(s, f)) as u32),
        FieldKind::DosageField => FieldValue::Dosage(le_value(field_bytes(s, f)) as u32),
    }
}

/// The state facade: the in-memory record plus the storage path it belongs
/// to. One facade instance owns one storage path.
pub struct StateFacade {
    record: Buffer,
    path: String,
}

impl View for StateFacade {
    type V = Seq<u8>;

    closed spec fn view(&self) -> Seq<u8> {
        self.record@
    }
}

impl StateFacade {
    /// Well-formedness: the record is always exactly 128 bytes.
    pub open spec fn wf(&self) -> bool {
        self@.len() == RECORD_SIZE
    }

    /// The storage path this facade belongs to.
    pub closed spec fn spec_path(&self) -> Seq<char> {
        self.path@
    }

    /// Creates the facade for `path` from the image read from storage
    /// (`None` when no store exists there yet): a missing store yields the
    /// freshly defaulted record, a present store must be a well-formed
    /// 128-byte image and is taken verbatim, and anything else fails with
    /// `CorruptStore`.
    pub fn init(path: String, stored: Option<Vec<u8>>) -> (r: Result<StateFacade, StateError>)
        ensures
            match r {
                Ok(facade) => {
                    &&& facade.wf()
                    &&& facade.spec_path() == path@
                    &&& match stored {
                        Option::None => facade@ == default_record(),
                        Option::Some(v) => image_well_formed(v@) && facade@ == v@,
                    }
                },
                Err(e) => {
                    &&& e == StateError::CorruptStore
                    &&& stored matches Option::Some(v)
                    &&& !image_well_formed(v@)
                },
            },
    {
        match ReadFromFile::load(stored) {
            Ok(record) => Ok(StateFacade { record, path }),
            Err(e) => Err(e),
        }
    }

    /// The storage path this facade was initialized with.
    pub fn storage_path(&self) -> (r: &str)
        ensures
            r@ == self.spec_path(),
    {
        self.path.as_str()
    }

    /// Reads the typed value of a field: registry, then buffer, then codec.
    pub fn get(&self, field: FieldId) -> (r: FieldValue)
        requires
            self.wf(),
        ensures
            r == spec_get(self@, field),
            value_has_kind(field, r),
    {
        let (offset, length) = resolve(field);
        proof {
            lemma_field_in_bounds(field);
        }
        let bytes = match self.record.read_range(offset, length) {
            Ok(b) => b,
            Err(_) => {
                proof {
                    assert(false);
                }
                Vec::new()
            },
        };
        match kind_of(field) {
            FieldKind::ByteField => FieldValue::Byte(bytes[0]),
            FieldKind::FlagField => FieldValue::Flag(decode_flag(bytes[0])),
            FieldKind::CounterField => {
                proof {
                    lemma_le_value_bound(bytes@);
                    lemma_pow256_values();
                }
                match decode_u32_le(bytes.as_slice()) {
                    Ok(v) => FieldValue::Counter(v),
                    Err(_) => {
                        proof {
                            assert(false);
                        }
                        FieldValue::Counter(0)
                    },
                }
            },
            FieldKind::DosageField => {
                proof {
                    lemma_le_value_bound(bytes@);
                    lemma_pow256_values();
                }
                match decode_u32_le(bytes.as_slice()) {
                    Ok(v) => FieldValue::Dosage(v),
                    Err(_) => {
                        proof {
                            assert(false);
                        }
                        FieldValue::Dosage(0)
                    },
                }
            },
        }
    }

    /// Writes a typed value into its field: codec, then buffer. The caller
    /// flushes the image of `save` afterwards.
    ///
    /// Fails with `FieldWidthMismatch` exactly when the value's kind
    /// differs from the field's kind, or a raw byte other than the
    /// little-endian marker 0 is given for the endianness field; the
    /// record is unchanged then.
    pub fn set(&mut self, field: FieldId, value: FieldValue) -> (r: Result<(), StateError>)
        requires
            old(self).wf(),
        ensures
            final(self).wf(),
            final(self).spec_path() == old(self).spec_path(),
            match r {
                Ok(()) => value_fits(field, value) && final(self)@ == spec_set(
                    old(self)@,
                    field,
                    value,
                ),
                Err(e) => e == StateError::FieldWidthMismatch && !value_fits(field, value)
                    && final(self)@ == old(self)@,
            },
    {
        let (offset, length) = resolve(field);
        let kind = kind_of(field);
        let fits = match value {
            FieldValue::Byte(b) => kind == FieldKind::ByteField && b == 0,
            FieldValue::Flag(_) => kind == FieldKind::FlagField,
            FieldValue::Counter(_) => kind == FieldKind::CounterField,
            FieldValue::Dosage(_) => kind == FieldKind::DosageField,
        };
        if !fits {
            return Err(StateError::FieldWidthMismatch);
        }
        proof {
            lemma_field_in_bounds(field);
        }
        let data: Vec<u8> = match value {
            FieldValue::Byte(b) => {
                proof {
                    lemma_le_bytes_single(b);
                }
                encode_u8_le(b)
            },
            FieldValue::Flag(b) => {
                proof {
                    lemma_le_bytes_single(flag_byte(b));
                }
                encode_u8_le(encode_flag(b))
            },
            FieldValue::Counter(n) => encode_u32_le(n),
            FieldValue::Dosage(n) => encode_u32_le(n),
        };
        let r = self.record.write_range(offset, length, &data);
        proof {
            assert(r is Ok);
        }
        Ok(())
    }

    /// Reads a u32 counter field.
    ///
    /// Fails with `FieldWidthMismatch` exactly when the field is not a
    /// counter.
    pub fn get_counter(&self, field: FieldId) -> (r: Result<u32, StateError>)
        requires
            self.wf(),
        ensures
            match r {
                Ok(v) => field_kind(field) == FieldKind::CounterField && FieldValue::Counter(v)
                    == spec_get(self@, field),
                Err(e) => e == StateError::FieldWidthMismatch && field_kind(field)
                    != FieldKind::CounterField,
            },
    {
        if kind_of(field) != FieldKind::CounterField {
            return Err(StateError::FieldWidthMismatch);
        }
        match self.get(field) {
            FieldValue::Counter(v) => Ok(v),
            _ => {
                proof {
                    assert(false);
                }
                Err(StateError::FieldWidthMismatch)
            },
        }
    }

    /// Writes a u32 counter field.
    ///
    /// Fails with `FieldWidthMismatch` exactly when the field is not a
    /// counter; the record is unchanged then.
    pub fn set_counter(&mut self, field: FieldId, value: u32) -> (r: Result<(), StateError>)
        requires
            old(self).wf(),
        ensures
            final(self).wf(),
            final(self).spec_path() == old(self).spec_path(),
            match r {
                Ok(()) => field_kind(field) == FieldKind::CounterField && final(self)@ == spec_set(
                    old(self)@,
                    field,
                    FieldValue::Counter(value),
                ),
                Err(e) => e == StateError::FieldWidthMismatch && field_kind(field)
                    != FieldKind::CounterField && final(self)@ == old(self)@,
            },
    {
        self.set(field, FieldValue::Counter(value))
    }

    /// Reads a boolean flag field.
    ///
    /// Fails with `FieldWidthMismatch` exactly when the field is not a
    /// flag.
    pub fn get_flag(&self, field: FieldId) -> (r: Result<bool, StateError>)
        requires
            self.wf(),
        ensures
            match r {
                Ok(v) => field_kind(field) == FieldKind::FlagField && FieldValue::Flag(v)
                    == spec_get(self@, field),
                Err(e) => e == StateError::FieldWidthMismatch && field_kind(field)
                    != FieldKind::FlagField,
            },
    {
        if kind_of(field) != FieldKind::FlagField {
            return Err(StateError::FieldWidthMismatch);
        }
        match self.get(field) {
            FieldValue::Flag(v) => Ok(v),
            _ => {
                proof {
                    assert(false);
                }
                Err(StateError::FieldWidthMismatch)
            },
        }
    }

    /// Writes a boolean flag field, normalized to 0x00/0xFF in the record.
    ///
    /// Fails with `FieldWidthMismatch` exactly when the field is not a
    /// flag; the record is unchanged then.
    pub fn set_flag(&mut self, field: FieldId, value: bool) -> (r: Result<(), StateError>)
        requires
            old(self).wf(),
        ensures
            final(self).wf(),
            final(self).spec_path() == old(self).spec_path(),
            match r {
                Ok(()) => field_kind(field) == FieldKind::FlagField && final(self)@ == spec_set(
                    old(self)@,
                    field,
                    FieldValue::Flag(value),
                ),
                Err(e) => e == StateError::FieldWidthMismatch && field_kind(field)
                    != FieldKind::FlagField && final(self)@ == old(self)@,
            },
    {
        self.set(field, FieldValue::Flag(value))
    }

    /// Reads a u32 dosage field.
    ///
    /// Fails with `FieldWidthMismatch` exactly when the field is not a
    /// dosage default.
    pub fn get_dosage(&self, field: FieldId) -> (r: Result<u32, StateError>)
        requires
            self.wf(),
        ensures
            match r {
                Ok(v) => field_kind(field) == FieldKind::DosageField && FieldValue::Dosage(v)
                    == spec_get(self@, field),
                Err(e) => e == StateError::FieldWidthMismatch && field_kind(field)
                    != FieldKind::DosageField,
            },
    {
        if kind_of(field) != FieldKind::DosageField {
            return Err(StateError::FieldWidthMismatch);
        }
        match self.get(field) {
            FieldValue::Dosage(v) => Ok(v),
            _ => {
                proof {
                    assert(false);
                }
                Err(StateError::FieldWidthMismatch)
            },
        }
    }

    /// Writes a u32 dosage field.
    ///
    /// Fails with `FieldWidthMismatch` exactly when the field is not a
    /// dosage default; the record is unchanged then.
    pub fn set_dosage(&mut self, field: FieldId, value: u32) -> (r: Result<(), StateError>)
        requires
            old(self).wf(),
        ensures
            final(self).wf(),
            final(self).spec_path() == old(self).spec_path(),
            match r {
                Ok(()) => field_kind(field) == FieldKind::DosageField && final(self)@ == spec_set(
                    old(self)@,
                    field,
                    FieldValue::Dosage(value),
                ),
                Err(e) => e == StateError::FieldWidthMismatch && field_kind(field)
                    != FieldKind::DosageField && final(self)@ == old(self)@,
            },
    {
        self.set(field, FieldValue::Dosage(value))
    }

    /// The exact 128-byte image that a flush writes to storage: the record
    /// bytes verbatim, assembled by the persistence gateway.
    pub fn save(&self) -> (r: Vec<u8>)
        requires
            self.wf(),
        ensures
            r@ == self@,
    {
        WriteToFile::encode(&self.record)
    }

    /// A full copy of the current record bytes for external inspection.
    pub fn snapshot(&self) -> (r: Vec<u8>)
        requires
            self.wf(),
        ensures
            r@ == self@,
    {
        self.record.snapshot()
    }
}

/// Round trip: setting a field and reading it back yields the value set,
/// for every record, every field, and every value storable in the field.
pub proof fn lemma_set_get_round_trip(s: Seq<u8>, f: FieldId, v: FieldValue)
    requires
        s.len() == RECORD_SIZE,
        value_fits(f, v),
    ensures
        spec_get(spec_set(s, f, v), f) == v,
{
    lemma_field_in_bounds(f);
    match v {
        FieldValue::Byte(b) => {
            lemma_splice_subrange(s, field_offset(f), seq![b]);
        },
        FieldValue::Flag(b) => {
            lemma_splice_subrange(s, field_offset(f), seq![flag_byte(b)]);
        },
        FieldValue::Counter(n) => {
            lemma_le_bytes_len(n as nat, 4);
            lemma_splice_subrange(s, field_offset(f), le_bytes(n as nat, 4));
            lemma_pow256_values();
            lemma_le_round_trip(n as nat, 4);
        },
        FieldValue::Dosage(n) => {
            lemma_le_bytes_len(n as nat, 4);
            lemma_splice_subrange(s, field_offset(f), le_bytes(n as nat, 4));
            lemma_pow256_values();
            lemma_le_round_trip(n as nat, 4);
        },
    }
}

/// Frame: setting a field leaves every byte outside that field's range
/// unchanged.
pub proof fn lemma_set_preserves_unrelated(s: Seq<u8>, f: FieldId, v: FieldValue, i: int)
    requires
        s.len() == RECORD_SIZE,
        value_fits(f, v),
        0 <= i < RECORD_SIZE,
        !(field_offset(f) <= i < field_offset(f) + field_len(f)),
    ensures
        spec_set(s, f, v)[i] == s[i],
{
    lemma_field_in_bounds(f);
    match v {
        FieldValue::Counter(n) => {
            lemma_le_bytes_len(n as nat, 4);
        },
        FieldValue::Dosage(n) => {
            lemma_le_bytes_len(n as nat, 4);
        },
        _ => {
        },
    }
    lemma_splice_frame(s, field_offset(f), value_bytes(v), i);
}

/// Reserved-region preservation: setting any registered field leaves every
/// byte of the reserved regions (bytes 12..32 and 54..128) unchanged, so
/// bytes parked there by a future version survive read-modify-write
/// cycles.
pub proof fn lemma_set_preserves_reserved(s: Seq<u8>, f: FieldId, v: FieldValue, i: int)
    requires
        s.len() == RECORD_SIZE,
        value_fits(f, v),
        is_reserved_index(i),
    ensures
        spec_set(s, f, v)[i] == s[i],
{
    lemma_fields_avoid_reserved(f, i);
    lemma_set_preserves_unrelated(s, f, v, i);
}

/// Idempotence of flushing: `save` produces the record bytes verbatim, so
/// two saves with no mutation in between yield byte-identical images.
pub proof fn lemma_save_idempotent(record: Seq<u8>, first: Seq<u8>, second: Seq<u8>)
    requires
        first == record,
        second == record,
    ensures
        first == second,
{
}

} // verus!
