//! Record buffer: the fixed 128-byte in-memory snapshot of machine state,
//! with bounds-checked access to sub-ranges.

use crate::codec::le_bytes;
use crate::errors::StateError;
use crate::registry::{field_offset, FieldId, RECORD_SIZE};
use vstd::prelude::*;

verus! {

/// A record of all zero bytes.
pub open spec fn zeroed_record() -> Seq<u8> {
    Seq::new(RECORD_SIZE as nat, |i: int| 0u8)
}

/// The record bytes after overwriting the range starting at `off` with
/// `data`, leaving everything else in place.
pub open spec fn splice(s: Seq<u8>, off: nat, data: Seq<u8>) -> Seq<u8>
    recommends
        off + data.len() <= s.len(),
{
    s.take(off as int) + data + s.skip((off + data.len()) as int)
}

/// Reading back exactly the spliced range yields the spliced data.
pub proof fn lemma_splice_subrange(s: Seq<u8>, off: nat, data: Seq<u8>)
    requires
        off + data.len() <= s.len(),
    ensures
        splice(s, off, data).subrange(off as int, (off + data.len()) as int) == data,
{
    assert(splice(s, off, data).subrange(off as int, (off + data.len()) as int) =~= data);
}

/// Frame: splicing leaves every byte outside the overwritten range as it
/// was.
pub proof fn lemma_splice_frame(s: Seq<u8>, off: nat, data: Seq<u8>, i: int)
    requires
        off + data.len() <= s.len(),
        0 <= i < s.len(),
        !(off <= i < off + data.len()),
    ensures
        splice(s, off, data)[i] == s[i],
{
}

/// The fixed-size in-memory byte array holding the current state snapshot.
pub struct Buffer {
    bytes: Vec<u8>,
}

impl View for Buffer {
    type V = Seq<u8>;

    closed spec fn view(&self) -> Seq<u8> {
        self.bytes@
    }
}

impl Buffer {
    /// Well-formedness: the record is always exactly 128 bytes.
    pub open spec fn wf(&self) -> bool {
        self@.len() == RECORD_SIZE
    }

    /// Returns a zero-initialized record buffer.
    pub fn initialize_buffer() -> (r: Buffer)
        ensures
            r.wf(),
            r@ == zeroed_record(),
    {
        let mut bytes: Vec<u8> = Vec::new();
        let mut i: usize = 0;
        while i < RECORD_SIZE
            invariant
                i <= RECORD_SIZE,
                bytes@.len() == i,
                forall|k: int| 0 <= k < i ==> bytes@[k] == 0u8,
            decreases RECORD_SIZE - i,
        {
            bytes.push(0u8);
            i = i + 1;
        }
        proof {
            assert(bytes@ =~= zeroed_record());
        }
        Buffer { bytes }
    }

    /// Wraps exactly 128 bytes as a record buffer.
    ///
    /// Fails with `CorruptStore` exactly when the supplied data is not
    /// exactly 128 bytes long.
    pub fn from_bytes(bytes: Vec<u8>) -> (r: Result<Buffer, StateError>)
        ensures
            match r {
                Ok(b) => bytes@.len() == RECORD_SIZE && b@ == bytes@ && b.wf(),
                Err(e) => e == StateError::CorruptStore && bytes@.len() != RECORD_SIZE,
            },
    {
        if bytes.len() != RECORD_SIZE {
            return Err(StateError::CorruptStore);
        }
        Ok(Buffer { bytes })
    }

    /// Reads `length` bytes starting at `offset`.
    ///
    /// Fails with `OutOfBounds` exactly when the range reaches past the end
    /// of the record.
    pub fn read_range(&self, offset: usize, length: usize) -> (r: Result<Vec<u8>, StateError>)
        requires
            self.wf(),
        ensures
            match r {
                Ok(bytes) => offset + length <= RECORD_SIZE && bytes@ == self@.subrange(
                    offset as int,
                    (offset + length) as int,
                ),
                Err(e) => e == StateError::OutOfBounds && offset + length > RECORD_SIZE,
            },
    {
        if length > RECORD_SIZE || offset > RECORD_SIZE - length {
            return Err(StateError::OutOfBounds);
        }
        let mut out: Vec<u8> = Vec::new();
        let mut j: usize = 0;
        while j < length
            invariant
                j <= length,
                offset + length <= RECORD_SIZE,
                self.wf(),
                out@.len() == j,
                forall|k: int| 0 <= k < j ==> out@[k] == self@[offset + k],
            decreases length - j,
        {
            out.push(self.bytes[offset + j]);
            j = j + 1;
        }
        proof {
            assert(out@ =~= self@.subrange(offset as int, (offset + length) as int));
        }
        Ok(out)
    }

    /// Overwrites exactly `data.len()` bytes starting at `offset`, where
    /// `length` is the caller's declared field length.
    ///
    /// Fails with `LengthMismatch` exactly when the declared length
    /// disagrees with the data's length, and otherwise with `OutOfBounds`
    /// exactly when the range reaches past the end of the record; the
    /// record is unchanged on failure.
    pub fn write_range(&mut self, offset: usize, length: usize, data: &Vec<u8>) -> (r: Result<
        (),
        StateError,
    >)
        requires
            old(self).wf(),
        ensures
            final(self).wf(),
            match r {
                Ok(()) => length == data@.len() && offset + length <= RECORD_SIZE && final(self)@
                    == splice(old(self)@, offset as nat, data@),
                Err(e) => final(self)@ == old(self)@ && ((e == StateError::LengthMismatch && length
                    != data@.len()) || (e == StateError::OutOfBounds && length == data@.len()
                    && offset + length > RECORD_SIZE)),
            },
    {
        if data.len() != length {
            return Err(StateError::LengthMismatch);
        }
        if length > RECORD_SIZE || offset > RECORD_SIZE - length {
            return Err(StateError::OutOfBounds);
        }
        let ghost orig = self@;
        let mut j: usize = 0;
        while j < length
            invariant
                j <= length,
                offset + length <= RECORD_SIZE,
                data@.len() == length,
                self@.len() == orig.len() == RECORD_SIZE,
                forall|k: int|
                    0 <= k < RECORD_SIZE ==> self@[k] == (if offset <= k < offset + j {
                        data@[k - offset]
                    } else {
                        orig[k]
                    }),
            decreases length - j,
        {
            self.bytes.set(offset + j, data[j]);
            j = j + 1;
        }
        proof {
            assert(self@ =~= splice(orig, offset as nat, data@));
        }
        Ok(())
    }

    /// Returns a full copy of the 128 record bytes for external inspection.
    pub fn snapshot(&self) -> (r: Vec<u8>)
        requires
            self.wf(),
        ensures
            r@ == self@,
    {
        vstd::slice::slice_to_vec(self.bytes.as_slice())
    }
}

/// Offset/value pairs for the registered data fields, in the shape the
/// record buffer consumes: each member holds (byte offset, value to store).
#[derive(Clone, Copy, Debug)]
pub struct MemoryMap {
    pub endianness: (u32, u8),
    pub number_of_coffees_brewed: (u32, u32),
    pub needs_coffee_beans: (u32, u8),
    pub needs_water: (u32, u8),
    pub needs_grounds_removal: (u32, u8),
    pub needs_descaling: (u32, u8),
    pub default_water_dosage: (u32, u32),
    pub default_coffee_dosage: (u32, u32),
}

impl MemoryMap {
    /// The offsets agree with the canonical field registry.
    pub open spec fn wf(&self) -> bool {
        &&& self.endianness.0 == field_offset(FieldId::Endianness)
        &&& self.number_of_coffees_brewed.0 == field_offset(FieldId::NumberOfCoffeesMade)
        &&& self.needs_coffee_beans.0 == field_offset(FieldId::NeedsCoffeeBeans)
        &&& self.needs_water.0 == field_offset(FieldId::NeedsWater)
        &&& self.needs_grounds_removal.0 == field_offset(FieldId::NeedsGroundsRemoval)
        &&& self.needs_descaling.0 == field_offset(FieldId::NeedsDescaling)
        &&& self.default_water_dosage.0 == field_offset(FieldId::DefaultWaterDosage)
        &&& self.default_coffee_dosage.0 == field_offset(FieldId::DefaultCoffeeDosage)
    }
}

/// The canonical file offsets of the registered data fields, paired with
/// zeroed values.
pub fn get_file_offsets() -> (m: MemoryMap)
    ensures
        m.wf(),
        m.endianness.1 == 0,
        m.number_of_coffees_brewed.1 == 0,
        m.needs_coffee_beans.1 == 0,
        m.needs_water.1 == 0,
        m.needs_grounds_removal.1 == 0,
        m.needs_descaling.1 == 0,
        m.default_water_dosage.1 == 0,
        m.default_coffee_dosage.1 == 0,
{
    MemoryMap {
        endianness: (3, 0),
        number_of_coffees_brewed: (33, 0),
        needs_coffee_beans: (37, 0),
        needs_water: (38, 0),
        needs_grounds_removal: (39, 0),
        needs_descaling: (40, 0),
        default_water_dosage: (46, 0),
        default_coffee_dosage: (50, 0),
    }
}

/// The record bytes after storing every member of `m` at its offset:
/// single-byte members verbatim, u32 members as little-endian images.
pub open spec fn memory_map_applied(s: Seq<u8>, m: MemoryMap) -> Seq<u8> {
    let s1 = splice(s, field_offset(FieldId::Endianness), seq![m.endianness.1]);
    let s2 = splice(
        s1,
        field_offset(FieldId::NumberOfCoffeesMade),
        le_bytes(m.number_of_coffees_brewed.1 as nat, 4),
    );
    let s3 = splice(s2, field_offset(FieldId::NeedsCoffeeBeans), seq![m.needs_coffee_beans.1]);
    let s4 = splice(s3, field_offset(FieldId::NeedsWater), seq![m.needs_water.1]);
    let s5 = splice(
        s4,
        field_offset(FieldId::NeedsGroundsRemoval),
        seq![m.needs_grounds_removal.1],
    );
    let s6 = splice(s5, field_offset(FieldId::NeedsDescaling), seq![m.needs_descaling.1]);
    let s7 = splice(
        s6,
        field_offset(FieldId::DefaultWaterDosage),
        le_bytes(m.default_water_dosage.1 as nat, 4),
    );
    splice(s7, field_offset(FieldId::DefaultCoffeeDosage), le_bytes(m.default_coffee_dosage.1 as nat, 4))
}

impl Buffer {
    /// Stores every member of the given offset map into the buffer at its
    /// position.
    pub fn push_to_buffer(&mut self, data: MemoryMap)
        requires
            old(self).wf(),
            data.wf(),
        ensures
            final(self).wf(),
            final(self)@ == memory_map_applied(old(self)@, data),
    {
        proof {
            crate::codec::lemma_le_bytes_single(data.endianness.1);
            crate::codec::lemma_le_bytes_single(data.needs_coffee_beans.1);
            crate::codec::lemma_le_bytes_single(data.needs_water.1);
            crate::codec::lemma_le_bytes_single(data.needs_grounds_removal.1);
            crate::codec::lemma_le_bytes_single(data.needs_descaling.1);
        }
        let one_endianness = crate::codec::encode_u8_le(data.endianness.1);
        self.write_field(data.endianness.0, &one_endianness);
        let four_coffees = crate::codec::encode_u32_le(data.number_of_coffees_brewed.1);
        self.write_field(data.number_of_coffees_brewed.0, &four_coffees);
        let one_beans = crate::codec::encode_u8_le(data.needs_coffee_beans.1);
        self.write_field(data.needs_coffee_beans.0, &one_beans);
        let one_water = crate::codec::encode_u8_le(data.needs_water.1);
        self.write_field(data.needs_water.0, &one_water);
        let one_grounds = crate::codec::encode_u8_le(data.needs_grounds_removal.1);
        self.write_field(data.needs_grounds_removal.0, &one_grounds);
        let one_descaling = crate::codec::encode_u8_le(data.needs_descaling.1);
        self.write_field(data.needs_descaling.0, &one_descaling);
        let four_water = crate::codec::encode_u32_le(data.default_water_dosage.1);
        self.write_field(data.default_water_dosage.0, &four_water);
        let four_coffee = crate::codec::encode_u32_le(data.default_coffee_dosage.1);
        self.write_field(data.default_coffee_dosage.0, &four_coffee);
    }

    /// Writes one encoded field at the given offset; a helper for
    /// `push_to_buffer`, whose offsets are known to be in bounds.
    fn write_field(&mut self, offset: u32, data: &Vec<u8>)
        requires
            old(self).wf(),
            offset + data@.len() <= RECORD_SIZE,
        ensures
            final(self).wf(),
            final(self)@ == splice(old(self)@, offset as nat, data@),
    {
        let r = self.write_range(offset as usize, data.len(), data);
        proof {
            assert(r is Ok);
        }
    }
}

} // verus!
