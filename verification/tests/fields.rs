//! Tests of the field registry, the little-endian codec, the record
//! buffer, and the typed get/set API of the facade.

use coffee_machine::codec::{
    decode_flag, decode_u16_le, decode_u32_le, decode_u64_le, decode_u8_le, decode_uint_le,
    encode_flag, encode_u16_le, encode_u32_le, encode_u64_le, encode_u8_le, encode_uint_le,
};
use coffee_machine::errors::StateError;
use coffee_machine::facade::{FieldValue, StateFacade};
use coffee_machine::record::{get_file_offsets, Buffer, MemoryMap};
use coffee_machine::registry::{resolve, FieldId};

const PATH: &str = "/tmp/coffee_machine/runtime.bin";

const ALL_FIELDS: [FieldId; 8] = [
    FieldId::Endianness,
    FieldId::NumberOfCoffeesMade,
    FieldId::NeedsCoffeeBeans,
    FieldId::NeedsWater,
    FieldId::NeedsGroundsRemoval,
    FieldId::NeedsDescaling,
    FieldId::DefaultWaterDosage,
    FieldId::DefaultCoffeeDosage,
];

fn fresh_facade() -> StateFacade {
    StateFacade::init(PATH.to_string(), None).unwrap()
}

#[test]
fn registry_matches_canonical_layout() {
    assert_eq!(resolve(FieldId::Endianness), (3, 1));
    assert_eq!(resolve(FieldId::NumberOfCoffeesMade), (33, 4));
    assert_eq!(resolve(FieldId::NeedsCoffeeBeans), (37, 1));
    assert_eq!(resolve(FieldId::NeedsWater), (38, 1));
    assert_eq!(resolve(FieldId::NeedsGroundsRemoval), (39, 1));
    assert_eq!(resolve(FieldId::NeedsDescaling), (40, 1));
    assert_eq!(resolve(FieldId::DefaultWaterDosage), (46, 4));
    assert_eq!(resolve(FieldId::DefaultCoffeeDosage), (50, 4));
}

#[test]
fn registry_fields_are_disjoint_and_in_bounds() {
    for a in ALL_FIELDS {
        let (off_a, len_a) = resolve(a);
        assert!(off_a + len_a <= 128);
        for b in ALL_FIELDS {
            if a != b {
                let (off_b, len_b) = resolve(b);
                assert!(off_a + len_a <= off_b || off_b + len_b <= off_a);
            }
        }
    }
}

#[test]
fn codec_u32_encodes_little_endian() {
    assert_eq!(encode_u32_le(0x0102_0304), vec![0x04, 0x03, 0x02, 0x01]);
    assert_eq!(encode_u32_le(7), vec![7, 0, 0, 0]);
    assert_eq!(decode_u32_le(&[0x04, 0x03, 0x02, 0x01]), Ok(0x0102_0304));
    assert_eq!(decode_u32_le(&[0xFF, 0xFF, 0xFF, 0xFF]), Ok(u32::MAX));
    assert_eq!(
        decode_u32_le(&[1, 2, 3]),
        Err(StateError::FieldWidthMismatch)
    );
}

#[test]
fn codec_narrow_and_wide_widths() {
    assert_eq!(encode_u8_le(0xAB), vec![0xAB]);
    assert_eq!(decode_u8_le(&[0xAB]), Ok(0xAB));
    assert_eq!(encode_u16_le(0x1234), vec![0x34, 0x12]);
    assert_eq!(decode_u16_le(&[0x34, 0x12]), Ok(0x1234));
    assert_eq!(
        encode_u64_le(0x0102_0304_0506_0708),
        vec![0x08, 0x07, 0x06, 0x05, 0x04, 0x03, 0x02, 0x01]
    );
    assert_eq!(
        decode_u64_le(&[0x08, 0x07, 0x06, 0x05, 0x04, 0x03, 0x02, 0x01]),
        Ok(0x0102_0304_0506_0708)
    );
    assert_eq!(decode_u64_le(&[0; 7]), Err(StateError::FieldWidthMismatch));
}

#[test]
fn codec_never_truncates() {
    assert_eq!(encode_uint_le(255, 1).unwrap(), vec![255]);
    assert_eq!(
        encode_uint_le(256, 1),
        Err(StateError::FieldWidthMismatch)
    );
    assert_eq!(
        encode_uint_le(0x1_0000_0000, 4),
        Err(StateError::FieldWidthMismatch)
    );
    assert_eq!(encode_uint_le(0, 0).unwrap(), Vec::<u8>::new());
    assert_eq!(
        encode_uint_le(1, 0),
        Err(StateError::FieldWidthMismatch)
    );
    assert_eq!(encode_uint_le(u64::MAX, 8).unwrap(), vec![0xFF; 8]);
    assert_eq!(
        decode_uint_le(&[0; 9]),
        Err(StateError::FieldWidthMismatch)
    );
    assert_eq!(decode_uint_le(&[]), Ok(0));
}

#[test]
fn codec_flags_normalize_on_write_accept_nonzero_on_read() {
    assert_eq!(encode_flag(true), 0xFF);
    assert_eq!(encode_flag(false), 0x00);
    assert!(decode_flag(0xFF));
    assert!(!decode_flag(0x00));
    assert!(decode_flag(0x5A)); // any nonzero byte reads as true
}

#[test]
fn buffer_starts_zeroed() {
    let buffer = Buffer::initialize_buffer();
    let image = buffer.snapshot();
    assert_eq!(image.len(), 128);
    assert!(image.iter().all(|&b| b == 0));
}

#[test]
fn buffer_read_write_round_trip() {
    let mut buffer = Buffer::initialize_buffer();
    buffer.write_range(40, 3, &vec![9, 8, 7]).unwrap();
    assert_eq!(buffer.read_range(40, 3).unwrap(), vec![9, 8, 7]);
    assert_eq!(buffer.read_range(39, 5).unwrap(), vec![0, 9, 8, 7, 0]);
}

#[test]
fn buffer_rejects_out_of_bounds() {
    let mut buffer = Buffer::initialize_buffer();
    assert_eq!(
        buffer.read_range(120, 9).err(),
        Some(StateError::OutOfBounds)
    );
    assert_eq!(
        buffer.write_range(127, 2, &vec![1, 2]).err(),
        Some(StateError::OutOfBounds)
    );
    assert!(buffer.write_range(126, 2, &vec![1, 2]).is_ok());
}

#[test]
fn buffer_rejects_length_mismatch() {
    let mut buffer = Buffer::initialize_buffer();
    assert_eq!(
        buffer.write_range(0, 4, &vec![1, 2, 3]).err(),
        Some(StateError::LengthMismatch)
    );
}

#[test]
fn offset_map_fills_buffer() {
    // the canonical offsets, pushed into a fresh buffer with sample values
    let offsets: MemoryMap = get_file_offsets();
    assert_eq!(offsets.endianness, (3, 0));
    assert_eq!(offsets.number_of_coffees_brewed, (33, 0));
    assert_eq!(offsets.default_coffee_dosage, (50, 0));
    let mut filled = offsets;
    filled.number_of_coffees_brewed.1 = 7;
    filled.needs_water.1 = 0xFF;
    filled.default_water_dosage.1 = 50;
    let mut buffer = Buffer::initialize_buffer();
    buffer.push_to_buffer(filled);
    let image = buffer.snapshot();
    assert_eq!(image[3], 0);
    assert_eq!(&image[33..37], &[7, 0, 0, 0]);
    assert_eq!(image[38], 0xFF);
    assert_eq!(&image[46..50], &[50, 0, 0, 0]);
    assert_eq!(&image[50..54], &[0, 0, 0, 0]);
}

#[test]
fn counter_scenario_seven_coffees() {
    let mut facade = fresh_facade();
    facade.set_counter(FieldId::NumberOfCoffeesMade, 7).unwrap();
    assert_eq!(facade.get_counter(FieldId::NumberOfCoffeesMade), Ok(7));
    let image = facade.snapshot();
    assert_eq!(&image[33..37], &[0x07, 0x00, 0x00, 0x00]);
}

#[test]
fn flag_scenario_needs_water_bytes() {
    let mut facade = fresh_facade();
    facade.set_flag(FieldId::NeedsWater, true).unwrap();
    assert_eq!(facade.snapshot()[38], 0xFF);
    facade.set_flag(FieldId::NeedsWater, false).unwrap();
    assert_eq!(facade.snapshot()[38], 0x00);
}

#[test]
fn round_trip_every_field_with_boundary_values() {
    let mut facade = fresh_facade();
    for field in ALL_FIELDS {
        let values: Vec<FieldValue> = match facade.get(field) {
            // the only byte field is the endianness marker, whose single
            // storable value is the little-endian 0
            FieldValue::Byte(_) => vec![FieldValue::Byte(0)],
            FieldValue::Flag(_) => vec![FieldValue::Flag(false), FieldValue::Flag(true)],
            FieldValue::Counter(_) => {
                vec![FieldValue::Counter(0), FieldValue::Counter(u32::MAX)]
            }
            FieldValue::Dosage(_) => vec![FieldValue::Dosage(0), FieldValue::Dosage(u32::MAX)],
        };
        for value in values {
            facade.set(field, value).unwrap();
            assert_eq!(facade.get(field), value);
        }
    }
}

#[test]
fn typed_accessors_reject_wrong_kinds() {
    let mut facade = fresh_facade();
    assert_eq!(
        facade.get_counter(FieldId::NeedsWater),
        Err(StateError::FieldWidthMismatch)
    );
    assert_eq!(
        facade.get_flag(FieldId::NumberOfCoffeesMade),
        Err(StateError::FieldWidthMismatch)
    );
    assert_eq!(
        facade.get_dosage(FieldId::Endianness),
        Err(StateError::FieldWidthMismatch)
    );
    assert_eq!(
        facade.set_counter(FieldId::DefaultWaterDosage, 1),
        Err(StateError::FieldWidthMismatch)
    );
    assert_eq!(
        facade.set_flag(FieldId::Endianness, true),
        Err(StateError::FieldWidthMismatch)
    );
    assert_eq!(
        facade.set_dosage(FieldId::NumberOfCoffeesMade, 1),
        Err(StateError::FieldWidthMismatch)
    );
    assert_eq!(
        facade.set(FieldId::NeedsWater, FieldValue::Counter(1)),
        Err(StateError::FieldWidthMismatch)
    );
    // a rejected set leaves the record untouched
    assert_eq!(facade.snapshot(), {
        let mut expected = vec![0u8; 128];
        expected[0] = 1;
        expected
    });
}

#[test]
fn endianness_marker_must_stay_little_endian() {
    let mut facade = fresh_facade();
    assert_eq!(facade.set(FieldId::Endianness, FieldValue::Byte(0)), Ok(()));
    // a marker inconsistent with the implemented little-endian codec is
    // rejected and the record stays as it was
    assert_eq!(
        facade.set(FieldId::Endianness, FieldValue::Byte(1)),
        Err(StateError::FieldWidthMismatch)
    );
    assert_eq!(
        facade.set(FieldId::Endianness, FieldValue::Byte(0xFF)),
        Err(StateError::FieldWidthMismatch)
    );
    assert_eq!(facade.snapshot()[3], 0);
    assert_eq!(facade.get(FieldId::Endianness), FieldValue::Byte(0));
}

#[test]
fn counter_and_dosage_fields_are_distinct_kinds() {
    let mut facade = fresh_facade();
    facade.set_dosage(FieldId::DefaultWaterDosage, 50).unwrap();
    facade.set_dosage(FieldId::DefaultCoffeeDosage, 25).unwrap();
    assert_eq!(facade.get_dosage(FieldId::DefaultWaterDosage), Ok(50));
    assert_eq!(facade.get_dosage(FieldId::DefaultCoffeeDosage), Ok(25));
    assert_eq!(
        facade.get_counter(FieldId::DefaultWaterDosage),
        Err(StateError::FieldWidthMismatch)
    );
}
