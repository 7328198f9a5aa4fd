//! Tests of the persistence gateway and the state facade's load/save
//! behaviour: first-run defaults, corruption detection, idempotent flushes,
//! and reserved-region preservation.

use coffee_machine::errors::StateError;
use coffee_machine::facade::StateFacade;
use coffee_machine::persist::{ReadFromFile, WriteToFile};
use coffee_machine::record::Buffer;
use coffee_machine::registry::FieldId;

const PATH: &str = "/tmp/coffee_machine/runtime.bin";

fn fresh_facade() -> StateFacade {
    StateFacade::init(PATH.to_string(), None).unwrap()
}

/// A well-formed 128-byte image: version 1.0.0, little-endian marker.
fn valid_image() -> Vec<u8> {
    let mut image = vec![0u8; 128];
    image[0] = 1;
    image
}

#[test]
fn test_file_hander_init() {
    // test if the handler can be instantiated
    let file_handler = fresh_facade();
    assert_eq!(file_handler.storage_path(), PATH);
}

#[test]
fn first_run_yields_default_record() {
    let facade = fresh_facade();
    let image = facade.snapshot();
    assert_eq!(image.len(), 128);
    assert_eq!(image[0], 1); // version major
    assert_eq!(image[1], 0); // version minor
    assert_eq!(image[2], 0); // version bugfix
    assert_eq!(image[3], 0); // endianness: little
    for i in 4..128 {
        assert_eq!(image[i], 0);
    }
}

#[test]
fn short_file_is_corrupt() {
    let r = StateFacade::init(PATH.to_string(), Some(vec![0u8; 64]));
    assert_eq!(r.err(), Some(StateError::CorruptStore));
}

#[test]
fn long_file_is_corrupt() {
    let r = StateFacade::init(PATH.to_string(), Some(vec![0u8; 129]));
    assert_eq!(r.err(), Some(StateError::CorruptStore));
}

#[test]
fn wrong_version_major_is_corrupt() {
    let mut image = valid_image();
    image[0] = 2;
    let r = StateFacade::init(PATH.to_string(), Some(image));
    assert_eq!(r.err(), Some(StateError::CorruptStore));
}

#[test]
fn big_endian_marker_is_corrupt() {
    let mut image = valid_image();
    image[3] = 1;
    let r = StateFacade::init(PATH.to_string(), Some(image));
    assert_eq!(r.err(), Some(StateError::CorruptStore));
}

#[test]
fn valid_store_loads_verbatim() {
    let mut image = valid_image();
    image[4] = 0xDE;
    image[11] = 0xAD;
    image[33] = 42;
    let facade = StateFacade::init(PATH.to_string(), Some(image.clone())).unwrap();
    assert_eq!(facade.snapshot(), image);
    assert_eq!(
        facade.get_counter(FieldId::NumberOfCoffeesMade),
        Ok(42u32)
    );
}

#[test]
fn save_is_idempotent() {
    let mut facade = fresh_facade();
    let first = facade.save();
    let second = facade.save();
    assert_eq!(first, second);
    facade.set_counter(FieldId::NumberOfCoffeesMade, 9).unwrap();
    let third = facade.save();
    let fourth = facade.save();
    assert_eq!(third, fourth);
    assert_ne!(first, third);
}

#[test]
fn save_matches_snapshot() {
    let mut facade = fresh_facade();
    facade.set_dosage(FieldId::DefaultWaterDosage, 50).unwrap();
    assert_eq!(facade.save(), facade.snapshot());
}

#[test]
fn reserved_regions_survive_set_save_cycle() {
    let mut image = valid_image();
    // park nonzero bytes in the reserved ranges, as a future version might
    for i in 12..32 {
        image[i] = 0xAB;
    }
    for i in 54..128 {
        image[i] = 0xCD;
    }
    let mut facade = StateFacade::init(PATH.to_string(), Some(image)).unwrap();
    facade.set_counter(FieldId::NumberOfCoffeesMade, 7).unwrap();
    facade.set_flag(FieldId::NeedsDescaling, true).unwrap();
    facade.set_dosage(FieldId::DefaultCoffeeDosage, 18).unwrap();
    let saved = facade.save();
    for i in 12..32 {
        assert_eq!(saved[i], 0xAB);
    }
    for i in 54..128 {
        assert_eq!(saved[i], 0xCD);
    }
}

#[test]
fn gateway_decode_accepts_only_well_formed_images() {
    assert!(ReadFromFile::decode(valid_image()).is_ok());
    assert_eq!(
        ReadFromFile::decode(vec![0u8; 64]).err(),
        Some(StateError::CorruptStore)
    );
}

#[test]
fn gateway_encode_writes_record_verbatim() {
    let buffer = match ReadFromFile::decode(valid_image()) {
        Ok(b) => b,
        Err(_) => panic!("a valid image must decode"),
    };
    assert_eq!(WriteToFile::encode(&buffer), valid_image());
}

#[test]
fn gateway_load_without_store_defaults() {
    let buffer = ReadFromFile::load(None).unwrap();
    let image = buffer.snapshot();
    assert_eq!(image, {
        let mut expected = vec![0u8; 128];
        expected[0] = 1;
        expected
    });
}

#[test]
fn first_run_image_reloads_verbatim() {
    let facade = fresh_facade();
    let image = facade.save();
    let reloaded = StateFacade::init(PATH.to_string(), Some(image.clone())).unwrap();
    assert_eq!(reloaded.snapshot(), image);
}

#[test]
fn buffer_from_bytes_checks_length() {
    assert!(Buffer::from_bytes(vec![0u8; 128]).is_ok());
    assert_eq!(
        Buffer::from_bytes(vec![0u8; 127]).err(),
        Some(StateError::CorruptStore)
    );
}
