//! The config program's account framing, held against the same
//! serializer the runtime uses.

use cbm_harness::config_suite::{
    check_stored_config, check_stored_config_keys, get_config_data, get_config_space,
    oversized_store_data, parse_my_config, serialize_config_keys, serialize_my_config,
    store_instruction_data, store_oversized_expected_error, store_unsigned_expected_error,
    ConfigError, InstructionErrorKind, MyConfig,
};

fn key(seed: u8) -> Vec<u8> {
    vec![seed; 32]
}

#[test]
fn payload_framing_matches_bincode() {
    let config = MyConfig::new(42);
    let ours = serialize_my_config(&config);
    assert_eq!(ours, bincode::serialize(&42u64).unwrap());
    assert_eq!(ours.len() as u64, MyConfig::max_space());
    assert_eq!(
        MyConfig::max_space(),
        bincode::serialized_size(&123456789u64).unwrap()
    );
}

#[test]
fn payload_round_trips() {
    for item in [0u64, 42, 123456789, u64::MAX] {
        let config = MyConfig::new(item);
        let bytes = serialize_my_config(&config);
        let parsed = parse_my_config(&bytes).unwrap();
        assert_eq!(parsed, config);
    }
    assert!(matches!(
        parse_my_config(&[1u8, 2, 3]),
        Err(ConfigError::DataTooShort)
    ));
    assert_eq!(MyConfig::default(), MyConfig::new(123_456_789));
}

#[test]
fn key_list_framing_matches_bincode() {
    let keys: Vec<(Vec<u8>, bool)> = vec![(key(1), false), (key(2), true), (key(3), true)];
    let ours = serialize_config_keys(&keys);
    let mirrored: Vec<([u8; 32], bool)> = keys
        .iter()
        .map(|(k, s)| {
            let mut a = [0u8; 32];
            a.copy_from_slice(k);
            (a, *s)
        })
        .collect();
    assert_eq!(ours, bincode::serialize(&mirrored).unwrap());
}

#[test]
fn config_space_counts_the_key_list_and_payload() {
    assert_eq!(get_config_space(0), 16);
    assert_eq!(get_config_space(1), 49);
    assert_eq!(get_config_space(3), 115);
    // The formula is exactly the framed size of the key list plus
    // the payload: what a store instruction writes fills the space.
    let keys: Vec<(Vec<u8>, bool)> = vec![(key(1), false), (key(2), true), (key(3), true)];
    let framed = store_instruction_data(&keys, &MyConfig::new(42));
    assert_eq!(framed.len(), get_config_space(keys.len()));
}

#[test]
fn stored_configs_are_judged_from_the_account_bytes() {
    let keys: Vec<(Vec<u8>, bool)> = vec![(key(9), true)];
    let account_data = store_instruction_data(&keys, &MyConfig::new(42));
    assert!(check_stored_config(&account_data, 1, &MyConfig::new(42)));
    assert!(!check_stored_config(&account_data, 1, &MyConfig::new(43)));
    // With the wrong key count the payload region is misplaced.
    assert!(!check_stored_config(&account_data, 2, &MyConfig::new(42)));

    let payload = get_config_data(&account_data, 1).unwrap();
    assert_eq!(parse_my_config(&payload).unwrap(), MyConfig::new(42));
    assert!(matches!(
        get_config_data(&[0u8; 10], 1),
        Err(ConfigError::DataTooShort)
    ));
}

#[test]
fn additional_signers_are_stored_with_their_flags() {
    let keys: Vec<(Vec<u8>, bool)> = vec![(key(1), false), (key(2), true), (key(3), true)];
    let account_data = store_instruction_data(&keys, &MyConfig::new(42));
    assert!(check_stored_config_keys(&account_data, &keys));
    // A flipped signer flag, a different key, or truncated data all
    // fail the judgment.
    let flipped: Vec<(Vec<u8>, bool)> = vec![(key(1), true), (key(2), true), (key(3), true)];
    assert!(!check_stored_config_keys(&account_data, &flipped));
    let other: Vec<(Vec<u8>, bool)> = vec![(key(9), false), (key(2), true), (key(3), true)];
    assert!(!check_stored_config_keys(&account_data, &other));
    assert!(!check_stored_config_keys(&account_data[..20], &keys));
}

#[test]
fn tampered_probes_expect_their_exact_errors() {
    let oversized = oversized_store_data();
    assert_eq!(oversized.len(), 123);
    assert!(oversized.iter().all(|b| *b == 0));

    let e = store_oversized_expected_error();
    assert_eq!(e.instruction_index, 0);
    assert_eq!(e.error, InstructionErrorKind::InvalidInstructionData);

    let e = store_unsigned_expected_error();
    assert_eq!(e.instruction_index, 0);
    assert_eq!(e.error, InstructionErrorKind::MissingRequiredSignature);
}
