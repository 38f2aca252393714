//! The functional probe suite: stub instruction framing, probe
//! transactions, and result judging.

use cbm_harness::probe::{
    burn_probe_plan, check_burn_result, check_emit_result, check_write_result, emit_probe_plan,
    encode_stub_burn, encode_stub_emit, encode_stub_write, encode_system_transfer,
    noop_return_data, parse_stub_instruction, stub_write_effects, transfer_instruction,
    write_probe_plan, StubError, StubInstruction, StubProcessError, BURN_PROBE_FUNDING,
};

#[test]
fn stub_instruction_encoding_round_trips() {
    let data = vec![7u8, 8, 9];
    let encoded = encode_stub_write(&data);
    assert_eq!(encoded, vec![0u8, 7, 8, 9]);
    match parse_stub_instruction(&encoded) {
        Ok(StubInstruction::Write { data: parsed }) => assert_eq!(parsed, data),
        _ => panic!("wrong decoding"),
    }

    let encoded = encode_stub_emit(&data);
    assert_eq!(encoded, vec![1u8, 7, 8, 9]);
    match parse_stub_instruction(&encoded) {
        Ok(StubInstruction::Emit { data: parsed }) => assert_eq!(parsed, data),
        _ => panic!("wrong decoding"),
    }

    let encoded = encode_stub_burn();
    assert_eq!(encoded, vec![2u8]);
    assert!(matches!(
        parse_stub_instruction(&encoded),
        Ok(StubInstruction::Burn)
    ));
}

#[test]
fn unknown_stub_instructions_are_rejected() {
    assert!(matches!(
        parse_stub_instruction(&[]),
        Err(StubError::InvalidInstructionData)
    ));
    assert!(matches!(
        parse_stub_instruction(&[3u8, 1, 2]),
        Err(StubError::InvalidInstructionData)
    ));
}

#[test]
fn transfer_encoding_matches_the_sdk() {
    let from = solana_sdk::pubkey::Pubkey::new_unique();
    let to = solana_sdk::pubkey::Pubkey::new_unique();
    let sdk_ix = solana_sdk::system_instruction::transfer(&from, &to, BURN_PROBE_FUNDING);
    let ours = transfer_instruction(
        &from.to_string(),
        &to.to_string(),
        BURN_PROBE_FUNDING,
    );
    assert_eq!(ours.data, sdk_ix.data);
    assert_eq!(ours.program_id, sdk_ix.program_id.to_string());
    assert_eq!(ours.accounts.len(), sdk_ix.accounts.len());
    assert_eq!(encode_system_transfer(0), vec![2u8, 0, 0, 0, 0, 0, 0, 0, 0, 0, 0, 0]);
}

#[test]
fn write_probe_expects_the_same_outcome_for_fresh_keys() {
    let data = vec![1u8, 2, 3, 4];
    let k1 = solana_sdk::pubkey::Pubkey::new_unique().to_string();
    let p1 = solana_sdk::pubkey::Pubkey::new_unique().to_string();
    let k2 = solana_sdk::pubkey::Pubkey::new_unique().to_string();
    let p2 = solana_sdk::pubkey::Pubkey::new_unique().to_string();
    let plan1 = write_probe_plan("ProgramUnderTest", &k1, &p1, &data);
    let plan2 = write_probe_plan("ProgramUnderTest", &k2, &p2, &data);
    // The instruction payload and the expected post-state are
    // identical run to run; only the fresh key material differs.
    assert_eq!(plan1.data, plan2.data);
    assert_eq!(plan1.program_id, plan2.program_id);
    assert_ne!(plan1.accounts[0].address, plan2.accounts[0].address);
    // Both runs' outcomes are judged by the same expectation.
    assert!(check_write_result("ProgramUnderTest", "ProgramUnderTest", &data, &data));
}

#[test]
fn write_probe_plan_accounts() {
    let plan = write_probe_plan("Prog", "Target", "Payer", &[5u8]);
    assert_eq!(plan.accounts[0].address, "Target");
    assert!(plan.accounts[0].writable && plan.accounts[0].signer);
    assert_eq!(plan.accounts[1].address, "Payer");
    assert!(plan.accounts[1].writable && plan.accounts[1].signer);
    assert_eq!(
        plan.accounts[2].address,
        solana_sdk::system_program::id().to_string()
    );
}

#[test]
fn burn_probe_funds_then_burns() {
    let plan = burn_probe_plan("Prog", "Target", "Payer");
    assert_eq!(plan.len(), 2);
    assert_eq!(plan[0].program_id, solana_sdk::system_program::id().to_string());
    assert_eq!(plan[0].accounts[0].address, "Payer");
    assert!(plan[0].accounts[0].writable && plan[0].accounts[0].signer);
    assert_eq!(plan[0].accounts[1].address, "Target");
    assert!(plan[0].accounts[1].writable && !plan[0].accounts[1].signer);
    assert_eq!(plan[1].program_id, "Prog");
    assert_eq!(plan[1].data, vec![2u8]);
    assert!(check_burn_result(false));
    assert!(!check_burn_result(true));
}

#[test]
fn emit_probe_names_no_accounts() {
    let payload = vec![6u8; 32];
    let plan = emit_probe_plan("Prog", &payload);
    assert_eq!(plan.program_id, "Prog");
    assert!(plan.accounts.is_empty());
    assert_eq!(plan.data[0], 1);
    assert_eq!(&plan.data[1..], &payload[..]);
}

#[test]
fn noop_program_returns_its_fixed_bytes() {
    assert_eq!(noop_return_data(), vec![7u8; 32]);
}

#[test]
fn write_results_are_judged_exactly() {
    let written = vec![9u8, 9, 9];
    assert!(check_write_result("Prog", "Prog", &written, &written));
    assert!(!check_write_result("Prog", "Other", &written, &written));
    assert!(!check_write_result("Prog", "Prog", &[9u8, 9], &written));
}

#[test]
fn emit_results_decode_the_return_data() {
    let emitted = solana_sdk::pubkey::Pubkey::new_unique().to_bytes().to_vec();
    let encoded = base64::encode(&emitted);
    assert!(check_emit_result("Prog", "Prog", &encoded, &emitted));
    // A wrong program, tampered payload, or invalid base64 all fail.
    assert!(!check_emit_result("Prog", "Other", &encoded, &emitted));
    assert!(!check_emit_result("Prog", "Prog", &encoded, &[1u8, 2, 3]));
    assert!(!check_emit_result("Prog", "Prog", "!!!not-base64!!!", &emitted));
    // The decoder really decodes: the raw base64 text differs from
    // the emitted bytes it encodes.
    assert_ne!(encoded.as_bytes().to_vec(), emitted);
}

#[test]
fn stub_write_processing_demands_the_payer_signature() {
    let data = vec![4u8; 16];
    let effects = stub_write_effects("Prog", true, &data).unwrap();
    assert_eq!(effects.allocated_space, 16);
    assert_eq!(effects.new_owner, "Prog");
    assert_eq!(effects.data, data);
    assert_eq!(
        effects.funded_lamports,
        solana_sdk::rent::Rent::default().minimum_balance(16)
    );
    assert!(matches!(
        stub_write_effects("Prog", false, &data),
        Err(StubProcessError::MissingRequiredSignature)
    ));
}
