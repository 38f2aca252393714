//! The genesis plan: buffer framing, staged feature accounts, and
//! the assembled cluster description.

use std::str::FromStr;
use cbm_harness::genesis::{
    buffer_account_data, extract_elf, genesis_plan, staged_feature_account, GenesisError,
    MigrationTarget,
};

#[test]
fn buffer_framing_matches_the_loader_layout() {
    let elf = vec![0xAAu8, 0xBB, 0xCC];
    let data = buffer_account_data(&elf);
    assert_eq!(data.len(), 37 + elf.len());
    assert_eq!(
        data.len(),
        solana_sdk::bpf_loader_upgradeable::UpgradeableLoaderState::size_of_buffer(elf.len())
    );
    // The header: the buffer variant's index, no authority, padding.
    assert_eq!(&data[0..5], &[1u8, 0, 0, 0, 0]);
    assert!(data[5..37].iter().all(|b| *b == 0));
    assert_eq!(&data[37..], &elf[..]);
    // The header is bincode's encoding of the authority-less buffer
    // state, zero-padded to the metadata size.
    let sdk_header = bincode::serialize(
        &solana_sdk::bpf_loader_upgradeable::UpgradeableLoaderState::Buffer {
            authority_address: None,
        },
    )
    .unwrap();
    assert_eq!(&data[0..sdk_header.len()], &sdk_header[..]);
}

#[test]
fn cloning_an_elf_inverts_the_framing() {
    let elf = vec![7u8; 64];
    let framed = buffer_account_data(&elf);
    assert_eq!(extract_elf(&framed).unwrap(), elf);
    // An empty artifact still frames and extracts cleanly.
    let framed = buffer_account_data(&[]);
    assert_eq!(extract_elf(&framed).unwrap(), Vec::<u8>::new());
    // Data too short for the header is rejected.
    assert!(matches!(
        extract_elf(&[0u8; 36]),
        Err(GenesisError::BufferTooSmall)
    ));
}

#[test]
fn staged_feature_accounts_are_rent_exempt_for_the_feature_format() {
    let feature_id = solana_sdk::pubkey::Pubkey::new_unique().to_string();
    let account = staged_feature_account(&feature_id);
    assert_eq!(account.address, feature_id);
    assert_eq!(account.owner, "CBMActivator1111111111111111111111111111111");
    assert_eq!(account.data.len(), solana_sdk::feature::Feature::size_of());
    assert!(account.data.iter().all(|b| *b == 0));
    assert_eq!(
        account.lamports,
        solana_sdk::rent::Rent::default()
            .minimum_balance(solana_sdk::feature::Feature::size_of())
    );
}

#[test]
fn genesis_plan_seeds_two_accounts_per_target() {
    let targets = vec![
        MigrationTarget {
            feature_id: "FeatureOne".to_string(),
            buffer_address: "BufferOne".to_string(),
            elf_name: "one.so".to_string(),
        },
        MigrationTarget {
            feature_id: "FeatureTwo".to_string(),
            buffer_address: "BufferTwo".to_string(),
            elf_name: "two.so".to_string(),
        },
    ];
    let elves = vec![vec![1u8, 2, 3], vec![4u8, 5]];
    let plan = genesis_plan(&targets, &elves, "elfs", 50);

    assert_eq!(plan.slots_per_epoch, 50);
    assert!(plan.enable_transaction_history);
    assert_eq!(plan.deactivate_features, vec!["FeatureOne", "FeatureTwo"]);
    assert_eq!(plan.accounts.len(), 4);
    assert_eq!(plan.accounts[0].address, "FeatureOne");
    assert_eq!(plan.accounts[1].address, "BufferOne");
    assert_eq!(plan.accounts[2].address, "FeatureTwo");
    assert_eq!(plan.accounts[3].address, "BufferTwo");
    assert_eq!(
        plan.accounts[1].owner,
        solana_sdk::bpf_loader_upgradeable::id().to_string()
    );
    assert_eq!(&plan.accounts[1].data[37..], &[1u8, 2, 3]);
    assert_eq!(&plan.accounts[3].data[37..], &[4u8, 5]);

    assert_eq!(plan.upgradeable_programs.len(), 1);
    assert_eq!(
        plan.upgradeable_programs[0].program_id,
        "CBMActivator1111111111111111111111111111111"
    );
    assert_eq!(
        plan.upgradeable_programs[0].loader,
        solana_sdk::bpf_loader_upgradeable::id().to_string()
    );
    assert_eq!(
        plan.upgradeable_programs[0].program_path,
        "elfs/cbm_program_activator.so"
    );
}

#[test]
fn activator_address_is_a_valid_program_address() {
    let id = solana_sdk::pubkey::Pubkey::from_str("CBMActivator1111111111111111111111111111111")
        .unwrap();
    assert_eq!(id.to_string(), "CBMActivator1111111111111111111111111111111");
}

#[test]
fn activation_instruction_flips_the_staged_account() {
    let ix = cbm_harness::activator::activate_feature("FeatureOne", "Payer");
    assert_eq!(ix.program_id, "CBMActivator1111111111111111111111111111111");
    assert!(ix.data.is_empty());
    assert_eq!(ix.accounts[0].address, "FeatureOne");
    assert!(ix.accounts[0].writable && !ix.accounts[0].signer);
    assert_eq!(ix.accounts[1].address, "Payer");
    assert!(!ix.accounts[1].writable && ix.accounts[1].signer);
}
