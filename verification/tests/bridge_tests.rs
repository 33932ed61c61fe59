use revertable::builder::{transfer_native_to_evm_ixs, BridgeConfig};
use revertable::codec::decode_evm_instruction;
use revertable::executor::{resolve_ether_address, BridgeError, BridgeSession};
use revertable::ids::{evm_id, evm_state_id, parse_account_id};
use revertable::instruction::EvmInstruction;
use revertable::types::{AccountId, EvmAddress};
use revertable::{DEPOSIT_LAMPORTS, REVERT_CODE};

fn test_config() -> BridgeConfig {
    let state = AccountId::from_bytes(vec![0xAA; 32]).unwrap();
    let program = AccountId::from_bytes(vec![0xBB; 32]).unwrap();
    BridgeConfig::new(state, program).unwrap()
}

fn owner_key() -> AccountId {
    AccountId::from_bytes(vec![7; 32]).unwrap()
}

#[test]
fn build_yields_three_instructions_in_order() {
    let config = test_config();
    let owner = owner_key();
    let address = EvmAddress::from_bytes(vec![4; 20]).unwrap();
    let ixs = transfer_native_to_evm_ixs(&config, &owner, 10_000, &address);
    assert_eq!(ixs.len(), 3);

    // Custody transfer: system program, one writable signer meta, payload is
    // the Assign ordinal tag and the bridge program's identity.
    assert_eq!(ixs[0].program_id.bytes, vec![0u8; 32]);
    assert_eq!(ixs[0].accounts.len(), 1);
    assert_eq!(ixs[0].accounts[0].pubkey.bytes, vec![7u8; 32]);
    assert!(ixs[0].accounts[0].is_signer);
    assert!(ixs[0].accounts[0].is_writable);
    let mut assign_data = vec![1u8, 0, 0, 0];
    assign_data.extend_from_slice(&[0xBB; 32]);
    assert_eq!(ixs[0].data, assign_data);

    // Credit: addressed to the default identity (the still-unresolved
    // placeholder), state account then signing owner, swap payload.
    assert_eq!(ixs[1].program_id.bytes, vec![0u8; 32]);
    assert_eq!(ixs[1].accounts.len(), 2);
    assert_eq!(ixs[1].accounts[0].pubkey.bytes, vec![0xAA; 32]);
    assert!(!ixs[1].accounts[0].is_signer);
    assert_eq!(ixs[1].accounts[1].pubkey.bytes, vec![7u8; 32]);
    assert!(ixs[1].accounts[1].is_signer);
    let decoded = decode_evm_instruction(&ixs[1].data).unwrap();
    assert_eq!(
        decoded,
        EvmInstruction::SwapNativeToEther {
            lamports: 10_000,
            evm_address: EvmAddress { bytes: vec![4; 20] },
        }
    );

    // Release: addressed to the bridge program, same account convention,
    // FreeOwnership payload.
    assert_eq!(ixs[2].program_id.bytes, vec![0xBB; 32]);
    assert_eq!(ixs[2].accounts.len(), 2);
    assert!(ixs[2].accounts[1].is_signer);
    assert_eq!(
        decode_evm_instruction(&ixs[2].data).unwrap(),
        EvmInstruction::FreeOwnership {}
    );
}

#[test]
fn address_of_exactly_twenty_bytes_is_verbatim() {
    let raw: Vec<u8> = (0..20).collect();
    let (address, defaulted) = resolve_ether_address(&raw);
    assert_eq!(address.bytes, raw);
    assert!(!defaulted);
}

#[test]
fn address_of_other_length_falls_back_to_zero() {
    for len in [0usize, 5, 19, 21, 32] {
        let raw = vec![9u8; len];
        let (address, defaulted) = resolve_ether_address(&raw);
        assert_eq!(address.bytes, vec![0u8; 20]);
        assert!(defaulted);
    }
}

#[test]
fn empty_account_list_fails_fast() {
    let config = test_config();
    let outcome = BridgeSession::start(&config, &vec![], &vec![0u8; 20]);
    assert_eq!(outcome.unwrap_err(), BridgeError::NotEnoughAccountKeys);
}

#[test]
fn full_call_scenario_always_reverts() {
    // One owner account (a funded account, say 33_000_000 lamports), raw
    // input of 20 zero bytes: three instructions are built and invoked, the
    // log holds three entries, the outcome is the revert code.
    let config = test_config();
    let keys = vec![owner_key()];
    let raw = vec![0u8; 20];
    let mut session = BridgeSession::start(&config, &keys, &raw).unwrap();
    assert!(!session.address_defaulted);
    assert_eq!(session.instruction_count(), 3);
    for _ in 0..3 {
        session.record_outcome(true);
    }
    assert_eq!(session.records.len(), 3);
    for (i, record) in session.records.iter().enumerate() {
        assert_eq!(record.index, i);
        assert!(record.succeeded);
    }
    assert_eq!(session.finish(), BridgeError::Custom(33));
    assert_eq!(session.finish(), BridgeError::Custom(REVERT_CODE));
}

#[test]
fn short_raw_input_warns_and_proceeds() {
    // Raw input of length 5: the address falls back to all zeros, the
    // defaulted flag drives the warning diagnostic, and the call proceeds to
    // the usual terminal failure.
    let config = test_config();
    let keys = vec![owner_key()];
    let raw = vec![1u8, 2, 3, 4, 5];
    let mut session = BridgeSession::start(&config, &keys, &raw).unwrap();
    assert!(session.address_defaulted);
    let decoded = decode_evm_instruction(&session.instruction_at(1).data).unwrap();
    assert_eq!(
        decoded,
        EvmInstruction::SwapNativeToEther {
            lamports: DEPOSIT_LAMPORTS,
            evm_address: EvmAddress { bytes: vec![0u8; 20] },
        }
    );
    for _ in 0..3 {
        session.record_outcome(true);
    }
    assert_eq!(session.finish(), BridgeError::Custom(33));
}

#[test]
fn failures_do_not_change_the_outcome() {
    let config = test_config();
    let keys = vec![owner_key(), AccountId::from_bytes(vec![8; 32]).unwrap()];
    let mut session = BridgeSession::start(&config, &keys, &vec![]).unwrap();
    session.record_outcome(false);
    session.record_outcome(false);
    session.record_outcome(false);
    assert_eq!(session.finish(), BridgeError::Custom(33));
}

#[test]
fn base58_decoding_of_all_ones_is_all_zero() {
    // The system program's textual identity: 32 ones decode to 32 zero bytes.
    let id = parse_account_id("11111111111111111111111111111111").unwrap();
    assert_eq!(id.bytes, vec![0u8; 32]);
}

#[test]
fn base58_decoding_rejects_bad_input() {
    assert!(parse_account_id("").is_none());
    assert!(parse_account_id("0OIl").is_none());
    assert!(parse_account_id("abc").is_none());
}

#[test]
fn well_known_identities_decode_and_differ() {
    let state = evm_state_id().unwrap();
    let program = evm_id().unwrap();
    assert_eq!(state.bytes.len(), 32);
    assert_eq!(program.bytes.len(), 32);
    assert_ne!(state.bytes, program.bytes);
    assert_ne!(state.bytes, vec![0u8; 32]);
}
