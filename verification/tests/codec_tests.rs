use revertable::codec::{decode_evm_instruction, encode_evm_instruction};
use revertable::instruction::{
    EvmBigTransaction, EvmInstruction, Transaction, TransactionAction, TransactionSignature,
    UnsignedTransaction,
};
use revertable::types::{EvmAddress, Hash256, U256};

fn addr(b: u8) -> EvmAddress {
    EvmAddress { bytes: vec![b; 20] }
}

fn hash(b: u8) -> Hash256 {
    Hash256::from_bytes(vec![b; 32]).unwrap()
}

fn sample_tx() -> Transaction {
    Transaction {
        nonce: U256::from_u64(1),
        gas_price: U256 { d0: 20_000, d1: 0, d2: 0, d3: 0 },
        gas_limit: U256 { d0: 21_000, d1: 0, d2: 0, d3: 0 },
        action: TransactionAction::Call(addr(0xAB)),
        value: U256 { d0: 5, d1: 6, d2: 7, d3: 8 },
        signature: TransactionSignature { v: 27, r: hash(0x11), s: hash(0x22) },
        input: vec![1, 2, 3, 4, 5],
    }
}

fn sample_unsigned_tx() -> UnsignedTransaction {
    UnsignedTransaction {
        nonce: U256 { d0: 9, d1: 0, d2: 0, d3: 0 },
        gas_price: U256 { d0: 1, d1: 2, d2: 3, d3: 4 },
        gas_limit: U256 { d0: 50_000, d1: 0, d2: 0, d3: 0 },
        action: TransactionAction::Create,
        value: U256::zero(),
        input: vec![],
    }
}

fn round_trips(ix: EvmInstruction) {
    let bytes = encode_evm_instruction(&ix);
    let back = decode_evm_instruction(&bytes).expect("encoded instruction must decode");
    assert_eq!(back, ix);
}

#[test]
fn round_trip_evm_transaction() {
    round_trips(EvmInstruction::EvmTransaction { evm_tx: sample_tx() });
}

#[test]
fn round_trip_swap_native_to_ether() {
    round_trips(EvmInstruction::SwapNativeToEther { lamports: 10_000, evm_address: addr(0x42) });
}

#[test]
fn round_trip_free_ownership() {
    round_trips(EvmInstruction::FreeOwnership {});
}

#[test]
fn round_trip_big_transaction_allocate() {
    round_trips(EvmInstruction::EvmBigTransaction(
        EvmBigTransaction::EvmTransactionAllocate { size: 4096 },
    ));
}

#[test]
fn round_trip_big_transaction_write() {
    round_trips(EvmInstruction::EvmBigTransaction(EvmBigTransaction::EvmTransactionWrite {
        offset: 128,
        data: vec![0xDE, 0xAD, 0xBE, 0xEF],
    }));
}

#[test]
fn round_trip_big_transaction_execute() {
    round_trips(EvmInstruction::EvmBigTransaction(
        EvmBigTransaction::EvmTransactionExecute {},
    ));
}

#[test]
fn round_trip_big_transaction_execute_unsigned() {
    round_trips(EvmInstruction::EvmBigTransaction(
        EvmBigTransaction::EvmTransactionExecuteUnsigned { from: addr(0x07) },
    ));
}

#[test]
fn round_trip_authorized_transaction() {
    round_trips(EvmInstruction::EvmAuthorizedTransaction {
        from: addr(0x99),
        unsigned_tx: sample_unsigned_tx(),
    });
}

#[test]
fn tags_are_ordinal_positions() {
    let tx = EvmInstruction::EvmTransaction { evm_tx: sample_tx() };
    let swap = EvmInstruction::SwapNativeToEther { lamports: 1, evm_address: addr(0) };
    let free = EvmInstruction::FreeOwnership {};
    let big = EvmInstruction::EvmBigTransaction(EvmBigTransaction::EvmTransactionExecute {});
    let auth = EvmInstruction::EvmAuthorizedTransaction {
        from: addr(1),
        unsigned_tx: sample_unsigned_tx(),
    };
    for (ordinal, ix) in [tx, swap, free, big, auth].into_iter().enumerate() {
        let bytes = encode_evm_instruction(&ix);
        assert_eq!(&bytes[0..4], (ordinal as u32).to_le_bytes().as_slice());
    }
}

#[test]
fn swap_encoding_exact_bytes() {
    let ix = EvmInstruction::SwapNativeToEther { lamports: 10_000, evm_address: addr(0x11) };
    let mut expected = vec![1, 0, 0, 0];
    expected.extend_from_slice(&10_000u64.to_le_bytes());
    expected.extend_from_slice(&[0x11; 20]);
    assert_eq!(encode_evm_instruction(&ix), expected);
}

#[test]
fn free_ownership_encoding_exact_bytes() {
    assert_eq!(encode_evm_instruction(&EvmInstruction::FreeOwnership {}), vec![2, 0, 0, 0]);
}

#[test]
fn allocate_encoding_exact_bytes() {
    let ix = EvmInstruction::EvmBigTransaction(EvmBigTransaction::EvmTransactionAllocate {
        size: 7,
    });
    let mut expected = vec![3, 0, 0, 0, 0, 0, 0, 0];
    expected.extend_from_slice(&7u64.to_le_bytes());
    assert_eq!(encode_evm_instruction(&ix), expected);
}

#[test]
fn decode_rejects_unknown_tag() {
    assert_eq!(decode_evm_instruction(&vec![5, 0, 0, 0]), None);
}

#[test]
fn decode_rejects_empty_input() {
    assert_eq!(decode_evm_instruction(&vec![]), None);
}

#[test]
fn decode_rejects_truncated_payload() {
    let mut bytes = encode_evm_instruction(&EvmInstruction::SwapNativeToEther {
        lamports: 10_000,
        evm_address: addr(0x42),
    });
    bytes.pop();
    assert_eq!(decode_evm_instruction(&bytes), None);
}

#[test]
fn decode_rejects_trailing_bytes() {
    let mut bytes = encode_evm_instruction(&EvmInstruction::FreeOwnership {});
    bytes.push(0);
    assert_eq!(decode_evm_instruction(&bytes), None);
}

#[test]
fn decode_rejects_short_address_field() {
    // Tag 1 expects 8 bytes of lamports and then exactly 20 address bytes.
    let mut bytes = vec![1, 0, 0, 0];
    bytes.extend_from_slice(&10_000u64.to_le_bytes());
    bytes.extend_from_slice(&[0x11; 19]);
    assert_eq!(decode_evm_instruction(&bytes), None);
}

#[test]
fn decode_is_fixed_by_tag() {
    // A lone tag 2 is a complete FreeOwnership encoding; the same payload
    // under another tag is not a FreeOwnership.
    assert_eq!(
        decode_evm_instruction(&vec![2, 0, 0, 0]),
        Some(EvmInstruction::FreeOwnership {})
    );
    assert_eq!(decode_evm_instruction(&vec![0, 0, 0, 0]), None);
}
