//! The bridge instruction schema: the tagged unions exchanged with the
//! EVM-bridge contract, together with their ghost models (deep views) that
//! the codec's specification is stated over.
//!
//! Variant order is wire-significant: the codec writes each variant's ordinal
//! position as its tag, so variants may only ever be appended, never
//! reordered or removed.

use vstd::prelude::*;

use crate::types::{EvmAddress, Hash256, U256};

verus! {

/// What a foreign transaction does: call an existing contract or create one.
#[derive(Debug, Clone, PartialEq, Eq, PartialOrd, Ord)]
pub enum TransactionAction {
    Call(EvmAddress),
    Create,
}

/// Ghost model of [`TransactionAction`].
pub enum ActionModel {
    Call(Seq<u8>),
    Create,
}

impl View for TransactionAction {
    type V = ActionModel;

    open spec fn view(&self) -> ActionModel {
        match self {
            TransactionAction::Call(a) => ActionModel::Call(a@),
            TransactionAction::Create => ActionModel::Create,
        }
    }
}

impl ActionModel {
    pub open spec fn wf(self) -> bool {
        match self {
            ActionModel::Call(a) => a.len() == 20,
            ActionModel::Create => true,
        }
    }
}

impl TransactionAction {
    pub open spec fn wf(&self) -> bool {
        self@.wf()
    }
}

/// A foreign-chain signature: recovery word `v` and the two 32-byte halves.
#[derive(Debug, Clone, PartialEq, Eq, PartialOrd, Ord)]
pub struct TransactionSignature {
    pub v: u64,
    pub r: Hash256,
    pub s: Hash256,
}

/// Ghost model of [`TransactionSignature`].
pub struct SignatureModel {
    pub v: u64,
    pub r: Seq<u8>,
    pub s: Seq<u8>,
}

impl View for TransactionSignature {
    type V = SignatureModel;

    open spec fn view(&self) -> SignatureModel {
        SignatureModel { v: self.v, r: self.r@, s: self.s@ }
    }
}

impl SignatureModel {
    pub open spec fn wf(self) -> bool {
        self.r.len() == 32 && self.s.len() == 32
    }
}

impl TransactionSignature {
    pub open spec fn wf(&self) -> bool {
        self@.wf()
    }
}

/// A fully signed foreign-chain transaction envelope.
#[derive(Debug, Clone, PartialEq, Eq, PartialOrd, Ord)]
pub struct Transaction {
    pub nonce: U256,
    pub gas_price: U256,
    pub gas_limit: U256,
    pub action: TransactionAction,
    pub value: U256,
    pub signature: TransactionSignature,
    pub input: Vec<u8>,
}

/// Ghost model of [`Transaction`].
pub struct TransactionModel {
    pub nonce: U256,
    pub gas_price: U256,
    pub gas_limit: U256,
    pub action: ActionModel,
    pub value: U256,
    pub signature: SignatureModel,
    pub input: Seq<u8>,
}

impl View for Transaction {
    type V = TransactionModel;

    open spec fn view(&self) -> TransactionModel {
        TransactionModel {
            nonce: self.nonce,
            gas_price: self.gas_price,
            gas_limit: self.gas_limit,
            action: self.action@,
            value: self.value,
            signature: self.signature@,
            input: self.input@,
        }
    }
}

impl TransactionModel {
    pub open spec fn wf(self) -> bool {
        self.action.wf() && self.signature.wf() && self.input.len() <= u64::MAX
    }
}

impl Transaction {
    pub open spec fn wf(&self) -> bool {
        self@.wf()
    }
}

/// A foreign-chain transaction before signing.
#[derive(Debug, Clone, PartialEq, Eq, PartialOrd, Ord)]
pub struct UnsignedTransaction {
    pub nonce: U256,
    pub gas_price: U256,
    pub gas_limit: U256,
    pub action: TransactionAction,
    pub value: U256,
    pub input: Vec<u8>,
}

/// Ghost model of [`UnsignedTransaction`].
pub struct UnsignedTransactionModel {
    pub nonce: U256,
    pub gas_price: U256,
    pub gas_limit: U256,
    pub action: ActionModel,
    pub value: U256,
    pub input: Seq<u8>,
}

impl View for UnsignedTransaction {
    type V = UnsignedTransactionModel;

    open spec fn view(&self) -> UnsignedTransactionModel {
        UnsignedTransactionModel {
            nonce: self.nonce,
            gas_price: self.gas_price,
            gas_limit: self.gas_limit,
            action: self.action@,
            value: self.value,
            input: self.input@,
        }
    }
}

impl UnsignedTransactionModel {
    pub open spec fn wf(self) -> bool {
        self.action.wf() && self.input.len() <= u64::MAX
    }
}

impl UnsignedTransaction {
    pub open spec fn wf(&self) -> bool {
        self@.wf()
    }
}

/// Chunked upload protocol for foreign transactions too large for one call.
#[derive(Debug, Clone, PartialEq, Eq, PartialOrd, Ord)]
pub enum EvmBigTransaction {
    EvmTransactionAllocate { size: u64 },
    EvmTransactionWrite { offset: u64, data: Vec<u8> },
    EvmTransactionExecute {},
    EvmTransactionExecuteUnsigned { from: EvmAddress },
}

/// Ghost model of [`EvmBigTransaction`].
pub enum BigTransactionModel {
    Allocate { size: u64 },
    Write { offset: u64, data: Seq<u8> },
    Execute,
    ExecuteUnsigned { from: Seq<u8> },
}

impl View for EvmBigTransaction {
    type V = BigTransactionModel;

    open spec fn view(&self) -> BigTransactionModel {
        match self {
            EvmBigTransaction::EvmTransactionAllocate { size } => BigTransactionModel::Allocate {
                size: *size,
            },
            EvmBigTransaction::EvmTransactionWrite { offset, data } => BigTransactionModel::Write {
                offset: *offset,
                data: data@,
            },
            EvmBigTransaction::EvmTransactionExecute {} => BigTransactionModel::Execute,
            EvmBigTransaction::EvmTransactionExecuteUnsigned { from } => (
            BigTransactionModel::ExecuteUnsigned { from: from@ }),
        }
    }
}

impl BigTransactionModel {
    pub open spec fn wf(self) -> bool {
        match self {
            BigTransactionModel::Allocate { size } => true,
            BigTransactionModel::Write { offset, data } => data.len() <= u64::MAX,
            BigTransactionModel::Execute => true,
            BigTransactionModel::ExecuteUnsigned { from } => from.len() == 20,
        }
    }
}

impl EvmBigTransaction {
    pub open spec fn wf(&self) -> bool {
        self@.wf()
    }
}

/// An instruction addressed to the EVM-bridge contract.
///
/// The declared order fixes each variant's wire tag.
#[derive(Debug, Clone, PartialEq, Eq, PartialOrd, Ord)]
pub enum EvmInstruction {
    EvmTransaction { evm_tx: Transaction },
    SwapNativeToEther { lamports: u64, evm_address: EvmAddress },
    FreeOwnership {},
    EvmBigTransaction(EvmBigTransaction),
    EvmAuthorizedTransaction { from: EvmAddress, unsigned_tx: UnsignedTransaction },
}

/// Ghost model of [`EvmInstruction`].
pub enum InstructionModel {
    EvmTransaction { evm_tx: TransactionModel },
    SwapNativeToEther { lamports: u64, evm_address: Seq<u8> },
    FreeOwnership,
    EvmBigTransaction(BigTransactionModel),
    EvmAuthorizedTransaction { from: Seq<u8>, unsigned_tx: UnsignedTransactionModel },
}

impl View for EvmInstruction {
    type V = InstructionModel;

    open spec fn view(&self) -> InstructionModel {
        match self {
            EvmInstruction::EvmTransaction { evm_tx } => InstructionModel::EvmTransaction {
                evm_tx: evm_tx@,
            },
            EvmInstruction::SwapNativeToEther { lamports, evm_address } => (
            InstructionModel::SwapNativeToEther {
                lamports: *lamports,
                evm_address: evm_address@,
            }),
            EvmInstruction::FreeOwnership {} => InstructionModel::FreeOwnership,
            EvmInstruction::EvmBigTransaction(big) => InstructionModel::EvmBigTransaction(big@),
            EvmInstruction::EvmAuthorizedTransaction { from, unsigned_tx } => (
            InstructionModel::EvmAuthorizedTransaction {
                from: from@,
                unsigned_tx: unsigned_tx@,
            }),
        }
    }
}

impl InstructionModel {
    pub open spec fn wf(self) -> bool {
        match self {
            InstructionModel::EvmTransaction { evm_tx } => evm_tx.wf(),
            InstructionModel::SwapNativeToEther { lamports, evm_address } => evm_address.len()
                == 20,
            InstructionModel::FreeOwnership => true,
            InstructionModel::EvmBigTransaction(big) => big.wf(),
            InstructionModel::EvmAuthorizedTransaction { from, unsigned_tx } => from.len() == 20
                && unsigned_tx.wf(),
        }
    }

    /// The wire tag: the variant's ordinal position in the declaration.
    pub open spec fn tag(self) -> u32 {
        match self {
            InstructionModel::EvmTransaction { .. } => 0u32,
            InstructionModel::SwapNativeToEther { .. } => 1u32,
            InstructionModel::FreeOwnership => 2u32,
            InstructionModel::EvmBigTransaction(..) => 3u32,
            InstructionModel::EvmAuthorizedTransaction { .. } => 4u32,
        }
    }
}

impl BigTransactionModel {
    /// The wire tag of the nested upload variant.
    pub open spec fn tag(self) -> u32 {
        match self {
            BigTransactionModel::Allocate { .. } => 0u32,
            BigTransactionModel::Write { .. } => 1u32,
            BigTransactionModel::Execute => 2u32,
            BigTransactionModel::ExecuteUnsigned { .. } => 3u32,
        }
    }
}

impl EvmInstruction {
    pub open spec fn wf(&self) -> bool {
        self@.wf()
    }
}

} // verus!
