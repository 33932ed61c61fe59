//! Compound invocation builder: the ordered three-step sequence that hands
//! custody of the caller's account to the bridge program, credits the value
//! on the EVM side, and releases custody back to the owner.

use vstd::prelude::*;

use crate::codec::{enc_u32, encode_evm_instruction, spec_encode_instruction};
use crate::instruction::{EvmInstruction, InstructionModel};
use crate::types::{zero_bytes, AccountId, EvmAddress};

verus! {

/// How one native instruction touches one account: identity, whether the
/// account must sign, and whether it may be written.
#[derive(Debug, Clone, PartialEq, Eq)]
pub struct AccountMeta {
    pub pubkey: AccountId,
    pub is_signer: bool,
    pub is_writable: bool,
}

/// Ghost model of [`AccountMeta`].
pub struct AccountMetaModel {
    pub pubkey: Seq<u8>,
    pub is_signer: bool,
    pub is_writable: bool,
}

impl View for AccountMeta {
    type V = AccountMetaModel;

    open spec fn view(&self) -> AccountMetaModel {
        AccountMetaModel {
            pubkey: self.pubkey@,
            is_signer: self.is_signer,
            is_writable: self.is_writable,
        }
    }
}

/// A call into the native runtime: destination program, touched accounts in
/// order, and the serialized instruction payload.
#[derive(Debug, Clone, PartialEq, Eq)]
pub struct NativeInstruction {
    pub program_id: AccountId,
    pub accounts: Vec<AccountMeta>,
    pub data: Vec<u8>,
}

/// Ghost model of [`NativeInstruction`].
pub struct NativeInstructionModel {
    pub program_id: Seq<u8>,
    pub accounts: Seq<AccountMetaModel>,
    pub data: Seq<u8>,
}

impl View for NativeInstruction {
    type V = NativeInstructionModel;

    open spec fn view(&self) -> NativeInstructionModel {
        NativeInstructionModel {
            program_id: self.program_id@,
            accounts: self.accounts@.map_values(|m: AccountMeta| m@),
            data: self.data@,
        }
    }
}

/// The two identities the bridge is wired to, injected rather than baked in
/// so alternate deployments can substitute their own.
#[derive(Debug, Clone, PartialEq, Eq)]
pub struct BridgeConfig {
    pub evm_state: AccountId,
    pub evm_program: AccountId,
}

impl BridgeConfig {
    pub open spec fn wf(&self) -> bool {
        self.evm_state.wf() && self.evm_program.wf()
    }

    /// Accepts two 32-byte identities; rejects anything else.
    pub fn new(evm_state: AccountId, evm_program: AccountId) -> (r: Option<BridgeConfig>)
        ensures
            evm_state.wf() && evm_program.wf() <==> r is Some,
            r matches Some(c) ==> c.wf() && c.evm_state@ == evm_state@ && c.evm_program@
                == evm_program@,
    {
        if evm_state.bytes.len() == 32 && evm_program.bytes.len() == 32 {
            Some(BridgeConfig { evm_state, evm_program })
        } else {
            None
        }
    }
}

/// The custody-transfer step: the native system program's `Assign`, moving
/// ownership of `owner`'s account to the bridge program. Its payload is the
/// system schema's 4-byte ordinal tag for `Assign` followed by the new owner
/// program's 32 bytes.
pub open spec fn spec_assign_ix(owner: Seq<u8>, new_owner_program: Seq<u8>) -> (
    NativeInstructionModel) {
    NativeInstructionModel {
        program_id: zero_bytes(32),
        accounts: seq![
            AccountMetaModel { pubkey: owner, is_signer: true, is_writable: true },
        ],
        data: enc_u32(1) + new_owner_program,
    }
}

/// The credit step: `SwapNativeToEther` moving `lamports` to `evm_address`
/// on the EVM side. The destination program is still the default all-zero
/// identity — a known placeholder until the proper recipient is wired in.
pub open spec fn spec_swap_ix(
    evm_state: Seq<u8>,
    owner: Seq<u8>,
    lamports: u64,
    evm_address: Seq<u8>,
) -> NativeInstructionModel {
    NativeInstructionModel {
        program_id: zero_bytes(32),
        accounts: seq![
            AccountMetaModel { pubkey: evm_state, is_signer: false, is_writable: true },
            AccountMetaModel { pubkey: owner, is_signer: true, is_writable: true },
        ],
        data: spec_encode_instruction(
            InstructionModel::SwapNativeToEther { lamports, evm_address },
        ),
    }
}

/// The release step: `FreeOwnership` addressed to the bridge program,
/// returning custody of `owner`'s account.
pub open spec fn spec_free_ownership_ix(
    evm_program: Seq<u8>,
    evm_state: Seq<u8>,
    owner: Seq<u8>,
) -> NativeInstructionModel {
    NativeInstructionModel {
        program_id: evm_program,
        accounts: seq![
            AccountMetaModel { pubkey: evm_state, is_signer: false, is_writable: true },
            AccountMetaModel { pubkey: owner, is_signer: true, is_writable: true },
        ],
        data: spec_encode_instruction(InstructionModel::FreeOwnership),
    }
}

/// The full compound sequence, in its fixed order.
pub open spec fn spec_transfer_ixs(
    evm_state: Seq<u8>,
    evm_program: Seq<u8>,
    owner: Seq<u8>,
    lamports: u64,
    evm_address: Seq<u8>,
) -> Seq<NativeInstructionModel> {
    seq![
        spec_assign_ix(owner, evm_program),
        spec_swap_ix(evm_state, owner, lamports, evm_address),
        spec_free_ownership_ix(evm_program, evm_state, owner),
    ]
}

/// Relies on `solana_program::system_instruction::assign`: it emits one
/// writable signer meta for the assigned account, addresses the system
/// program (the all-zero identity), and serializes `Assign { owner }` as the
/// 4-byte ordinal tag `1` followed by the owner program's 32 raw bytes.
#[verifier::external_body]
fn system_assign_ix(owner: &AccountId, new_owner_program: &AccountId) -> (r: NativeInstruction)
    requires
        owner.wf(),
        new_owner_program.wf(),
    ensures
        r@ == spec_assign_ix(owner@, new_owner_program@),
{
    let owner_key = solana_program::pubkey::Pubkey::try_from(owner.bytes.as_slice()).unwrap();
    let target = solana_program::pubkey::Pubkey::try_from(new_owner_program.bytes.as_slice()).unwrap();
    let ix = solana_program::system_instruction::assign(&owner_key, &target);
    let accounts = ix.accounts.iter().map(|m| AccountMeta {
        pubkey: AccountId { bytes: m.pubkey.to_bytes().to_vec() },
        is_signer: m.is_signer,
        is_writable: m.is_writable,
    }).collect();
    let program_id = AccountId { bytes: ix.program_id.to_bytes().to_vec() };
    NativeInstruction { program_id, accounts, data: ix.data }
}

/// The standard account list of a bridge call: the global state account
/// writable, then the owner as a writable signer.
fn bridge_account_metas(config: &BridgeConfig, owner: &AccountId) -> (r: Vec<AccountMeta>)
    ensures
        r@.map_values(|m: AccountMeta| m@) == seq![
            AccountMetaModel { pubkey: config.evm_state@, is_signer: false, is_writable: true },
            AccountMetaModel { pubkey: owner@, is_signer: true, is_writable: true },
        ],
{
    let mut metas: Vec<AccountMeta> = Vec::new();
    metas.push(
        AccountMeta { pubkey: config.evm_state.duplicate(), is_signer: false, is_writable: true },
    );
    metas.push(AccountMeta { pubkey: owner.duplicate(), is_signer: true, is_writable: true });
    proof {
        assert(metas@.map_values(|m: AccountMeta| m@) =~= seq![
            AccountMetaModel { pubkey: config.evm_state@, is_signer: false, is_writable: true },
            AccountMetaModel { pubkey: owner@, is_signer: true, is_writable: true },
        ]);
    }
    metas
}

/// The credit instruction of the compound sequence.
pub fn transfer_native_to_evm(config: &BridgeConfig, owner: &AccountId, lamports: u64, evm_address: &EvmAddress) -> (r:
    NativeInstruction)
    requires
        config.wf(),
        owner.wf(),
        evm_address.wf(),
    ensures
        r@ == spec_swap_ix(config.evm_state@, owner@, lamports, evm_address@),
{
    let account_metas = bridge_account_metas(config, owner);
    let data = encode_evm_instruction(
        &EvmInstruction::SwapNativeToEther { lamports, evm_address: evm_address.duplicate() },
    );
    NativeInstruction { program_id: AccountId::zero(), accounts: account_metas, data }
}

/// The release instruction of the compound sequence.
pub fn free_ownership(config: &BridgeConfig, owner: &AccountId) -> (r: NativeInstruction)
    requires
        config.wf(),
        owner.wf(),
    ensures
        r@ == spec_free_ownership_ix(config.evm_program@, config.evm_state@, owner@),
{
    let account_metas = bridge_account_metas(config, owner);
    let data = encode_evm_instruction(&EvmInstruction::FreeOwnership {});
    NativeInstruction { program_id: config.evm_program.duplicate(), accounts: account_metas, data }
}

/// The whole compound sequence: custody transfer, credit, release — exactly
/// three instructions, in that order.
pub fn transfer_native_to_evm_ixs(
    config: &BridgeConfig,
    owner: &AccountId,
    lamports: u64,
    ether_address: &EvmAddress,
) -> (r: Vec<NativeInstruction>)
    requires
        config.wf(),
        owner.wf(),
        ether_address.wf(),
    ensures
        r@.len() == 3,
        r@.map_values(|ix: NativeInstruction| ix@) == spec_transfer_ixs(
            config.evm_state@,
            config.evm_program@,
            owner@,
            lamports,
            ether_address@,
        ),
{
    let mut ixs: Vec<NativeInstruction> = Vec::new();
    ixs.push(system_assign_ix(owner, &config.evm_program));
    ixs.push(transfer_native_to_evm(config, owner, lamports, ether_address));
    ixs.push(free_ownership(config, owner));
    proof {
        assert(ixs@.map_values(|ix: NativeInstruction| ix@) =~= spec_transfer_ixs(
            config.evm_state@,
            config.evm_program@,
            owner@,
            lamports,
            ether_address@,
        ));
    }
    ixs
}

/// The compound sequence is always exactly three instructions in the fixed
/// order custody-transfer, credit-foreign-balance, release-ownership; the
/// owner is the signing account of the first and third.
pub proof fn lemma_sequence_composition(
    evm_state: Seq<u8>,
    evm_program: Seq<u8>,
    owner: Seq<u8>,
    lamports: u64,
    evm_address: Seq<u8>,
)
    ensures
        spec_transfer_ixs(evm_state, evm_program, owner, lamports, evm_address).len() == 3,
        spec_transfer_ixs(evm_state, evm_program, owner, lamports, evm_address)[0]
            == spec_assign_ix(owner, evm_program),
        spec_transfer_ixs(evm_state, evm_program, owner, lamports, evm_address)[1] == spec_swap_ix(
            evm_state,
            owner,
            lamports,
            evm_address,
        ),
        spec_transfer_ixs(evm_state, evm_program, owner, lamports, evm_address)[2]
            == spec_free_ownership_ix(evm_program, evm_state, owner),
        spec_assign_ix(owner, evm_program).accounts[0].pubkey == owner,
        spec_assign_ix(owner, evm_program).accounts[0].is_signer,
        spec_free_ownership_ix(evm_program, evm_state, owner).accounts[1].pubkey == owner,
        spec_free_ownership_ix(evm_program, evm_state, owner).accounts[1].is_signer,
{
}

} // verus!
