//! Revert-guaranteeing executor: validates the incoming call, builds the
//! three-step compound sequence, records the outcome of each invocation, and
//! always ends the call with the distinguished revert code so the host
//! runtime discards every state change of the enclosing transaction.
//!
//! The host runtime's synchronous invocation primitive cannot run here; the
//! surrounding program drives it: it asks the session for each instruction in
//! order, performs the invocation, and hands the outcome back.

use vstd::prelude::*;

use crate::builder::{spec_transfer_ixs, transfer_native_to_evm_ixs, BridgeConfig,
    NativeInstruction};
use crate::types::{copy_bytes, zero_bytes, AccountId, EvmAddress};
use crate::{DEPOSIT_LAMPORTS, REVERT_CODE};

verus! {

/// The two outcomes an entrypoint call can surface: the precondition failure
/// for a missing account list, or a runtime-specific numeric code.
#[derive(Debug, Clone, Copy, PartialEq, Eq, Structural)]
pub enum BridgeError {
    NotEnoughAccountKeys,
    Custom(u32),
}

/// The target EVM address of a call: raw input of exactly 20 bytes is taken
/// verbatim; any other length falls back to the all-zero address.
pub open spec fn spec_resolve_address(raw: Seq<u8>) -> Seq<u8> {
    if raw.len() == 20 {
        raw
    } else {
        zero_bytes(20)
    }
}

/// The outcome visible to the entrypoint's caller, for any account list and
/// any raw input: the precondition failure on an empty list, the deliberate
/// revert code otherwise.
pub open spec fn spec_visible_outcome(account_keys: Seq<Seq<u8>>, raw_input: Seq<u8>) -> (
    BridgeError) {
    if account_keys.len() == 0 {
        BridgeError::NotEnoughAccountKeys
    } else {
        BridgeError::Custom(REVERT_CODE)
    }
}

/// Resolve the target address from the call's raw input; the second
/// component tells whether the lenient all-zero fallback was taken, so the
/// caller can emit its warning diagnostic.
pub fn resolve_ether_address(raw_input: &Vec<u8>) -> (r: (EvmAddress, bool))
    ensures
        r.0@ == spec_resolve_address(raw_input@),
        r.0.wf(),
        r.1 <==> raw_input@.len() != 20,
{
    if raw_input.len() == 20 {
        (EvmAddress { bytes: copy_bytes(raw_input) }, false)
    } else {
        (EvmAddress::zero(), true)
    }
}

/// One entry of the per-call diagnostic log: which instruction of the
/// sequence was invoked and whether the runtime reported success.
#[derive(Debug, Clone, Copy, PartialEq, Eq, Structural)]
pub struct InvocationRecord {
    pub index: usize,
    pub succeeded: bool,
}

/// One incoming call, from validation to the deliberate terminal failure.
///
/// Per call: `start` validates and builds the three instructions;
/// the surrounding program invokes each in order, recording every outcome
/// with `record_outcome`; `finish` yields the visible outcome, which is the
/// revert code no matter how many invocations succeeded.
#[derive(Debug, Clone, PartialEq, Eq)]
pub struct BridgeSession {
    pub instructions: Vec<NativeInstruction>,
    pub records: Vec<InvocationRecord>,
    pub address_defaulted: bool,
}

impl BridgeSession {
    pub open spec fn wf(&self) -> bool {
        &&& self.instructions@.len() == 3
        &&& self.records@.len() <= 3
        &&& forall|i: int| 0 <= i < self.records@.len() ==> (#[trigger] self.records@[i]).index
            == i
    }

    /// Validate an incoming call and build its compound sequence.
    ///
    /// Fails exactly on an empty account list, before anything is built or
    /// attempted; otherwise the session holds the three instructions built
    /// from the first account, the fixed deposit amount, and the resolved
    /// address, with an empty diagnostic log.
    pub fn start(config: &BridgeConfig, account_keys: &Vec<AccountId>, raw_input: &Vec<u8>) -> (r:
        Result<BridgeSession, BridgeError>)
        requires
            config.wf(),
            forall|i: int| 0 <= i < account_keys@.len() ==> (#[trigger] account_keys@[i]).wf(),
        ensures
            account_keys@.len() == 0 <==> r is Err,
            r matches Err(e) ==> e == BridgeError::NotEnoughAccountKeys && e
                == spec_visible_outcome(
                account_keys@.map_values(|a: AccountId| a@),
                raw_input@,
            ),
            r matches Ok(s) ==> {
                &&& s.wf()
                &&& s.records@.len() == 0
                &&& (s.address_defaulted <==> raw_input@.len() != 20)
                &&& s.instructions@.map_values(|ix: NativeInstruction| ix@) == spec_transfer_ixs(
                    config.evm_state@,
                    config.evm_program@,
                    account_keys@[0]@,
                    DEPOSIT_LAMPORTS,
                    spec_resolve_address(raw_input@),
                )
            },
    {
        if account_keys.len() == 0 {
            return Err(BridgeError::NotEnoughAccountKeys);
        }
        let (ether_address, address_defaulted) = resolve_ether_address(raw_input);
        let owner = &account_keys[0];
        let instructions = transfer_native_to_evm_ixs(
            config,
            owner,
            DEPOSIT_LAMPORTS,
            &ether_address,
        );
        Ok(BridgeSession { instructions, records: Vec::new(), address_defaulted })
    }

    pub fn instruction_count(&self) -> (r: usize)
        ensures
            r == self.instructions@.len(),
    {
        self.instructions.len()
    }

    pub fn instruction_at(&self, idx: usize) -> (r: &NativeInstruction)
        requires
            idx < self.instructions@.len(),
        ensures
            *r == self.instructions@[idx as int],
    {
        &self.instructions[idx]
    }

    /// Append one invocation outcome to the diagnostic log. Outcomes arrive
    /// in invocation order, so the new record's index is the log's length so
    /// far; a failure is recorded like a success and stops nothing.
    pub fn record_outcome(&mut self, succeeded: bool)
        requires
            old(self).wf(),
            old(self).records@.len() < 3,
        ensures
            final(self).wf(),
            final(self).records@ == old(self).records@.push(
                (InvocationRecord { index: old(self).records@.len() as usize, succeeded }),
            ),
            final(self).instructions == old(self).instructions,
            final(self).address_defaulted == old(self).address_defaulted,
    {
        let index = self.records.len();
        self.records.push(InvocationRecord { index, succeeded });
    }

    /// The deliberate terminal failure: whatever the recorded outcomes, the
    /// call's visible result is the fixed revert code, by which the host
    /// runtime rolls back every mutation of the enclosing transaction.
    pub fn finish(&self) -> (r: BridgeError)
        ensures
            r == BridgeError::Custom(REVERT_CODE),
    {
        BridgeError::Custom(REVERT_CODE)
    }
}

/// Always-revert guarantee: for any non-empty account list and any raw
/// input whatsoever, the outcome visible to the entrypoint's caller is the
/// failure carrying the fixed revert code — never success.
pub proof fn lemma_always_revert(account_keys: Seq<Seq<u8>>, raw_input: Seq<u8>)
    requires
        account_keys.len() > 0,
    ensures
        spec_visible_outcome(account_keys, raw_input) == BridgeError::Custom(REVERT_CODE),
{
}

/// Empty-accounts gate: an empty account list yields the precondition
/// failure, distinct from the deliberate revert code, whatever the input.
pub proof fn lemma_empty_accounts(raw_input: Seq<u8>)
    ensures
        spec_visible_outcome(Seq::empty(), raw_input) == BridgeError::NotEnoughAccountKeys,
        spec_visible_outcome(Seq::empty(), raw_input) != BridgeError::Custom(REVERT_CODE),
{
}

} // verus!
