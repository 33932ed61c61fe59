//! Well-known identities of the bridge: the account holding the EVM bridge's
//! global state and the bridge program itself, written as base58 strings and
//! decoded through the host SDK.

use vstd::prelude::*;

use crate::types::AccountId;

verus! {

/// Name for what base58 decoding of a string yields: a 32-byte identity for
/// the strings the decoder accepts, nothing for the rest. The result depends
/// on the characters alone.
pub uninterp spec fn pubkey_from_base58(s: Seq<char>) -> Option<Seq<u8>>;

/// Relies on `solana_program::pubkey::Pubkey::from_str`: base58 decoding
/// that succeeds exactly on strings decoding to 32 bytes, never panics, and
/// depends on its argument alone.
#[verifier::external_body]
fn base58_account_id(s: &str) -> (r: Option<AccountId>)
    ensures
        r matches Some(a) ==> a.wf() && pubkey_from_base58(s@) == Some(a@),
        r is None ==> pubkey_from_base58(s@) is None,
{
    <solana_program::pubkey::Pubkey as core::str::FromStr>::from_str(s).ok().map(
        |p| AccountId { bytes: p.to_bytes().to_vec() },
    )
}

/// Decode a base58 string into a 32-byte account identity.
pub fn parse_account_id(s: &str) -> (r: Option<AccountId>)
    ensures
        r matches Some(a) ==> a.wf() && pubkey_from_base58(s@) == Some(a@),
        r is None ==> pubkey_from_base58(s@) is None,
{
    base58_account_id(s)
}

/// The well-known identity of the account holding the bridge's global state.
pub fn evm_state_id() -> (r: Option<AccountId>)
    ensures
        r matches Some(a) ==> a.wf() && pubkey_from_base58(
            "EvmState11111111111111111111111111111111111"@,
        ) == Some(a@),
        r is None ==> pubkey_from_base58("EvmState11111111111111111111111111111111111"@) is None,
{
    base58_account_id("EvmState11111111111111111111111111111111111")
}

/// The well-known identity of the bridge program.
pub fn evm_id() -> (r: Option<AccountId>)
    ensures
        r matches Some(a) ==> a.wf() && pubkey_from_base58(
            "EVM1111111111111111111111111111111111111111"@,
        ) == Some(a@),
        r is None ==> pubkey_from_base58("EVM1111111111111111111111111111111111111111"@) is None,
{
    base58_account_id("EVM1111111111111111111111111111111111111111")
}

} // verus!
