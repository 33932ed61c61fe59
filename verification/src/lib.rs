//! A verified model of a native-to-EVM bridge program: the wire codec for
//! bridge instructions, the builder for the three-step custody/credit/release
//! sequence, and the executor logic that always ends a call with the
//! distinguished revert code so the host runtime rolls everything back.

use vstd::prelude::*;

pub mod builder;
pub mod codec;
pub mod executor;
pub mod ids;
pub mod instruction;
pub mod types;

verus! {

/// Fixed amount of native value moved into the EVM-side balance per call.
pub const DEPOSIT_LAMPORTS: u64 = 10_000;

/// The distinguished error code that forces the host runtime to discard
/// every state change of the enclosing transaction.
pub const REVERT_CODE: u32 = 33;

} // verus!
