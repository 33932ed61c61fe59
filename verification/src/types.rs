//! Fixed-width value types shared by the wire codec and the builder: native
//! account identities (32 bytes), EVM-side addresses (20 bytes), 32-byte
//! hash/signature words, and 256-bit integers held as four 64-bit limbs.

use vstd::prelude::*;

verus! {

/// A sequence of `n` zero bytes.
pub open spec fn zero_bytes(n: nat) -> Seq<u8> {
    Seq::new(n, |i: int| 0u8)
}

/// A fresh vector with the same bytes as `src`.
pub fn copy_bytes(src: &Vec<u8>) -> (r: Vec<u8>)
    ensures
        r@ == src@,
{
    let n = src.len();
    let mut v: Vec<u8> = Vec::new();
    for i in 0..n
        invariant
            n == src@.len(),
            v@.len() == i,
            forall|t: int| 0 <= t < i ==> v@[t] == src@[t],
    {
        v.push(src[i]);
    }
    proof {
        assert(v@ =~= src@);
    }
    v
}

/// Identity of an account or program on the native ledger: exactly 32 bytes.
#[derive(Debug, Clone, PartialEq, Eq, PartialOrd, Ord)]
pub struct AccountId {
    pub bytes: Vec<u8>,
}

impl View for AccountId {
    type V = Seq<u8>;

    open spec fn view(&self) -> Seq<u8> {
        self.bytes@
    }
}

impl AccountId {
    pub open spec fn wf(&self) -> bool {
        self.bytes@.len() == 32
    }

    /// Accepts exactly 32 bytes; any other length is rejected.
    pub fn from_bytes(bytes: Vec<u8>) -> (r: Option<AccountId>)
        ensures
            bytes@.len() == 32 <==> r is Some,
            r matches Some(a) ==> a@ == bytes@ && a.wf(),
    {
        if bytes.len() == 32 {
            Some(AccountId { bytes })
        } else {
            None
        }
    }

    /// A copy holding the same bytes.
    pub fn duplicate(&self) -> (r: AccountId)
        ensures
            r@ == self@,
    {
        AccountId { bytes: copy_bytes(&self.bytes) }
    }

    /// The all-zero identity: the native system program's well-known id.
    pub fn zero() -> (r: AccountId)
        ensures
            r@ == zero_bytes(32),
            r.wf(),
    {
        let mut bytes: Vec<u8> = Vec::new();
        for i in 0..32usize
            invariant
                bytes@.len() == i,
                forall|j: int| 0 <= j < i ==> bytes@[j] == 0u8,
        {
            bytes.push(0u8);
        }
        proof {
            assert(bytes@ =~= zero_bytes(32));
        }
        AccountId { bytes }
    }
}

/// An address on the EVM side of the bridge: exactly 20 bytes.
#[derive(Debug, Clone, PartialEq, Eq, PartialOrd, Ord)]
pub struct EvmAddress {
    pub bytes: Vec<u8>,
}

impl View for EvmAddress {
    type V = Seq<u8>;

    open spec fn view(&self) -> Seq<u8> {
        self.bytes@
    }
}

impl EvmAddress {
    pub open spec fn wf(&self) -> bool {
        self.bytes@.len() == 20
    }

    /// Accepts exactly 20 bytes; any other length is rejected.
    pub fn from_bytes(bytes: Vec<u8>) -> (r: Option<EvmAddress>)
        ensures
            bytes@.len() == 20 <==> r is Some,
            r matches Some(a) ==> a@ == bytes@ && a.wf(),
    {
        if bytes.len() == 20 {
            Some(EvmAddress { bytes })
        } else {
            None
        }
    }

    /// A copy holding the same bytes.
    pub fn duplicate(&self) -> (r: EvmAddress)
        ensures
            r@ == self@,
    {
        EvmAddress { bytes: copy_bytes(&self.bytes) }
    }

    /// The all-zero address, used as the lenient fallback for malformed input.
    pub fn zero() -> (r: EvmAddress)
        ensures
            r@ == zero_bytes(20),
            r.wf(),
    {
        let mut bytes: Vec<u8> = Vec::new();
        for i in 0..20usize
            invariant
                bytes@.len() == i,
                forall|j: int| 0 <= j < i ==> bytes@[j] == 0u8,
        {
            bytes.push(0u8);
        }
        proof {
            assert(bytes@ =~= zero_bytes(20));
        }
        EvmAddress { bytes }
    }
}

/// A 32-byte word: a hash or one half of a signature.
#[derive(Debug, Clone, PartialEq, Eq, PartialOrd, Ord)]
pub struct Hash256 {
    pub bytes: Vec<u8>,
}

impl View for Hash256 {
    type V = Seq<u8>;

    open spec fn view(&self) -> Seq<u8> {
        self.bytes@
    }
}

impl Hash256 {
    pub open spec fn wf(&self) -> bool {
        self.bytes@.len() == 32
    }

    /// Accepts exactly 32 bytes; any other length is rejected.
    pub fn from_bytes(bytes: Vec<u8>) -> (r: Option<Hash256>)
        ensures
            bytes@.len() == 32 <==> r is Some,
            r matches Some(h) ==> h@ == bytes@ && h.wf(),
    {
        if bytes.len() == 32 {
            Some(Hash256 { bytes })
        } else {
            None
        }
    }
}

/// A 256-bit unsigned integer as four 64-bit limbs, least significant first.
#[derive(Debug, Clone, Copy, PartialEq, Eq, PartialOrd, Ord, Structural)]
pub struct U256 {
    pub d0: u64,
    pub d1: u64,
    pub d2: u64,
    pub d3: u64,
}

impl U256 {
    pub fn from_u64(x: u64) -> (r: U256)
        ensures
            r == (U256 { d0: x, d1: 0u64, d2: 0u64, d3: 0u64 }),
    {
        U256 { d0: x, d1: 0, d2: 0, d3: 0 }
    }

    pub fn zero() -> (r: U256)
        ensures
            r == (U256 { d0: 0u64, d1: 0u64, d2: 0u64, d3: 0u64 }),
    {
        U256 { d0: 0, d1: 0, d2: 0, d3: 0 }
    }
}

} // verus!
