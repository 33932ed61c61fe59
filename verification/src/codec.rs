//! Wire codec for [`EvmInstruction`]: a fixed, versionless layout.
//!
//! Layout rules: every variant is written as its 4-byte little-endian ordinal
//! tag followed by its fields in declared order; numeric fields are
//! fixed-width little-endian; addresses and hash words are raw fixed-width
//! bytes; variable-length byte payloads carry a little-endian 8-byte length
//! prefix. Decoding rejects unknown tags, truncated input and trailing bytes.

use vstd::bytes::{
    lemma_auto_spec_u32_to_from_le_bytes, lemma_auto_spec_u64_to_from_le_bytes,
    spec_u32_from_le_bytes, spec_u32_to_le_bytes, spec_u64_from_le_bytes, spec_u64_to_le_bytes,
    u32_from_le_bytes, u32_to_le_bytes, u64_from_le_bytes, u64_to_le_bytes,
};
use vstd::prelude::*;
use vstd::slice::slice_subrange;

use crate::instruction::{
    ActionModel, BigTransactionModel, EvmBigTransaction, EvmInstruction, InstructionModel,
    SignatureModel, Transaction, TransactionAction, TransactionModel, TransactionSignature,
    UnsignedTransaction, UnsignedTransactionModel,
};
use crate::types::{EvmAddress, Hash256, U256};

verus! {

// ---------------------------------------------------------------------------
// Specification: encoding
// ---------------------------------------------------------------------------
pub open spec fn enc_u32(x: u32) -> Seq<u8> {
    spec_u32_to_le_bytes(x)
}

pub open spec fn enc_u64(x: u64) -> Seq<u8> {
    spec_u64_to_le_bytes(x)
}

/// Length-prefixed byte payload: 8-byte little-endian length, then the bytes.
pub open spec fn enc_bytes(s: Seq<u8>) -> Seq<u8> {
    enc_u64(s.len() as u64) + s
}

/// Four 64-bit limbs, least significant limb first.
pub open spec fn enc_u256(v: U256) -> Seq<u8> {
    enc_u64(v.d0) + enc_u64(v.d1) + enc_u64(v.d2) + enc_u64(v.d3)
}

pub open spec fn enc_action(a: ActionModel) -> Seq<u8> {
    match a {
        ActionModel::Call(addr) => enc_u32(0) + addr,
        ActionModel::Create => enc_u32(1),
    }
}

pub open spec fn enc_signature(g: SignatureModel) -> Seq<u8> {
    enc_u64(g.v) + g.r + g.s
}

pub open spec fn enc_tx(t: TransactionModel) -> Seq<u8> {
    enc_u256(t.nonce) + enc_u256(t.gas_price) + enc_u256(t.gas_limit) + enc_action(t.action)
        + enc_u256(t.value) + enc_signature(t.signature) + enc_bytes(t.input)
}

pub open spec fn enc_unsigned_tx(t: UnsignedTransactionModel) -> Seq<u8> {
    enc_u256(t.nonce) + enc_u256(t.gas_price) + enc_u256(t.gas_limit) + enc_action(t.action)
        + enc_u256(t.value) + enc_bytes(t.input)
}

pub open spec fn enc_big(b: BigTransactionModel) -> Seq<u8> {
    match b {
        BigTransactionModel::Allocate { size } => enc_u32(0) + enc_u64(size),
        BigTransactionModel::Write { offset, data } => enc_u32(1) + enc_u64(offset) + enc_bytes(
            data,
        ),
        BigTransactionModel::Execute => enc_u32(2),
        BigTransactionModel::ExecuteUnsigned { from } => enc_u32(3) + from,
    }
}

pub open spec fn spec_encode_instruction(m: InstructionModel) -> Seq<u8> {
    match m {
        InstructionModel::EvmTransaction { evm_tx } => enc_u32(0) + enc_tx(evm_tx),
        InstructionModel::SwapNativeToEther { lamports, evm_address } => enc_u32(1) + enc_u64(
            lamports,
        ) + evm_address,
        InstructionModel::FreeOwnership => enc_u32(2),
        InstructionModel::EvmBigTransaction(big) => enc_u32(3) + enc_big(big),
        InstructionModel::EvmAuthorizedTransaction { from, unsigned_tx } => enc_u32(4) + from
            + enc_unsigned_tx(unsigned_tx),
    }
}

// ---------------------------------------------------------------------------
// Specification: decoding (a cursor over the byte sequence)
// ---------------------------------------------------------------------------
pub open spec fn dec_u32(s: Seq<u8>, i: int) -> Option<(u32, int)> {
    if 0 <= i && i + 4 <= s.len() {
        Some((spec_u32_from_le_bytes(s.subrange(i, i + 4)), i + 4))
    } else {
        None
    }
}

pub open spec fn dec_u64(s: Seq<u8>, i: int) -> Option<(u64, int)> {
    if 0 <= i && i + 8 <= s.len() {
        Some((spec_u64_from_le_bytes(s.subrange(i, i + 8)), i + 8))
    } else {
        None
    }
}

pub open spec fn dec_fixed(s: Seq<u8>, i: int, n: int) -> Option<(Seq<u8>, int)> {
    if 0 <= i && 0 <= n && i + n <= s.len() {
        Some((s.subrange(i, i + n), i + n))
    } else {
        None
    }
}

pub open spec fn dec_bytes(s: Seq<u8>, i: int) -> Option<(Seq<u8>, int)> {
    match dec_u64(s, i) {
        None => None,
        Some((len, j)) => dec_fixed(s, j, len as int),
    }
}

pub open spec fn dec_u256(s: Seq<u8>, i: int) -> Option<(U256, int)> {
    match dec_u64(s, i) {
        None => None,
        Some((d0, j0)) => match dec_u64(s, j0) {
            None => None,
            Some((d1, j1)) => match dec_u64(s, j1) {
                None => None,
                Some((d2, j2)) => match dec_u64(s, j2) {
                    None => None,
                    Some((d3, j3)) => Some((U256 { d0, d1, d2, d3 }, j3)),
                },
            },
        },
    }
}

pub open spec fn dec_action(s: Seq<u8>, i: int) -> Option<(ActionModel, int)> {
    match dec_u32(s, i) {
        None => None,
        Some((tag, j)) => if tag == 0 {
            match dec_fixed(s, j, 20) {
                None => None,
                Some((addr, k)) => Some((ActionModel::Call(addr), k)),
            }
        } else if tag == 1 {
            Some((ActionModel::Create, j))
        } else {
            None
        },
    }
}

pub open spec fn dec_signature(s: Seq<u8>, i: int) -> Option<(SignatureModel, int)> {
    match dec_u64(s, i) {
        None => None,
        Some((v, j)) => match dec_fixed(s, j, 32) {
            None => None,
            Some((r, k)) => match dec_fixed(s, k, 32) {
                None => None,
                Some((sg, l)) => Some((SignatureModel { v, r, s: sg }, l)),
            },
        },
    }
}

pub open spec fn dec_tx(s: Seq<u8>, i: int) -> Option<(TransactionModel, int)> {
    match dec_u256(s, i) {
        None => None,
        Some((nonce, j0)) => match dec_u256(s, j0) {
            None => None,
            Some((gas_price, j1)) => match dec_u256(s, j1) {
                None => None,
                Some((gas_limit, j2)) => match dec_action(s, j2) {
                    None => None,
                    Some((action, j3)) => match dec_u256(s, j3) {
                        None => None,
                        Some((value, j4)) => match dec_signature(s, j4) {
                            None => None,
                            Some((signature, j5)) => match dec_bytes(s, j5) {
                                None => None,
                                Some((input, j6)) => Some(
                                    (
                                        TransactionModel {
                                            nonce,
                                            gas_price,
                                            gas_limit,
                                            action,
                                            value,
                                            signature,
                                            input,
                                        },
                                        j6,
                                    ),
                                ),
                            },
                        },
                    },
                },
            },
        },
    }
}

pub open spec fn dec_unsigned_tx(s: Seq<u8>, i: int) -> Option<(UnsignedTransactionModel, int)> {
    match dec_u256(s, i) {
        None => None,
        Some((nonce, j0)) => match dec_u256(s, j0) {
            None => None,
            Some((gas_price, j1)) => match dec_u256(s, j1) {
                None => None,
                Some((gas_limit, j2)) => match dec_action(s, j2) {
                    None => None,
                    Some((action, j3)) => match dec_u256(s, j3) {
                        None => None,
                        Some((value, j4)) => match dec_bytes(s, j4) {
                            None => None,
                            Some((input, j5)) => Some(
                                (
                                    UnsignedTransactionModel {
                                        nonce,
                                        gas_price,
                                        gas_limit,
                                        action,
                                        value,
                                        input,
                                    },
                                    j5,
                                ),
                            ),
                        },
                    },
                },
            },
        },
    }
}

pub open spec fn dec_big(s: Seq<u8>, i: int) -> Option<(BigTransactionModel, int)> {
    match dec_u32(s, i) {
        None => None,
        Some((tag, j)) => if tag == 0 {
            match dec_u64(s, j) {
                None => None,
                Some((size, k)) => Some((BigTransactionModel::Allocate { size }, k)),
            }
        } else if tag == 1 {
            match dec_u64(s, j) {
                None => None,
                Some((offset, k)) => match dec_bytes(s, k) {
                    None => None,
                    Some((data, l)) => Some((BigTransactionModel::Write { offset, data }, l)),
                },
            }
        } else if tag == 2 {
            Some((BigTransactionModel::Execute, j))
        } else if tag == 3 {
            match dec_fixed(s, j, 20) {
                None => None,
                Some((from, k)) => Some((BigTransactionModel::ExecuteUnsigned { from }, k)),
            }
        } else {
            None
        },
    }
}

pub open spec fn dec_instr(s: Seq<u8>, i: int) -> Option<(InstructionModel, int)> {
    match dec_u32(s, i) {
        None => None,
        Some((tag, j)) => if tag == 0 {
            match dec_tx(s, j) {
                None => None,
                Some((evm_tx, k)) => Some((InstructionModel::EvmTransaction { evm_tx }, k)),
            }
        } else if tag == 1 {
            match dec_u64(s, j) {
                None => None,
                Some((lamports, k)) => match dec_fixed(s, k, 20) {
                    None => None,
                    Some((evm_address, l)) => Some(
                        (InstructionModel::SwapNativeToEther { lamports, evm_address }, l),
                    ),
                },
            }
        } else if tag == 2 {
            Some((InstructionModel::FreeOwnership, j))
        } else if tag == 3 {
            match dec_big(s, j) {
                None => None,
                Some((big, k)) => Some((InstructionModel::EvmBigTransaction(big), k)),
            }
        } else if tag == 4 {
            match dec_fixed(s, j, 20) {
                None => None,
                Some((from, k)) => match dec_unsigned_tx(s, k) {
                    None => None,
                    Some((unsigned_tx, l)) => Some(
                        (InstructionModel::EvmAuthorizedTransaction { from, unsigned_tx }, l),
                    ),
                },
            }
        } else {
            None
        },
    }
}

/// Decoding an instruction consumes the whole input: trailing bytes are
/// rejected as malformed, like any truncation or unknown tag.
pub open spec fn spec_decode_instruction(s: Seq<u8>) -> Option<InstructionModel> {
    match dec_instr(s, 0) {
        None => None,
        Some((m, j)) => if j == s.len() {
            Some(m)
        } else {
            None
        },
    }
}

// ---------------------------------------------------------------------------
// Round-trip proofs: decoding inverts encoding, layer by layer
// ---------------------------------------------------------------------------
/// A subrange of an embedded sequence is the matching subrange of the whole.
proof fn lemma_slice_within(s: Seq<u8>, i: int, e: Seq<u8>, a: int, b: int)
    requires
        0 <= i,
        i + e.len() <= s.len(),
        s.subrange(i, i + e.len() as int) == e,
        0 <= a <= b <= e.len(),
    ensures
        s.subrange(i + a, i + b) == e.subrange(a, b),
{
    assert forall|k: int| 0 <= k < b - a implies s.subrange(i + a, i + b)[k] == e.subrange(a, b)[k] by {
        assert(e[a + k] == s.subrange(i, i + e.len() as int)[a + k]);
    }
    assert(s.subrange(i + a, i + b) =~= e.subrange(a, b));
}

/// Splitting a concatenation back into its two parts.
proof fn lemma_concat_parts(x: Seq<u8>, y: Seq<u8>)
    ensures
        (x + y).subrange(0, x.len() as int) == x,
        (x + y).subrange(x.len() as int, (x + y).len() as int) == y,
{
    assert((x + y).subrange(0, x.len() as int) =~= x);
    assert((x + y).subrange(x.len() as int, (x + y).len() as int) =~= y);
}

/// The part of `s` at `i` holding `x + y` splits into a part holding `x`
/// and, right after it, a part holding `y`.
proof fn lemma_split_at(s: Seq<u8>, i: int, x: Seq<u8>, y: Seq<u8>)
    requires
        0 <= i,
        i + x.len() + y.len() <= s.len(),
        s.subrange(i, i + x.len() + y.len()) == x + y,
    ensures
        s.subrange(i, i + x.len() as int) == x,
        s.subrange(i + x.len() as int, i + x.len() + y.len()) == y,
{
    let e = x + y;
    lemma_concat_parts(x, y);
    lemma_slice_within(s, i, e, 0, x.len() as int);
    lemma_slice_within(s, i, e, x.len() as int, e.len() as int);
}

proof fn lemma_dec_u32_at(s: Seq<u8>, i: int, x: u32)
    requires
        0 <= i,
        i + 4 <= s.len(),
        s.subrange(i, i + 4) == enc_u32(x),
    ensures
        dec_u32(s, i) == Some((x, i + 4)),
{
    lemma_auto_spec_u32_to_from_le_bytes();
    assert(spec_u32_to_le_bytes(x).len() == 4);
}

proof fn lemma_dec_u64_at(s: Seq<u8>, i: int, x: u64)
    requires
        0 <= i,
        i + 8 <= s.len(),
        s.subrange(i, i + 8) == enc_u64(x),
    ensures
        dec_u64(s, i) == Some((x, i + 8)),
{
    lemma_auto_spec_u64_to_from_le_bytes();
}

proof fn lemma_dec_bytes_at(s: Seq<u8>, i: int, p: Seq<u8>)
    requires
        0 <= i,
        p.len() <= u64::MAX,
        i + enc_bytes(p).len() <= s.len(),
        s.subrange(i, i + enc_bytes(p).len() as int) == enc_bytes(p),
    ensures
        enc_bytes(p).len() == 8 + p.len(),
        dec_bytes(s, i) == Some((p, i + 8 + p.len())),
{
    lemma_auto_spec_u64_to_from_le_bytes();
    let n = p.len() as u64;
    assert(enc_u64(n).len() == 8);
    lemma_split_at(s, i, enc_u64(n), p);
    lemma_dec_u64_at(s, i, n);
}

proof fn lemma_dec_u256_at(s: Seq<u8>, i: int, v: U256)
    requires
        0 <= i,
        i + enc_u256(v).len() <= s.len(),
        s.subrange(i, i + enc_u256(v).len() as int) == enc_u256(v),
    ensures
        enc_u256(v).len() == 32,
        dec_u256(s, i) == Some((v, i + 32)),
{
    lemma_auto_spec_u64_to_from_le_bytes();
    let p01 = enc_u64(v.d0) + enc_u64(v.d1);
    let p012 = p01 + enc_u64(v.d2);
    let e = p012 + enc_u64(v.d3);
    assert(enc_u256(v) =~= e);
    lemma_split_at(s, i, p012, enc_u64(v.d3));
    lemma_split_at(s, i, p01, enc_u64(v.d2));
    lemma_split_at(s, i, enc_u64(v.d0), enc_u64(v.d1));
    lemma_dec_u64_at(s, i, v.d0);
    lemma_dec_u64_at(s, i + 8, v.d1);
    lemma_dec_u64_at(s, i + 16, v.d2);
    lemma_dec_u64_at(s, i + 24, v.d3);
}

proof fn lemma_dec_action_at(s: Seq<u8>, i: int, a: ActionModel)
    requires
        0 <= i,
        a.wf(),
        i + enc_action(a).len() <= s.len(),
        s.subrange(i, i + enc_action(a).len() as int) == enc_action(a),
    ensures
        dec_action(s, i) == Some((a, i + enc_action(a).len())),
{
    lemma_auto_spec_u32_to_from_le_bytes();
    match a {
        ActionModel::Call(addr) => {
            lemma_split_at(s, i, enc_u32(0), addr);
            lemma_dec_u32_at(s, i, 0);
        },
        ActionModel::Create => {
            assert(s.subrange(i, i + 4) =~= enc_u32(1));
            lemma_dec_u32_at(s, i, 1);
        },
    }
}

proof fn lemma_dec_signature_at(s: Seq<u8>, i: int, g: SignatureModel)
    requires
        0 <= i,
        g.wf(),
        i + enc_signature(g).len() <= s.len(),
        s.subrange(i, i + enc_signature(g).len() as int) == enc_signature(g),
    ensures
        enc_signature(g).len() == 72,
        dec_signature(s, i) == Some((g, i + 72)),
{
    lemma_auto_spec_u64_to_from_le_bytes();
    let pvr = enc_u64(g.v) + g.r;
    let e = pvr + g.s;
    assert(enc_signature(g) =~= e);
    lemma_split_at(s, i, pvr, g.s);
    lemma_split_at(s, i, enc_u64(g.v), g.r);
    lemma_dec_u64_at(s, i, g.v);
}

proof fn lemma_dec_tx_at(s: Seq<u8>, i: int, t: TransactionModel)
    requires
        0 <= i,
        t.wf(),
        i + enc_tx(t).len() <= s.len(),
        s.subrange(i, i + enc_tx(t).len() as int) == enc_tx(t),
    ensures
        dec_tx(s, i) == Some((t, i + enc_tx(t).len())),
{
    lemma_auto_spec_u64_to_from_le_bytes();
    let p1 = enc_u256(t.nonce);
    let p2 = p1 + enc_u256(t.gas_price);
    let p3 = p2 + enc_u256(t.gas_limit);
    let p4 = p3 + enc_action(t.action);
    let p5 = p4 + enc_u256(t.value);
    let p6 = p5 + enc_signature(t.signature);
    let e = p6 + enc_bytes(t.input);
    assert(enc_tx(t) =~= e);
    lemma_split_at(s, i, p6, enc_bytes(t.input));
    lemma_split_at(s, i, p5, enc_signature(t.signature));
    lemma_split_at(s, i, p4, enc_u256(t.value));
    lemma_split_at(s, i, p3, enc_action(t.action));
    lemma_split_at(s, i, p2, enc_u256(t.gas_limit));
    lemma_split_at(s, i, p1, enc_u256(t.gas_price));
    lemma_dec_u256_at(s, i, t.nonce);
    lemma_dec_u256_at(s, i + 32, t.gas_price);
    lemma_dec_u256_at(s, i + 64, t.gas_limit);
    lemma_dec_action_at(s, i + 96, t.action);
    let ja = i + 96 + enc_action(t.action).len();
    lemma_dec_u256_at(s, ja, t.value);
    lemma_dec_signature_at(s, ja + 32, t.signature);
    lemma_dec_bytes_at(s, ja + 104, t.input);
}

proof fn lemma_dec_unsigned_tx_at(s: Seq<u8>, i: int, t: UnsignedTransactionModel)
    requires
        0 <= i,
        t.wf(),
        i + enc_unsigned_tx(t).len() <= s.len(),
        s.subrange(i, i + enc_unsigned_tx(t).len() as int) == enc_unsigned_tx(t),
    ensures
        dec_unsigned_tx(s, i) == Some((t, i + enc_unsigned_tx(t).len())),
{
    lemma_auto_spec_u64_to_from_le_bytes();
    let p1 = enc_u256(t.nonce);
    let p2 = p1 + enc_u256(t.gas_price);
    let p3 = p2 + enc_u256(t.gas_limit);
    let p4 = p3 + enc_action(t.action);
    let p5 = p4 + enc_u256(t.value);
    let e = p5 + enc_bytes(t.input);
    assert(enc_unsigned_tx(t) =~= e);
    lemma_split_at(s, i, p5, enc_bytes(t.input));
    lemma_split_at(s, i, p4, enc_u256(t.value));
    lemma_split_at(s, i, p3, enc_action(t.action));
    lemma_split_at(s, i, p2, enc_u256(t.gas_limit));
    lemma_split_at(s, i, p1, enc_u256(t.gas_price));
    lemma_dec_u256_at(s, i, t.nonce);
    lemma_dec_u256_at(s, i + 32, t.gas_price);
    lemma_dec_u256_at(s, i + 64, t.gas_limit);
    lemma_dec_action_at(s, i + 96, t.action);
    let ja = i + 96 + enc_action(t.action).len();
    lemma_dec_u256_at(s, ja, t.value);
    lemma_dec_bytes_at(s, ja + 32, t.input);
}

proof fn lemma_dec_big_at(s: Seq<u8>, i: int, b: BigTransactionModel)
    requires
        0 <= i,
        b.wf(),
        i + enc_big(b).len() <= s.len(),
        s.subrange(i, i + enc_big(b).len() as int) == enc_big(b),
    ensures
        dec_big(s, i) == Some((b, i + enc_big(b).len())),
{
    lemma_auto_spec_u32_to_from_le_bytes();
    lemma_auto_spec_u64_to_from_le_bytes();
    match b {
        BigTransactionModel::Allocate { size } => {
            lemma_split_at(s, i, enc_u32(0), enc_u64(size));
            lemma_dec_u32_at(s, i, 0);
            lemma_dec_u64_at(s, i + 4, size);
        },
        BigTransactionModel::Write { offset, data } => {
            let p1 = enc_u32(1) + enc_u64(offset);
            let e = p1 + enc_bytes(data);
            assert(enc_big(b) =~= e);
            lemma_split_at(s, i, p1, enc_bytes(data));
            lemma_split_at(s, i, enc_u32(1), enc_u64(offset));
            lemma_dec_u32_at(s, i, 1);
            lemma_dec_u64_at(s, i + 4, offset);
            lemma_dec_bytes_at(s, i + 12, data);
        },
        BigTransactionModel::Execute => {
            assert(s.subrange(i, i + 4) =~= enc_u32(2));
            lemma_dec_u32_at(s, i, 2);
        },
        BigTransactionModel::ExecuteUnsigned { from } => {
            lemma_split_at(s, i, enc_u32(3), from);
            lemma_dec_u32_at(s, i, 3);
        },
    }
}

proof fn lemma_dec_instr_at(s: Seq<u8>, i: int, m: InstructionModel)
    requires
        0 <= i,
        m.wf(),
        i + spec_encode_instruction(m).len() <= s.len(),
        s.subrange(i, i + spec_encode_instruction(m).len() as int) == spec_encode_instruction(m),
    ensures
        dec_instr(s, i) == Some((m, i + spec_encode_instruction(m).len())),
{
    lemma_auto_spec_u32_to_from_le_bytes();
    lemma_auto_spec_u64_to_from_le_bytes();
    match m {
        InstructionModel::EvmTransaction { evm_tx } => {
            lemma_split_at(s, i, enc_u32(0), enc_tx(evm_tx));
            lemma_dec_u32_at(s, i, 0);
            lemma_dec_tx_at(s, i + 4, evm_tx);
        },
        InstructionModel::SwapNativeToEther { lamports, evm_address } => {
            let p1 = enc_u32(1) + enc_u64(lamports);
            let e = p1 + evm_address;
            assert(spec_encode_instruction(m) =~= e);
            lemma_split_at(s, i, p1, evm_address);
            lemma_split_at(s, i, enc_u32(1), enc_u64(lamports));
            lemma_dec_u32_at(s, i, 1);
            lemma_dec_u64_at(s, i + 4, lamports);
        },
        InstructionModel::FreeOwnership => {
            assert(s.subrange(i, i + 4) =~= enc_u32(2));
            lemma_dec_u32_at(s, i, 2);
        },
        InstructionModel::EvmBigTransaction(big) => {
            lemma_split_at(s, i, enc_u32(3), enc_big(big));
            lemma_dec_u32_at(s, i, 3);
            lemma_dec_big_at(s, i + 4, big);
        },
        InstructionModel::EvmAuthorizedTransaction { from, unsigned_tx } => {
            let p1 = enc_u32(4) + from;
            let e = p1 + enc_unsigned_tx(unsigned_tx);
            assert(spec_encode_instruction(m) =~= e);
            lemma_split_at(s, i, p1, enc_unsigned_tx(unsigned_tx));
            lemma_split_at(s, i, enc_u32(4), from);
            lemma_dec_u32_at(s, i, 4);
            lemma_dec_unsigned_tx_at(s, i + 24, unsigned_tx);
        },
    }
}

/// Round trip: decoding an encoded instruction yields that instruction, for
/// every well-formed instruction model.
pub proof fn lemma_round_trip(m: InstructionModel)
    requires
        m.wf(),
    ensures
        spec_decode_instruction(spec_encode_instruction(m)) == Some(m),
{
    let s = spec_encode_instruction(m);
    assert(s.subrange(0, s.len() as int) =~= s);
    lemma_dec_instr_at(s, 0, m);
}

/// Round trip for the nested chunked-upload schema on its own.
pub proof fn lemma_round_trip_big(b: BigTransactionModel)
    requires
        b.wf(),
    ensures
        dec_big(enc_big(b), 0) == Some((b, enc_big(b).len() as int)),
{
    let s = enc_big(b);
    assert(s.subrange(0, s.len() as int) =~= s);
    lemma_dec_big_at(s, 0, b);
}

/// Tag stability, encoder side: every encoding begins with the 4-byte
/// little-endian ordinal tag of its variant.
pub proof fn lemma_tag_prefix(m: InstructionModel)
    ensures
        spec_encode_instruction(m).len() >= 4,
        spec_encode_instruction(m).subrange(0, 4) == enc_u32(m.tag()),
{
    lemma_auto_spec_u32_to_from_le_bytes();
    let e = spec_encode_instruction(m);
    match m {
        InstructionModel::EvmTransaction { evm_tx } => {
            assert(e.subrange(0, 4) =~= enc_u32(0));
        },
        InstructionModel::SwapNativeToEther { lamports, evm_address } => {
            assert(e.subrange(0, 4) =~= enc_u32(1));
        },
        InstructionModel::FreeOwnership => {
            assert(e.subrange(0, 4) =~= enc_u32(2));
        },
        InstructionModel::EvmBigTransaction(big) => {
            assert(e.subrange(0, 4) =~= enc_u32(3));
        },
        InstructionModel::EvmAuthorizedTransaction { from, unsigned_tx } => {
            assert(e.subrange(0, 4) =~= enc_u32(4));
        },
    }
}

/// Tag stability, decoder side: whatever the payload, a successful decode
/// returns the variant whose ordinal is the leading 4-byte tag.
pub proof fn lemma_decode_tag(s: Seq<u8>, m: InstructionModel)
    requires
        spec_decode_instruction(s) == Some(m),
    ensures
        s.len() >= 4,
        m.tag() == spec_u32_from_le_bytes(s.subrange(0, 4)),
{
}

// ---------------------------------------------------------------------------
// Executable encoder
// ---------------------------------------------------------------------------
fn write_u32(out: &mut Vec<u8>, x: u32)
    ensures
        final(out)@ == old(out)@ + enc_u32(x),
{
    let mut b = u32_to_le_bytes(x);
    out.append(&mut b);
}

fn write_u64(out: &mut Vec<u8>, x: u64)
    ensures
        final(out)@ == old(out)@ + enc_u64(x),
{
    let mut b = u64_to_le_bytes(x);
    out.append(&mut b);
}

fn write_raw(out: &mut Vec<u8>, p: &Vec<u8>)
    ensures
        final(out)@ == old(out)@ + p@,
{
    let ghost out0 = out@;
    let n = p.len();
    proof {
        assert(out0 + p@.subrange(0, 0) =~= out0);
    }
    for k in 0..n
        invariant
            n == p@.len(),
            out@ == out0 + p@.subrange(0, k as int),
    {
        out.push(p[k]);
        proof {
            assert(out0 + p@.subrange(0, k as int) + seq![p@[k as int]] =~= out0 + p@.subrange(
                0,
                k as int + 1,
            ));
        }
    }
    proof {
        assert(p@.subrange(0, n as int) =~= p@);
    }
}

fn write_bytes(out: &mut Vec<u8>, p: &Vec<u8>)
    ensures
        final(out)@ == old(out)@ + enc_bytes(p@),
{
    write_u64(out, p.len() as u64);
    write_raw(out, p);
    proof {
        assert(out@ =~= old(out)@ + enc_bytes(p@));
    }
}

fn write_u256(out: &mut Vec<u8>, v: &U256)
    ensures
        final(out)@ == old(out)@ + enc_u256(*v),
{
    write_u64(out, v.d0);
    write_u64(out, v.d1);
    write_u64(out, v.d2);
    write_u64(out, v.d3);
    proof {
        assert(out@ =~= old(out)@ + enc_u256(*v));
    }
}

fn write_action(out: &mut Vec<u8>, a: &TransactionAction)
    ensures
        final(out)@ == old(out)@ + enc_action(a@),
{
    match a {
        TransactionAction::Call(addr) => {
            write_u32(out, 0);
            write_raw(out, &addr.bytes);
            proof {
                assert(out@ =~= old(out)@ + enc_action(a@));
            }
        },
        TransactionAction::Create => {
            write_u32(out, 1);
        },
    }
}

fn write_signature(out: &mut Vec<u8>, g: &TransactionSignature)
    ensures
        final(out)@ == old(out)@ + enc_signature(g@),
{
    write_u64(out, g.v);
    write_raw(out, &g.r.bytes);
    write_raw(out, &g.s.bytes);
    proof {
        assert(out@ =~= old(out)@ + enc_signature(g@));
    }
}

fn write_tx(out: &mut Vec<u8>, t: &Transaction)
    ensures
        final(out)@ == old(out)@ + enc_tx(t@),
{
    write_u256(out, &t.nonce);
    write_u256(out, &t.gas_price);
    write_u256(out, &t.gas_limit);
    write_action(out, &t.action);
    write_u256(out, &t.value);
    write_signature(out, &t.signature);
    write_bytes(out, &t.input);
    proof {
        assert(out@ =~= old(out)@ + enc_tx(t@));
    }
}

fn write_unsigned_tx(out: &mut Vec<u8>, t: &UnsignedTransaction)
    ensures
        final(out)@ == old(out)@ + enc_unsigned_tx(t@),
{
    write_u256(out, &t.nonce);
    write_u256(out, &t.gas_price);
    write_u256(out, &t.gas_limit);
    write_action(out, &t.action);
    write_u256(out, &t.value);
    write_bytes(out, &t.input);
    proof {
        assert(out@ =~= old(out)@ + enc_unsigned_tx(t@));
    }
}

fn write_big(out: &mut Vec<u8>, b: &EvmBigTransaction)
    ensures
        final(out)@ == old(out)@ + enc_big(b@),
{
    match b {
        EvmBigTransaction::EvmTransactionAllocate { size } => {
            write_u32(out, 0);
            write_u64(out, *size);
        },
        EvmBigTransaction::EvmTransactionWrite { offset, data } => {
            write_u32(out, 1);
            write_u64(out, *offset);
            write_bytes(out, data);
        },
        EvmBigTransaction::EvmTransactionExecute {} => {
            write_u32(out, 2);
        },
        EvmBigTransaction::EvmTransactionExecuteUnsigned { from } => {
            write_u32(out, 3);
            write_raw(out, &from.bytes);
        },
    }
    proof {
        assert(out@ =~= old(out)@ + enc_big(b@));
    }
}

/// Serialize a bridge instruction into its wire form.
pub fn encode_evm_instruction(ix: &EvmInstruction) -> (r: Vec<u8>)
    ensures
        r@ == spec_encode_instruction(ix@),
{
    let mut out: Vec<u8> = Vec::new();
    match ix {
        EvmInstruction::EvmTransaction { evm_tx } => {
            write_u32(&mut out, 0);
            write_tx(&mut out, evm_tx);
        },
        EvmInstruction::SwapNativeToEther { lamports, evm_address } => {
            write_u32(&mut out, 1);
            write_u64(&mut out, *lamports);
            write_raw(&mut out, &evm_address.bytes);
        },
        EvmInstruction::FreeOwnership {} => {
            write_u32(&mut out, 2);
        },
        EvmInstruction::EvmBigTransaction(big) => {
            write_u32(&mut out, 3);
            write_big(&mut out, big);
        },
        EvmInstruction::EvmAuthorizedTransaction { from, unsigned_tx } => {
            write_u32(&mut out, 4);
            write_raw(&mut out, &from.bytes);
            write_unsigned_tx(&mut out, unsigned_tx);
        },
    }
    proof {
        assert(out@ =~= spec_encode_instruction(ix@));
    }
    out
}

// ---------------------------------------------------------------------------
// Executable decoder
// ---------------------------------------------------------------------------
fn read_u32(s: &Vec<u8>, pos: usize) -> (r: Option<(u32, usize)>)
    ensures
        match r {
            Some((x, j)) => dec_u32(s@, pos as int) == Some((x, j as int)),
            None => dec_u32(s@, pos as int) is None,
        },
{
    if s.len() >= 4 && pos <= s.len() - 4 {
        let x = u32_from_le_bytes(slice_subrange(s.as_slice(), pos, pos + 4));
        Some((x, pos + 4))
    } else {
        None
    }
}

fn read_u64(s: &Vec<u8>, pos: usize) -> (r: Option<(u64, usize)>)
    ensures
        match r {
            Some((x, j)) => dec_u64(s@, pos as int) == Some((x, j as int)),
            None => dec_u64(s@, pos as int) is None,
        },
{
    if s.len() >= 8 && pos <= s.len() - 8 {
        let x = u64_from_le_bytes(slice_subrange(s.as_slice(), pos, pos + 8));
        Some((x, pos + 8))
    } else {
        None
    }
}

fn read_fixed(s: &Vec<u8>, pos: usize, n: usize) -> (r: Option<(Vec<u8>, usize)>)
    ensures
        match r {
            Some((v, j)) => dec_fixed(s@, pos as int, n as int) == Some((v@, j as int)) && v@.len()
                == n,
            None => dec_fixed(s@, pos as int, n as int) is None,
        },
{
    if n <= s.len() && pos <= s.len() - n {
        let end: usize = pos + n;
        let mut v: Vec<u8> = Vec::new();
        for idx in pos..end
            invariant
                end <= s@.len(),
                pos <= idx <= end,
                v@.len() == idx - pos,
                forall|t: int| 0 <= t < idx - pos ==> v@[t] == s@[pos + t],
        {
            v.push(s[idx]);
        }
        proof {
            assert(v@ =~= s@.subrange(pos as int, pos as int + n as int));
        }
        Some((v, end))
    } else {
        None
    }
}

fn read_bytes(s: &Vec<u8>, pos: usize) -> (r: Option<(Vec<u8>, usize)>)
    ensures
        match r {
            Some((v, j)) => dec_bytes(s@, pos as int) == Some((v@, j as int)),
            None => dec_bytes(s@, pos as int) is None,
        },
{
    match read_u64(s, pos) {
        None => None,
        Some((len, j)) => {
            if len <= (s.len() - j) as u64 {
                let n = len as usize;
                match read_fixed(s, j, n) {
                    None => None,
                    Some((v, k)) => Some((v, k)),
                }
            } else {
                None
            }
        },
    }
}

fn read_u256(s: &Vec<u8>, pos: usize) -> (r: Option<(U256, usize)>)
    ensures
        match r {
            Some((v, j)) => dec_u256(s@, pos as int) == Some((v, j as int)),
            None => dec_u256(s@, pos as int) is None,
        },
{
    match read_u64(s, pos) {
        None => None,
        Some((d0, j0)) => match read_u64(s, j0) {
            None => None,
            Some((d1, j1)) => match read_u64(s, j1) {
                None => None,
                Some((d2, j2)) => match read_u64(s, j2) {
                    None => None,
                    Some((d3, j3)) => Some((U256 { d0, d1, d2, d3 }, j3)),
                },
            },
        },
    }
}

fn read_action(s: &Vec<u8>, pos: usize) -> (r: Option<(TransactionAction, usize)>)
    ensures
        match r {
            Some((a, j)) => dec_action(s@, pos as int) == Some((a@, j as int)) && a.wf(),
            None => dec_action(s@, pos as int) is None,
        },
{
    match read_u32(s, pos) {
        None => None,
        Some((tag, j)) => {
            if tag == 0 {
                match read_fixed(s, j, 20) {
                    None => None,
                    Some((v, k)) => Some((TransactionAction::Call(EvmAddress { bytes: v }), k)),
                }
            } else if tag == 1 {
                Some((TransactionAction::Create, j))
            } else {
                None
            }
        },
    }
}

fn read_signature(s: &Vec<u8>, pos: usize) -> (r: Option<(TransactionSignature, usize)>)
    ensures
        match r {
            Some((g, j)) => dec_signature(s@, pos as int) == Some((g@, j as int)) && g.wf(),
            None => dec_signature(s@, pos as int) is None,
        },
{
    match read_u64(s, pos) {
        None => None,
        Some((v, j)) => match read_fixed(s, j, 32) {
            None => None,
            Some((rb, k)) => match read_fixed(s, k, 32) {
                None => None,
                Some((sb, l)) => Some(
                    (
                        TransactionSignature {
                            v,
                            r: Hash256 { bytes: rb },
                            s: Hash256 { bytes: sb },
                        },
                        l,
                    ),
                ),
            },
        },
    }
}

fn read_tx(s: &Vec<u8>, pos: usize) -> (r: Option<(Transaction, usize)>)
    ensures
        match r {
            Some((t, j)) => dec_tx(s@, pos as int) == Some((t@, j as int)) && t.wf(),
            None => dec_tx(s@, pos as int) is None,
        },
{
    match read_u256(s, pos) {
        None => None,
        Some((nonce, j0)) => match read_u256(s, j0) {
            None => None,
            Some((gas_price, j1)) => match read_u256(s, j1) {
                None => None,
                Some((gas_limit, j2)) => match read_action(s, j2) {
                    None => None,
                    Some((action, j3)) => match read_u256(s, j3) {
                        None => None,
                        Some((value, j4)) => match read_signature(s, j4) {
                            None => None,
                            Some((signature, j5)) => match read_bytes(s, j5) {
                                None => None,
                                Some((input, j6)) => Some(
                                    (
                                        Transaction {
                                            nonce,
                                            gas_price,
                                            gas_limit,
                                            action,
                                            value,
                                            signature,
                                            input,
                                        },
                                        j6,
                                    ),
                                ),
                            },
                        },
                    },
                },
            },
        },
    }
}

fn read_unsigned_tx(s: &Vec<u8>, pos: usize) -> (r: Option<(UnsignedTransaction, usize)>)
    ensures
        match r {
            Some((t, j)) => dec_unsigned_tx(s@, pos as int) == Some((t@, j as int)) && t.wf(),
            None => dec_unsigned_tx(s@, pos as int) is None,
        },
{
    match read_u256(s, pos) {
        None => None,
        Some((nonce, j0)) => match read_u256(s, j0) {
            None => None,
            Some((gas_price, j1)) => match read_u256(s, j1) {
                None => None,
                Some((gas_limit, j2)) => match read_action(s, j2) {
                    None => None,
                    Some((action, j3)) => match read_u256(s, j3) {
                        None => None,
                        Some((value, j4)) => match read_bytes(s, j4) {
                            None => None,
                            Some((input, j5)) => Some(
                                (
                                    UnsignedTransaction {
                                        nonce,
                                        gas_price,
                                        gas_limit,
                                        action,
                                        value,
                                        input,
                                    },
                                    j5,
                                ),
                            ),
                        },
                    },
                },
            },
        },
    }
}

fn read_big(s: &Vec<u8>, pos: usize) -> (r: Option<(EvmBigTransaction, usize)>)
    ensures
        match r {
            Some((b, j)) => dec_big(s@, pos as int) == Some((b@, j as int)) && b.wf(),
            None => dec_big(s@, pos as int) is None,
        },
{
    match read_u32(s, pos) {
        None => None,
        Some((tag, j)) => {
            if tag == 0 {
                match read_u64(s, j) {
                    None => None,
                    Some((size, k)) => Some(
                        (EvmBigTransaction::EvmTransactionAllocate { size }, k),
                    ),
                }
            } else if tag == 1 {
                match read_u64(s, j) {
                    None => None,
                    Some((offset, k)) => match read_bytes(s, k) {
                        None => None,
                        Some((data, l)) => Some(
                            (EvmBigTransaction::EvmTransactionWrite { offset, data }, l),
                        ),
                    },
                }
            } else if tag == 2 {
                Some((EvmBigTransaction::EvmTransactionExecute {}, j))
            } else if tag == 3 {
                match read_fixed(s, j, 20) {
                    None => None,
                    Some((v, k)) => Some(
                        (
                            EvmBigTransaction::EvmTransactionExecuteUnsigned {
                                from: EvmAddress { bytes: v },
                            },
                            k,
                        ),
                    ),
                }
            } else {
                None
            }
        },
    }
}

fn read_instr(s: &Vec<u8>, pos: usize) -> (r: Option<(EvmInstruction, usize)>)
    ensures
        match r {
            Some((x, j)) => dec_instr(s@, pos as int) == Some((x@, j as int)) && x.wf(),
            None => dec_instr(s@, pos as int) is None,
        },
{
    match read_u32(s, pos) {
        None => None,
        Some((tag, j)) => {
            if tag == 0 {
                match read_tx(s, j) {
                    None => None,
                    Some((evm_tx, k)) => Some((EvmInstruction::EvmTransaction { evm_tx }, k)),
                }
            } else if tag == 1 {
                match read_u64(s, j) {
                    None => None,
                    Some((lamports, k)) => match read_fixed(s, k, 20) {
                        None => None,
                        Some((v, l)) => Some(
                            (
                                EvmInstruction::SwapNativeToEther {
                                    lamports,
                                    evm_address: EvmAddress { bytes: v },
                                },
                                l,
                            ),
                        ),
                    },
                }
            } else if tag == 2 {
                Some((EvmInstruction::FreeOwnership {}, j))
            } else if tag == 3 {
                match read_big(s, j) {
                    None => None,
                    Some((big, k)) => Some((EvmInstruction::EvmBigTransaction(big), k)),
                }
            } else if tag == 4 {
                match read_fixed(s, j, 20) {
                    None => None,
                    Some((v, k)) => match read_unsigned_tx(s, k) {
                        None => None,
                        Some((unsigned_tx, l)) => Some(
                            (
                                EvmInstruction::EvmAuthorizedTransaction {
                                    from: EvmAddress { bytes: v },
                                    unsigned_tx,
                                },
                                l,
                            ),
                        ),
                    },
                }
            } else {
                None
            }
        },
    }
}

/// Deserialize a bridge instruction from its wire form.
///
/// Succeeds exactly on the byte sequences that `spec_decode_instruction`
/// accepts: a known tag, fields of the right width, and nothing left over.
pub fn decode_evm_instruction(s: &Vec<u8>) -> (r: Option<EvmInstruction>)
    ensures
        match r {
            Some(x) => spec_decode_instruction(s@) == Some(x@) && x.wf(),
            None => spec_decode_instruction(s@) is None,
        },
{
    match read_instr(s, 0) {
        None => None,
        Some((x, j)) => {
            if j == s.len() {
                Some(x)
            } else {
                None
            }
        },
    }
}

} // verus!
