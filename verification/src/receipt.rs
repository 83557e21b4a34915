//! Deterministic batch receipts.
//!
//! A settlement or a withdrawal is acknowledged with an opaque commitment
//! value derived from the batch contents alone: equal contents give equal
//! commitments, and the seeded fold keeps the value non-degenerate.  The
//! commitment is a display receipt, not a cryptographic proof.

use vstd::prelude::*;

use crate::types::PendingTransaction;
use crate::types::PendingTransactionView;

verus! {

/// Seed of every commitment fold.
pub const RECEIPT_SEED: u64 = 0xcbf2_9ce4_8422_2325;

/// Multiplier of the commitment fold.
pub const RECEIPT_MULT: u64 = 0x100_0000_01b3;

/// One fold step: the accumulator is scaled and the next word mixed in,
/// both modulo the word size.
pub open spec fn mix64(acc: u64, x: u64) -> u64 {
    vstd::wrapping::u64_specs::wrapping_add(
        vstd::wrapping::u64_specs::wrapping_mul(acc, RECEIPT_MULT),
        x,
    )
}

/// Executable fold step, equal to [`mix64`].
pub fn mix64_exec(acc: u64, x: u64) -> (r: u64)
    ensures
        r == mix64(acc, x),
{
    acc.wrapping_mul(RECEIPT_MULT).wrapping_add(x)
}

/// Commitment contribution of one pending transaction: its kind tag, its
/// amount and its timestamp, folded in order.
pub open spec fn tx_mix(acc: u64, t: PendingTransactionView) -> u64 {
    match t {
        PendingTransactionView::Tip(tip) => mix64(mix64(mix64(acc, 1), tip.amount), tip.timestamp),
        PendingTransactionView::AccessFee(fee) => mix64(
            mix64(mix64(acc, 2), fee.amount),
            fee.timestamp,
        ),
    }
}

/// Executable fold step over one transaction, equal to [`tx_mix`].
pub fn tx_mix_exec(acc: u64, t: &PendingTransaction) -> (r: u64)
    ensures
        r == tx_mix(acc, t@),
{
    match t {
        PendingTransaction::Tip(tip) => {
            mix64_exec(mix64_exec(mix64_exec(acc, 1), tip.amount), tip.timestamp)
        },
        PendingTransaction::AccessFee(fee) => {
            mix64_exec(mix64_exec(mix64_exec(acc, 2), fee.amount), fee.timestamp)
        },
    }
}

/// Fold of a batch of pending transactions starting from `acc`.
pub open spec fn batch_hash_from(acc: u64, s: Seq<PendingTransactionView>) -> u64
    decreases s.len(),
{
    if s.len() == 0 {
        acc
    } else {
        batch_hash_from(tx_mix(acc, s[0]), s.drop_first())
    }
}

/// Commitment to a settlement batch: deterministic in the batch contents.
pub open spec fn batch_hash(s: Seq<PendingTransactionView>) -> u64 {
    batch_hash_from(RECEIPT_SEED, s)
}

/// Fold of a byte sequence starting from `acc`.
pub open spec fn fold_bytes(acc: u64, s: Seq<u8>) -> u64
    decreases s.len(),
{
    if s.len() == 0 {
        acc
    } else {
        fold_bytes(mix64(acc, s[0] as u64), s.drop_first())
    }
}

/// Commitment to a withdrawal: deterministic in the room identifier (as its
/// encoded bytes), the amount and the time of the request.
pub open spec fn withdrawal_commit(room_id: Seq<char>, amount: u128, now: u64) -> u64 {
    mix64(
        mix64(
            mix64(
                fold_bytes(RECEIPT_SEED, vstd::utf8::encode_utf8(room_id)),
                (amount % 0x1_0000_0000_0000_0000) as u64,
            ),
            (amount / 0x1_0000_0000_0000_0000) as u64,
        ),
        now,
    )
}

/// Computes [`withdrawal_commit`] over the room identifier's bytes.
pub fn withdrawal_commit_exec(room_id: &String, amount: u128, now: u64) -> (r: u64)
    ensures
        r == withdrawal_commit(room_id@, amount, now),
{
    let bytes: &[u8] = room_id.as_str().as_bytes();
    let n = bytes.len();
    let mut acc: u64 = RECEIPT_SEED;
    let mut i: usize = 0;
    proof {
        assert(bytes@.skip(0) =~= bytes@);
    }
    while i < n
        invariant
            i <= n,
            n == bytes@.len(),
            bytes@ == vstd::utf8::encode_utf8(room_id@),
            fold_bytes(RECEIPT_SEED, bytes@) == fold_bytes(acc, bytes@.skip(i as int)),
        decreases n - i,
    {
        proof {
            assert(bytes@.skip(i as int).drop_first() =~= bytes@.skip(i + 1));
            assert(bytes@.skip(i as int)[0] == bytes@[i as int]);
        }
        acc = mix64_exec(acc, bytes[i] as u64);
        i += 1;
    }
    proof {
        assert(bytes@.skip(n as int) =~= Seq::<u8>::empty());
    }
    let low: u64 = (amount % 0x1_0000_0000_0000_0000) as u64;
    proof {
        vstd::arithmetic::div_mod::lemma_div_is_ordered(
            amount as int,
            u128::MAX as int,
            0x1_0000_0000_0000_0000,
        );
    }
    let high: u64 = (amount / 0x1_0000_0000_0000_0000) as u64;
    mix64_exec(mix64_exec(mix64_exec(acc, low), high), now)
}

} // verus!
