//! The keys under which cached records are stored: a slot is stored under
//! its decimal text, a transaction under the base58 text of its signature.
use vstd::prelude::*;

use crate::codec::{signature_base58, signature_text};

verus! {

/// The ASCII bytes of the decimal text of `n`, without leading zeros, as
/// `u64`'s `Display` writes it.
pub open spec fn decimal_digits(n: nat) -> Seq<u8>
    decreases n,
{
    if n < 10 {
        seq![(48 + n) as u8]
    } else {
        decimal_digits(n / 10).push((48 + n % 10) as u8)
    }
}

/// The key of a slot's block in the slot tree.
pub open spec fn slot_key_spec(slot: u64) -> Seq<u8> {
    decimal_digits(slot as nat)
}

/// The key of a transaction in the transaction tree.
pub open spec fn tx_key_spec(sig: Seq<u8>) -> Seq<u8> {
    signature_base58(sig)
}

fn push_decimal(n: u64, out: &mut Vec<u8>)
    ensures
        final(out)@ == old(out)@ + decimal_digits(n as nat),
    decreases n,
{
    if n >= 10 {
        push_decimal(n / 10, out);
    }
    let digit: u8 = (n % 10) as u8;
    out.push(48 + digit);
    proof {
        assert(final(out)@ == old(out)@ + decimal_digits(n as nat));
    }
}

/// The key of a slot: the bytes of `slot.to_string()`.
pub fn slot_key(slot: u64) -> (key: Vec<u8>)
    ensures
        key@ == slot_key_spec(slot),
{
    let mut key: Vec<u8> = Vec::new();
    push_decimal(slot, &mut key);
    proof {
        assert(key@ =~= decimal_digits(slot as nat));
    }
    key
}

/// The key of a transaction: the bytes of the signature's base58 text.
pub fn tx_key(sig: &[u8; 64]) -> (key: Vec<u8>)
    ensures
        key@ == tx_key_spec(sig@),
{
    signature_text(sig)
}

proof fn lemma_decimal_digits_len(n: nat)
    ensures
        decimal_digits(n).len() >= 1,
        n < 10 <==> decimal_digits(n).len() == 1,
    decreases n,
{
    if n >= 10 {
        lemma_decimal_digits_len(n / 10);
    }
}

/// Distinct slots have distinct decimal texts, so no two slots ever share a
/// cache entry.
pub proof fn law_slot_keys_distinct(a: u64, b: u64)
    requires
        a != b,
    ensures
        slot_key_spec(a) != slot_key_spec(b),
{
    lemma_decimal_digits_injective(a as nat, b as nat);
}

proof fn lemma_decimal_digits_injective(a: nat, b: nat)
    ensures
        decimal_digits(a) == decimal_digits(b) ==> a == b,
    decreases a,
{
    lemma_decimal_digits_len(a);
    lemma_decimal_digits_len(b);
    if decimal_digits(a) == decimal_digits(b) {
        if a < 10 || b < 10 {
            assert(a < 10 && b < 10);
            assert(decimal_digits(a)[0] == decimal_digits(b)[0]);
        } else {
            let da = decimal_digits(a);
            let db = decimal_digits(b);
            assert(da.drop_last() =~= decimal_digits(a / 10));
            assert(db.drop_last() =~= decimal_digits(b / 10));
            assert(da.last() == db.last());
            lemma_decimal_digits_injective(a / 10, b / 10);
            assert(a % 10 == b % 10);
        }
    }
}

} // verus!
