//! Byte form of a requester record.
//!
//! A record is laid out as its fields in order: the 32 bytes of the owner,
//! then the balance as an optional value, one tag byte (0 for none, 1 for
//! some) followed, when present, by the amount as 16 little-endian bytes.

use vstd::prelude::*;
use crate::types::{Balance, Requesters};

verus! {

/// The `n` low-order bytes of `x`, least significant first.
pub open spec fn le_bytes(x: nat, n: nat) -> Seq<u8>
    decreases n,
{
    if n == 0 {
        Seq::empty()
    } else {
        seq![(x % 256) as u8] + le_bytes(x / 256, (n - 1) as nat)
    }
}

/// Byte form of an optional balance.
pub open spec fn balance_bytes(balance: Option<Balance>) -> Seq<u8> {
    match balance {
        None => seq![0u8],
        Some(amount) => seq![1u8] + le_bytes(amount as nat, 16),
    }
}

/// Byte form of a requester record.
pub open spec fn requesters_bytes(record: Requesters) -> Seq<u8> {
    record.owner@ + balance_bytes(record.balance)
}

/// Appends the 16 little-endian bytes of `amount` to `out`.
fn push_le_bytes(out: &mut Vec<u8>, amount: u128)
    ensures
        final(out)@ == old(out)@ + le_bytes(amount as nat, 16),
{
    let mut rest: u128 = amount;
    let mut i: usize = 0;
    while i < 16
        invariant
            i <= 16,
            out@ + le_bytes(rest as nat, (16 - i) as nat) == old(out)@ + le_bytes(amount as nat, 16),
        decreases 16 - i,
    {
        let ghost before = out@;
        let byte: u8 = (rest % 256) as u8;
        out.push(byte);
        proof {
            let tail = le_bytes((rest / 256) as nat, (16 - i - 1) as nat);
            assert(le_bytes(rest as nat, (16 - i) as nat) == seq![byte] + tail);
            assert(out@ + tail =~= before + (seq![byte] + tail));
        }
        rest = rest / 256;
        i += 1;
    }
    assert(out@ + le_bytes(rest as nat, 0) =~= out@);
}

impl Requesters {
    /// Serialises the record.
    pub fn encode(&self) -> (bytes: Vec<u8>)
        ensures
            bytes@ == requesters_bytes(*self),
    {
        let mut bytes: Vec<u8> = Vec::new();
        let mut i: usize = 0;
        while i < 32
            invariant
                i <= 32,
                bytes@ == self.owner@.take(i as int),
            decreases 32 - i,
        {
            bytes.push(self.owner[i]);
            assert(self.owner@.take(i + 1) =~= self.owner@.take(i as int).push(self.owner@[i as int]));
            i += 1;
        }
        assert(self.owner@.take(32) =~= self.owner@);
        match self.balance {
            None => {
                bytes.push(0u8);
                assert(bytes@ =~= self.owner@ + seq![0u8]);
            },
            Some(amount) => {
                bytes.push(1u8);
                push_le_bytes(&mut bytes, amount);
                assert(bytes@ =~= self.owner@ + (seq![1u8] + le_bytes(amount as nat, 16)));
            },
        }
        bytes
    }
}

} // verus!
