use vstd::prelude::*;

use crate::account_map::AccountMap;
use crate::types::{AccountId, BlockNumber, Nonce};

verus! {

/// One more than `n`, staying at `u32::MAX` once there: neither the height
/// nor a nonce wraps round to a value it already had.
pub open spec fn saturating_inc(n: u32) -> u32 {
    if n < u32::MAX {
        (n + 1) as u32
    } else {
        n
    }
}

/// The nonce that `nonces` gives `who`: zero where it has no entry.
pub open spec fn nonce_in(nonces: Map<Seq<char>, u32>, who: Seq<char>) -> u32 {
    if nonces.contains_key(who) {
        nonces[who]
    } else {
        0
    }
}

/// The chain clock and the nonce of each account.
#[derive(Debug)]
pub struct Pallet {
    block_number: BlockNumber,
    nonce: AccountMap<Nonce>,
}

impl Pallet {
    /// The current height of the chain.
    pub closed spec fn height(&self) -> u32 {
        self.block_number
    }

    /// The nonce of each account that has one.
    pub closed spec fn nonces(&self) -> Map<Seq<char>, u32> {
        self.nonce@
    }

    /// The nonce of `who`.
    pub open spec fn nonce_of(&self, who: Seq<char>) -> u32 {
        nonce_in(self.nonces(), who)
    }

    /// The genesis state: height zero, and every nonce zero.
    pub fn new() -> (r: Self)
        ensures
            r.height() == 0,
            r.nonces() == Map::<Seq<char>, u32>::empty(),
            forall|who: Seq<char>| r.nonce_of(who) == 0,
    {
        Pallet { block_number: 0, nonce: AccountMap::new() }
    }

    /// The current height of the chain.
    pub fn block_number(&self) -> (r: BlockNumber)
        ensures
            r == self.height(),
    {
        self.block_number
    }

    /// Advances the height by one; at `u32::MAX` it stays there.
    pub fn inc_block_number(&mut self)
        ensures
            final(self).height() == saturating_inc(old(self).height()),
            final(self).nonces() == old(self).nonces(),
    {
        self.block_number = self.block_number.saturating_add(1);
    }

    /// The nonce of `who`: zero for an account that never made a call.
    pub fn get_nonce(&self, who: &AccountId) -> (r: Nonce)
        ensures
            r == self.nonce_of(who@),
    {
        match self.nonce.get(who) {
            Some(n) => n,
            None => 0,
        }
    }

    /// Counts one more call by `who`; at `u32::MAX` the nonce stays there.
    pub fn inc_nonce(&mut self, who: &AccountId)
        ensures
            final(self).nonces() == old(self).nonces().insert(
                who@,
                saturating_inc(old(self).nonce_of(who@)),
            ),
            final(self).height() == old(self).height(),
    {
        let nonce = self.get_nonce(who);
        self.nonce.insert(who, nonce.saturating_add(1));
    }
}

} // verus!
