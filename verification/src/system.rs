//! The system module: the current block height and a per-account counter of
//! submitted extrinsics (the nonce).

use vstd::prelude::*;

use crate::config::{AccountId, BlockNumber, Nonce};
use crate::string_map::StringMap;

verus! {

/// Increment that wraps to zero past the counter's maximum, so that the
/// machine's own counters can never halt it.
pub open spec fn next_value(n: u32) -> u32 {
    if n == u32::MAX {
        0
    } else {
        (n + 1) as u32
    }
}

/// The nonce an account holds in `m`: absence means zero.
pub open spec fn nonce_of(m: Map<Seq<char>, Nonce>, who: Seq<char>) -> Nonce {
    if m.dom().contains(who) {
        m[who]
    } else {
        0
    }
}

/// The nonce map after one `inc_nonce` for `who`: an absent account moves
/// to 1, a present one rises by one.
pub open spec fn spec_inc_nonce(m: Map<Seq<char>, Nonce>, who: Seq<char>) -> Map<Seq<char>, Nonce> {
    m.insert(who, next_value(nonce_of(m, who)))
}

/// The nonce map after `n` consecutive `inc_nonce` calls for `who`.
pub open spec fn spec_inc_nonce_n(m: Map<Seq<char>, Nonce>, who: Seq<char>, n: nat) -> Map<
    Seq<char>,
    Nonce,
>
    decreases n,
{
    if n == 0 {
        m
    } else {
        spec_inc_nonce(spec_inc_nonce_n(m, who, (n - 1) as nat), who)
    }
}

/// Counting law: `n` calls of `inc_nonce` on a fresh account leave its
/// nonce at exactly `n`, for every `n` within the counter's width.
pub proof fn lemma_nonce_counts_calls(m: Map<Seq<char>, Nonce>, who: Seq<char>, n: nat)
    requires
        !m.dom().contains(who),
        n <= u32::MAX,
    ensures
        nonce_of(spec_inc_nonce_n(m, who, n), who) == n,
    decreases n,
{
    if n > 0 {
        lemma_nonce_counts_calls(m, who, (n - 1) as nat);
    }
}

/// Low-level state every chain needs: the height reached so far and how
/// many extrinsics each account has submitted.
#[derive(Debug)]
pub struct Pallet {
    /// The current block number.
    pub block_number: BlockNumber,
    /// A map from an account to its nonce.
    pub nonce: StringMap<Nonce>,
}

impl Pallet {
    /// The nonce storage holds each account at most once.
    pub open spec fn wf(&self) -> bool {
        self.nonce.wf()
    }

    /// A fresh system module: height zero and no nonces.
    pub fn new() -> (r: Self)
        ensures
            r.wf(),
            r.block_number == 0,
            r.nonce@ == Map::<Seq<char>, Nonce>::empty(),
    {
        Pallet { block_number: 0, nonce: StringMap::new() }
    }

    /// The current block number.
    pub fn block_number(&self) -> (n: BlockNumber)
        ensures
            n == self.block_number,
    {
        self.block_number
    }

    /// Advance the height by exactly one; wraps past `u32::MAX`.
    pub fn inc_block_number(&mut self)
        ensures
            final(self).block_number == next_value(old(self).block_number),
            final(self).nonce == old(self).nonce,
    {
        self.block_number = if self.block_number == u32::MAX {
            0
        } else {
            self.block_number + 1
        };
    }

    /// Count one more extrinsic for `who`. Always succeeds.
    pub fn inc_nonce(&mut self, who: AccountId)
        requires
            old(self).wf(),
        ensures
            final(self).wf(),
            final(self).block_number == old(self).block_number,
            final(self).nonce@ == spec_inc_nonce(old(self).nonce@, who@),
    {
        let current: Nonce = match self.nonce.get(&who) {
            Some(n) => *n,
            None => 0,
        };
        let next: Nonce = if current == u32::MAX {
            0
        } else {
            current + 1
        };
        self.nonce.insert(who, next);
    }
}

} // verus!
