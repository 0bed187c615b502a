//! The hash-linked chain: genesis construction, append-only mining of new
//! blocks, and tamper-detecting validation.

use vstd::prelude::*;

use crate::LedgerError;
use crate::block::Block;
use crate::block::content_hash_of;
use crate::clock::now;
use crate::hashing::HASH_HEX_LEN;
use crate::hashing::has_leading_zeros;
use crate::hashing::push_bytes;
use crate::transaction::Transaction;

verus! {

/// The default proof-of-work difficulty a chain is built with.
pub const DEFAULT_DIFFICULTY: usize = 4;

/// The genesis block's sentinel previous hash: the single ASCII byte "0".
pub open spec fn genesis_prev_hash() -> Seq<u8> {
    seq![48u8]
}

/// An ordered, append-only sequence of blocks, always starting with the
/// genesis block, together with the difficulty every appended block is mined
/// at.
#[derive(Debug)]
pub struct Blockchain {
    /// The blocks, in index order; public so a caller (or a test) can tamper
    /// with a block and watch validation fail.
    pub chain: Vec<Block>,
    /// The proof-of-work difficulty, in leading '0' hex characters.
    pub difficulty: usize,
}

impl Blockchain {
    /// Every state the chain's own operations can reach: non-empty, block
    /// indexes equal their positions, the genesis sentinel in place, every
    /// stored hash re-derivable from its block's fields, every link intact,
    /// every appended block meeting the proof-of-work target, and a
    /// satisfiable difficulty.
    pub open spec fn wf(self) -> bool {
        &&& self.chain@.len() >= 1
        &&& self.difficulty <= HASH_HEX_LEN
        &&& self.chain@[0].previous_hash@ == genesis_prev_hash()
        &&& forall|i: int| 0 <= i < self.chain@.len() ==> (#[trigger] self.chain@[i]).index == i
        &&& forall|i: int| 0 <= i < self.chain@.len() ==> (#[trigger] self.chain@[i]).hash@
            == content_hash_of(self.chain@[i])
        &&& forall|i: int| 1 <= i < self.chain@.len() ==> (#[trigger] self.chain@[i]).previous_hash@
            == self.chain@[i - 1].hash@
        &&& forall|i: int| 1 <= i < self.chain@.len() ==> has_leading_zeros(
            (#[trigger] self.chain@[i]).hash@,
            self.difficulty as int,
        )
    }

    /// What the validator checks: every non-genesis block's stored hash
    /// equals the hash recomputed from its fields, and every non-genesis
    /// block's previous hash equals its predecessor's stored hash. A chain
    /// of fewer than two blocks is trivially valid.
    pub open spec fn chain_valid(self) -> bool {
        forall|i: int| 1 <= i < self.chain@.len() ==> {
            &&& (#[trigger] self.chain@[i]).hash@ == content_hash_of(self.chain@[i])
            &&& self.chain@[i].previous_hash@ == self.chain@[i - 1].hash@
        }
    }

    /// Build a chain holding exactly the genesis block, mined at no target,
    /// with the default difficulty for later blocks.
    pub fn new() -> (r: Result<Blockchain, LedgerError>)
        ensures
            match r {
                Ok(c) => {
                    &&& c.wf()
                    &&& c.chain@.len() == 1
                    &&& c.difficulty == DEFAULT_DIFFICULTY
                    &&& c.chain@[0].transactions@ == Seq::<Transaction>::empty()
                    &&& c.chain@[0].nonce == 0
                },
                Err(e) => e == LedgerError::ClockError,
            },
    {
        Self::with_difficulty(DEFAULT_DIFFICULTY)
    }

    /// Build a chain holding exactly the genesis block, with an explicit
    /// difficulty for the blocks appended later. A difficulty beyond the
    /// digest's hex length is rejected up front.
    pub fn with_difficulty(difficulty: usize) -> (r: Result<Blockchain, LedgerError>)
        ensures
            difficulty > HASH_HEX_LEN <==> r == Err::<Blockchain, LedgerError>(
                LedgerError::InvalidDifficulty,
            ),
            match r {
                Ok(c) => {
                    &&& c.wf()
                    &&& c.chain@.len() == 1
                    &&& c.difficulty == difficulty
                    &&& c.chain@[0].index == 0
                    &&& c.chain@[0].previous_hash@ == genesis_prev_hash()
                    &&& c.chain@[0].transactions@ == Seq::<Transaction>::empty()
                    &&& c.chain@[0].nonce == 0
                    &&& c.chain@[0].hash@ == content_hash_of(c.chain@[0])
                },
                Err(e) => e == LedgerError::InvalidDifficulty || e == LedgerError::ClockError,
            },
    {
        if difficulty > HASH_HEX_LEN {
            return Err(LedgerError::InvalidDifficulty);
        }
        let timestamp = match now() {
            Ok(t) => t,
            Err(e) => {
                return Err(e);
            },
        };
        let mut sentinel: Vec<u8> = Vec::new();
        sentinel.push(48u8);
        proof {
            assert(sentinel@ =~= genesis_prev_hash());
        }
        let genesis = Block::new(0, timestamp, sentinel, Vec::new());
        let mut chain: Vec<Block> = Vec::new();
        chain.push(genesis);
        Ok(Blockchain { chain, difficulty })
    }

    /// Append one mined block carrying `transactions`: its index is the
    /// current length, its previous hash the last block's hash, its
    /// timestamp the current time, and its hash meets the chain's
    /// difficulty. The chain's existing blocks are never touched.
    pub fn add_block(&mut self, transactions: Vec<Transaction>) -> (r: Result<(), LedgerError>)
        requires
            old(self).wf(),
        ensures
            match r {
                Ok(()) => {
                    &&& final(self).wf()
                    &&& final(self).difficulty == old(self).difficulty
                    &&& final(self).chain@.len() == old(self).chain@.len() + 1
                    &&& final(self).chain@.subrange(0, old(self).chain@.len() as int) == old(
                        self,
                    ).chain@
                    &&& final(self).chain@.last().index == old(self).chain@.len()
                    &&& final(self).chain@.last().transactions@ == transactions@
                    &&& final(self).chain@.last().previous_hash@ == old(self).chain@.last().hash@
                    &&& final(self).chain@.last().hash@ == content_hash_of(
                        final(self).chain@.last(),
                    )
                    &&& has_leading_zeros(
                        final(self).chain@.last().hash@,
                        old(self).difficulty as int,
                    )
                },
                Err(e) => {
                    &&& *final(self) == *old(self)
                    &&& (e == LedgerError::ClockError || e == LedgerError::NonceExhausted)
                },
            },
    {
        let timestamp = match now() {
            Ok(t) => t,
            Err(e) => {
                return Err(e);
            },
        };
        let mut prev: Vec<u8> = Vec::new();
        push_bytes(&mut prev, &self.chain[self.chain.len() - 1].hash);
        let mut block = Block::new(self.chain.len(), timestamp, prev, transactions);
        match block.mine(self.difficulty) {
            Ok(()) => {
                self.chain.push(block);
                proof {
                    assert(final(self).chain@.subrange(0, old(self).chain@.len() as int) =~= old(
                        self,
                    ).chain@);
                }
                Ok(())
            },
            Err(e) => Err(e),
        }
    }

    /// Re-derive every non-genesis block's hash from its fields and compare
    /// it to the stored one, and compare every link to the predecessor's
    /// stored hash; true exactly when nothing is out of place. A query: it
    /// never fails and never repairs.
    pub fn validate_chain(&self) -> (r: bool)
        ensures
            r == self.chain_valid(),
    {
        if self.chain.len() < 2 {
            return true;
        }
        let mut i: usize = 1;
        while i < self.chain.len()
            invariant
                1 <= i <= self.chain@.len(),
                forall|j: int| 1 <= j < i ==> {
                    &&& (#[trigger] self.chain@[j]).hash@ == content_hash_of(self.chain@[j])
                    &&& self.chain@[j].previous_hash@ == self.chain@[j - 1].hash@
                },
            decreases self.chain@.len() - i,
        {
            let recomputed = self.chain[i].calculate_hash();
            if !eq_bytes(&self.chain[i].hash, &recomputed) {
                return false;
            }
            if !eq_bytes(&self.chain[i].previous_hash, &self.chain[i - 1].hash) {
                return false;
            }
            i = i + 1;
        }
        true
    }
}

/// Compare two byte vectors for equality of contents.
fn eq_bytes(a: &Vec<u8>, b: &Vec<u8>) -> (r: bool)
    ensures
        r == (a@ == b@),
{
    if a.len() != b.len() {
        return false;
    }
    let mut i: usize = 0;
    while i < a.len()
        invariant
            0 <= i <= a@.len(),
            a@.len() == b@.len(),
            forall|j: int| 0 <= j < i ==> a@[j] == b@[j],
        decreases a@.len() - i,
    {
        if a[i] != b[i] {
            return false;
        }
        i = i + 1;
    }
    proof {
        assert(a@ =~= b@);
    }
    true
}

/// A well-formed chain validates: every state the chain's own operations can
/// reach passes `validate_chain`.
pub proof fn lemma_wf_implies_valid(c: Blockchain)
    requires
        c.wf(),
    ensures
        c.chain_valid(),
{
}

/// Link-break: a chain in which any non-genesis block's previous hash
/// differs from its predecessor's stored hash never validates.
pub proof fn lemma_link_break_invalidates(c: Blockchain, i: int)
    requires
        1 <= i < c.chain@.len(),
        c.chain@[i].previous_hash@ != c.chain@[i - 1].hash@,
    ensures
        !c.chain_valid(),
{
}

/// Tampering: take a well-formed chain and a copy of it in which one
/// non-genesis block's fields were mutated without recomputing its hash.
/// Whenever the mutation moved the block's content hash at all — the digest
/// has no known collisions, but they cannot be ruled out here — the copy
/// never validates.
pub proof fn lemma_tamper_invalidates(c: Blockchain, t: Blockchain, i: int)
    requires
        c.wf(),
        1 <= i < c.chain@.len(),
        t.chain@.len() == c.chain@.len(),
        t.chain@[i].hash@ == c.chain@[i].hash@,
        content_hash_of(t.chain@[i]) != content_hash_of(c.chain@[i]),
    ensures
        !t.chain_valid(),
{
    lemma_stale_hash_invalidates(t, i);
}

/// Stale hash: a chain in which any non-genesis block's stored hash differs
/// from the hash recomputed over its fields never validates. Tampering with
/// a mined block's transactions, timestamp or nonce leaves its stored hash
/// stale in exactly this way, unless the tampered content collides with the
/// original under the digest.
pub proof fn lemma_stale_hash_invalidates(c: Blockchain, i: int)
    requires
        1 <= i < c.chain@.len(),
        c.chain@[i].hash@ != content_hash_of(c.chain@[i]),
    ensures
        !c.chain_valid(),
{
}

} // verus!
