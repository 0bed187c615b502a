//! Blocks: a single ledger entry, its content hash, and proof-of-work mining.

use vstd::prelude::*;

use crate::LedgerError;
use crate::hashing::HASH_HEX_LEN;
use crate::hashing::check_leading_zeros;
use crate::hashing::digest_hex;
use crate::hashing::digest_hex_of;
use crate::hashing::has_leading_zeros;
use crate::hashing::push_bytes;
use crate::hashing::push_u64_be;
use crate::hashing::u64_be_bytes;
use crate::transaction::Transaction;
use crate::transaction::tx_merkle_root;

verus! {

/// A single ledger entry. After mining, `hash` is the content hash of the
/// block's own fields and meets the proof-of-work target; the fields are
/// public so a caller (or a test) can tamper with them and watch validation
/// fail.
#[derive(Debug, Clone)]
pub struct Block {
    /// Position in the chain; the genesis block has index 0.
    pub index: usize,
    /// Seconds since the Unix epoch at creation time.
    pub timestamp: u64,
    /// The ordered transactions this block commits to.
    pub transactions: Vec<Transaction>,
    /// The predecessor's content hash; the single byte "0" for genesis.
    pub previous_hash: Vec<u8>,
    /// This block's own content hash, recomputed during mining.
    pub hash: Vec<u8>,
    /// The proof-of-work counter.
    pub nonce: u64,
}

/// The canonical bytes a block is hashed over: index, timestamp, the
/// length-prefixed previous hash, the Merkle root of the transactions, and
/// the nonce. The stored `hash` itself is deliberately not part of it.
pub open spec fn block_bytes(b: Block) -> Seq<u8> {
    u64_be_bytes(b.index as u64) + u64_be_bytes(b.timestamp) + u64_be_bytes(
        b.previous_hash@.len() as u64,
    ) + b.previous_hash@ + tx_merkle_root(b.transactions@) + u64_be_bytes(b.nonce)
}

/// A block's content hash, re-derivable from its fields alone.
pub open spec fn content_hash_of(b: Block) -> Seq<u8> {
    digest_hex_of(block_bytes(b))
}

/// The content hash `b` would have with its nonce replaced by `n`.
pub open spec fn hash_at_nonce(b: Block, n: u64) -> Seq<u8> {
    content_hash_of(Block { nonce: n, ..b })
}

impl Block {
    /// Build a block with nonce 0 and its initial content hash already
    /// computed.
    pub fn new(
        index: usize,
        timestamp: u64,
        previous_hash: Vec<u8>,
        transactions: Vec<Transaction>,
    ) -> (r: Block)
        ensures
            r.index == index,
            r.timestamp == timestamp,
            r.previous_hash@ == previous_hash@,
            r.transactions@ == transactions@,
            r.nonce == 0,
            r.hash@ == content_hash_of(r),
    {
        let mut block = Block {
            index,
            timestamp,
            transactions,
            previous_hash,
            hash: Vec::new(),
            nonce: 0,
        };
        let h = block.calculate_hash();
        block.hash = h;
        block
    }

    /// Recompute the content hash from the block's current fields. Pure: no
    /// field is touched, and equal fields always give the same hash.
    pub fn calculate_hash(&self) -> (r: Vec<u8>)
        ensures
            r@ == content_hash_of(*self),
            r@.len() == HASH_HEX_LEN as int,
    {
        let mut data: Vec<u8> = Vec::new();
        push_u64_be(&mut data, self.index as u64);
        push_u64_be(&mut data, self.timestamp);
        push_u64_be(&mut data, self.previous_hash.len() as u64);
        push_bytes(&mut data, &self.previous_hash);
        let root = Transaction::create_merkle_root(&self.transactions);
        push_bytes(&mut data, &root);
        push_u64_be(&mut data, self.nonce);
        proof {
            assert(data@ =~= block_bytes(*self));
        }
        digest_hex(data.as_slice())
    }

    /// Search nonces upward from the current one until the content hash has
    /// `difficulty` leading '0' hex characters, recomputing and storing the
    /// hash at every step. A difficulty beyond the digest's hex length can
    /// never be met and is rejected up front; exhausting the whole 64-bit
    /// nonce space is reported rather than looped past.
    pub fn mine(&mut self, difficulty: usize) -> (r: Result<(), LedgerError>)
        ensures
            difficulty > HASH_HEX_LEN <==> r == Err::<(), LedgerError>(
                LedgerError::InvalidDifficulty,
            ),
            r == Err::<(), LedgerError>(LedgerError::InvalidDifficulty) ==> *final(self) == *old(
                self,
            ),
            r is Err ==> r == Err::<(), LedgerError>(LedgerError::InvalidDifficulty) || r
                == Err::<(), LedgerError>(LedgerError::NonceExhausted),
            r is Ok ==> {
                &&& final(self).index == old(self).index
                &&& final(self).timestamp == old(self).timestamp
                &&& final(self).transactions@ == old(self).transactions@
                &&& final(self).previous_hash@ == old(self).previous_hash@
                &&& final(self).nonce >= old(self).nonce
                &&& final(self).hash@ == content_hash_of(*final(self))
                &&& has_leading_zeros(final(self).hash@, difficulty as int)
            },
            r == Err::<(), LedgerError>(LedgerError::NonceExhausted) ==> forall|n: u64|
                old(self).nonce <= n ==> !has_leading_zeros(
                    #[trigger] hash_at_nonce(*old(self), n),
                    difficulty as int,
                ),
    {
        if difficulty > HASH_HEX_LEN {
            return Err(LedgerError::InvalidDifficulty);
        }
        loop
            invariant
                difficulty <= HASH_HEX_LEN,
                self.index == old(self).index,
                self.timestamp == old(self).timestamp,
                self.transactions@ == old(self).transactions@,
                self.previous_hash@ == old(self).previous_hash@,
                self.nonce >= old(self).nonce,
                forall|n: u64| old(self).nonce <= n < self.nonce ==> !has_leading_zeros(
                    #[trigger] hash_at_nonce(*old(self), n),
                    difficulty as int,
                ),
            decreases u64::MAX - self.nonce,
        {
            let h = self.calculate_hash();
            self.hash = h;
            proof {
                assert(block_bytes(*self) =~= block_bytes(
                    Block { nonce: self.nonce, ..*old(self) },
                ));
                assert(content_hash_of(*self) == hash_at_nonce(*old(self), self.nonce));
            }
            if check_leading_zeros(&self.hash, difficulty) {
                return Ok(());
            }
            if self.nonce == u64::MAX {
                return Err(LedgerError::NonceExhausted);
            }
            self.nonce = self.nonce + 1;
        }
    }
}

} // verus!
