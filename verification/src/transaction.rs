//! Transactions and the Merkle commitment over an ordered sequence of them.

use vstd::prelude::*;

use crate::hashing::digest_hex;
use crate::hashing::digest_hex_of;
use crate::hashing::push_bytes;
use crate::hashing::push_u64_be;
use crate::hashing::u64_be_bytes;

verus! {

/// A transfer between two identifiers. Immutable once created; the amount is
/// a fixed-point count of the smallest currency unit, so that equal
/// transactions serialize identically on every platform.
#[derive(Debug, Clone)]
pub struct Transaction {
    /// The paying identifier, as bytes.
    pub sender: Vec<u8>,
    /// The receiving identifier, as bytes.
    pub receiver: Vec<u8>,
    /// The transferred amount, in the smallest currency unit.
    pub amount: u64,
}

/// The canonical serialization of a transaction: each identifier is
/// length-prefixed (eight big-endian bytes), the amount follows as eight
/// big-endian bytes. Fixed field order, fixed numeric encoding.
pub open spec fn tx_bytes(t: Transaction) -> Seq<u8> {
    u64_be_bytes(t.sender@.len() as u64) + t.sender@ + u64_be_bytes(t.receiver@.len() as u64)
        + t.receiver@ + u64_be_bytes(t.amount)
}

/// The Merkle leaf hash of a transaction: the digest of its canonical
/// serialization.
pub open spec fn leaf_hash_of(t: Transaction) -> Seq<u8> {
    digest_hex_of(tx_bytes(t))
}

/// One combining level of the Merkle fold: adjacent hashes are paired
/// left-to-right and each pair's concatenation is hashed; an unpaired last
/// hash is carried forward unchanged.
pub open spec fn merkle_level(hs: Seq<Seq<u8>>) -> Seq<Seq<u8>> {
    Seq::new((hs.len() + 1) / 2, |i: int|
        if 2 * i + 1 < hs.len() {
            digest_hex_of(hs[2 * i] + hs[2 * i + 1])
        } else {
            hs[2 * i]
        })
}

/// The Merkle root of a sequence of leaf hashes: combining levels are folded
/// until one hash remains. With no leaves the root is the sentinel digest of
/// the empty byte sequence.
pub open spec fn merkle_root_of(hs: Seq<Seq<u8>>) -> Seq<u8>
    decreases hs.len(),
{
    if hs.len() == 0 {
        digest_hex_of(Seq::empty())
    } else if hs.len() == 1 {
        hs[0]
    } else {
        merkle_root_of(merkle_level(hs))
    }
}

/// The Merkle root over an ordered sequence of transactions.
pub open spec fn tx_merkle_root(ts: Seq<Transaction>) -> Seq<u8> {
    merkle_root_of(ts.map_values(|t: Transaction| leaf_hash_of(t)))
}

impl Transaction {
    /// Build a transaction from its three fields.
    pub fn new(sender: Vec<u8>, receiver: Vec<u8>, amount: u64) -> (r: Transaction)
        ensures
            r.sender@ == sender@,
            r.receiver@ == receiver@,
            r.amount == amount,
    {
        Transaction { sender, receiver, amount }
    }

    /// Serialize the transaction canonically for hashing.
    pub fn encode(&self) -> (r: Vec<u8>)
        ensures
            r@ == tx_bytes(*self),
    {
        let mut out: Vec<u8> = Vec::new();
        push_u64_be(&mut out, self.sender.len() as u64);
        push_bytes(&mut out, &self.sender);
        push_u64_be(&mut out, self.receiver.len() as u64);
        push_bytes(&mut out, &self.receiver);
        push_u64_be(&mut out, self.amount);
        proof {
            assert(out@ =~= tx_bytes(*self));
        }
        out
    }

    /// The transaction's Merkle leaf hash.
    pub fn leaf_hash(&self) -> (r: Vec<u8>)
        ensures
            r@ == leaf_hash_of(*self),
    {
        let bytes = self.encode();
        digest_hex(bytes.as_slice())
    }

    /// Fold the transactions into their single Merkle commitment hash.
    pub fn create_merkle_root(transactions: &Vec<Transaction>) -> (r: Vec<u8>)
        ensures
            r@ == tx_merkle_root(transactions@),
    {
        let ghost leaves = transactions@.map_values(|t: Transaction| leaf_hash_of(t));
        let mut hashes: Vec<Vec<u8>> = Vec::new();
        let mut i: usize = 0;
        while i < transactions.len()
            invariant
                0 <= i <= transactions@.len(),
                hashes@.len() == i,
                leaves == transactions@.map_values(|t: Transaction| leaf_hash_of(t)),
                forall|j: int| 0 <= j < i ==> hashes@[j]@ == leaves[j],
            decreases transactions@.len() - i,
        {
            let h = transactions[i].leaf_hash();
            hashes.push(h);
            i = i + 1;
        }
        proof {
            assert(hashes@.map_values(|v: Vec<u8>| v@) =~= leaves);
        }
        Self::fold_levels(hashes)
    }

    /// Fold a vector of hashes level by level until one remains.
    fn fold_levels(hashes: Vec<Vec<u8>>) -> (r: Vec<u8>)
        ensures
            r@ == merkle_root_of(hashes@.map_values(|v: Vec<u8>| v@)),
    {
        let ghost orig = hashes@.map_values(|v: Vec<u8>| v@);
        let mut hashes = hashes;
        if hashes.len() == 0 {
            let empty: Vec<u8> = Vec::new();
            return digest_hex(empty.as_slice());
        }
        while hashes.len() > 1
            invariant
                hashes@.len() >= 1,
                merkle_root_of(hashes@.map_values(|v: Vec<u8>| v@)) == merkle_root_of(orig),
            decreases hashes@.len(),
        {
            let ghost cur = hashes@.map_values(|v: Vec<u8>| v@);
            let mut temp: Vec<Vec<u8>> = Vec::new();
            let mut k: usize = 0;
            while k < hashes.len() / 2
                invariant
                    hashes@.len() >= 2,
                    cur == hashes@.map_values(|v: Vec<u8>| v@),
                    0 <= k <= hashes@.len() / 2,
                    temp@.len() == k,
                    forall|j: int| 0 <= j < k ==> temp@[j]@ == merkle_level(cur)[j],
                decreases hashes@.len() / 2 - k,
            {
                let mut combined: Vec<u8> = Vec::new();
                push_bytes(&mut combined, &hashes[2 * k]);
                push_bytes(&mut combined, &hashes[2 * k + 1]);
                let h = digest_hex(combined.as_slice());
                temp.push(h);
                k = k + 1;
            }
            if hashes.len() % 2 == 1 {
                let mut last: Vec<u8> = Vec::new();
                push_bytes(&mut last, &hashes[hashes.len() - 1]);
                temp.push(last);
            }
            proof {
                assert(temp@.map_values(|v: Vec<u8>| v@) =~= merkle_level(cur));
            }
            hashes = temp;
        }
        proof {
            let views = hashes@.map_values(|v: Vec<u8>| v@);
            assert(merkle_root_of(views) == views[0]);
        }
        let mut root: Vec<u8> = Vec::new();
        push_bytes(&mut root, &hashes[0]);
        root
    }
}

/// The Merkle root is deterministic: identical transaction sequences always
/// give identical roots.
pub proof fn lemma_merkle_root_deterministic(t1: Seq<Transaction>, t2: Seq<Transaction>)
    requires
        t1 == t2,
    ensures
        tx_merkle_root(t1) == tx_merkle_root(t2),
{
}

/// The carry-forward rule for exactly three leaves: the first two pair and
/// the third is carried up unpaired, so the root is the hash of
/// (hash(leaf1 + leaf2) + leaf3).
pub proof fn lemma_merkle_root_three(hs: Seq<Seq<u8>>)
    requires
        hs.len() == 3,
    ensures
        merkle_root_of(hs) == digest_hex_of(digest_hex_of(hs[0] + hs[1]) + hs[2]),
{
    let l1 = merkle_level(hs);
    assert(l1.len() == 2);
    assert(l1[0] == digest_hex_of(hs[0] + hs[1]));
    assert(l1[1] == hs[2]);
    let l2 = merkle_level(l1);
    assert(l2.len() == 1);
    assert(l2[0] == digest_hex_of(l1[0] + l1[1]));
    assert(merkle_root_of(hs) == merkle_root_of(l1));
    assert(merkle_root_of(l1) == merkle_root_of(l2));
    assert(merkle_root_of(l2) == l2[0]);
}

} // verus!
