use miniledger::hashing::digest_hex;
use miniledger::transaction::Transaction;

fn tx(sender: &str, receiver: &str, amount: u64) -> Transaction {
    Transaction::new(sender.as_bytes().to_vec(), receiver.as_bytes().to_vec(), amount)
}

#[test]
fn merkle_root_is_deterministic() {
    let once = Transaction::create_merkle_root(&vec![
        tx("alice", "bob", 10),
        tx("bob", "carol", 20),
    ]);
    let twice = Transaction::create_merkle_root(&vec![
        tx("alice", "bob", 10),
        tx("bob", "carol", 20),
    ]);
    assert_eq!(once, twice);
}

#[test]
fn reordering_transactions_changes_the_root() {
    let forward = Transaction::create_merkle_root(&vec![
        tx("alice", "bob", 10),
        tx("bob", "carol", 20),
    ]);
    let backward = Transaction::create_merkle_root(&vec![
        tx("bob", "carol", 20),
        tx("alice", "bob", 10),
    ]);
    assert_ne!(forward, backward);
}

#[test]
fn empty_transaction_set_has_the_sentinel_root() {
    assert_eq!(Transaction::create_merkle_root(&Vec::new()), digest_hex(&[]));
}

#[test]
fn single_transaction_root_is_its_leaf_hash() {
    let t = tx("alice", "bob", 10);
    let root = Transaction::create_merkle_root(&vec![tx("alice", "bob", 10)]);
    assert_eq!(root, t.leaf_hash());
}

#[test]
fn three_identical_leaves_pair_then_carry_the_third_forward() {
    let t = tx("alice", "alice", 1);
    let leaf = t.leaf_hash();
    let mut combined = leaf.clone();
    combined.extend_from_slice(&leaf);
    let pair_hash = digest_hex(&combined);
    let mut top = pair_hash.clone();
    top.extend_from_slice(&leaf);
    let expected_root = digest_hex(&top);
    let root = Transaction::create_merkle_root(&vec![
        tx("alice", "alice", 1),
        tx("alice", "alice", 1),
        tx("alice", "alice", 1),
    ]);
    assert_eq!(root, expected_root);
}

#[test]
fn leaf_hash_is_the_digest_of_the_canonical_encoding() {
    let t = tx("alice", "bob", 10);
    assert_eq!(t.leaf_hash(), digest_hex(&t.encode()));
}

#[test]
fn canonical_encoding_is_length_prefixed_and_big_endian() {
    let t = tx("ab", "c", 258);
    let mut expected: Vec<u8> = Vec::new();
    expected.extend_from_slice(&[0, 0, 0, 0, 0, 0, 0, 2]);
    expected.extend_from_slice(b"ab");
    expected.extend_from_slice(&[0, 0, 0, 0, 0, 0, 0, 1]);
    expected.extend_from_slice(b"c");
    expected.extend_from_slice(&[0, 0, 0, 0, 0, 0, 1, 2]);
    assert_eq!(t.encode(), expected);
}
