use miniledger::LedgerError;
use miniledger::chain::Blockchain;
use miniledger::transaction::Transaction;

fn tx(sender: &str, receiver: &str, amount: u64) -> Transaction {
    Transaction::new(sender.as_bytes().to_vec(), receiver.as_bytes().to_vec(), amount)
}

#[test]
fn test_blockchain_integrity() {
    let mut blockchain = Blockchain::new().unwrap();
    blockchain
        .add_block(vec![tx("First Block", "First Block", 0)])
        .unwrap();
    blockchain
        .add_block(vec![tx("Second Block", "Second Block", 0)])
        .unwrap();
    assert!(blockchain.validate_chain(), "Blockchain integrity compromised!");
}

#[test]
fn fresh_chain_with_appended_blocks_validates() {
    let mut chain = Blockchain::with_difficulty(1).unwrap();
    assert!(chain.validate_chain());
    for i in 0..4u64 {
        chain.add_block(vec![tx("alice", "bob", i)]).unwrap();
        assert!(chain.validate_chain());
    }
    assert_eq!(chain.chain.len(), 5);
    for (i, block) in chain.chain.iter().enumerate() {
        assert_eq!(block.index, i);
    }
}

#[test]
fn genesis_block_has_the_sentinel_previous_hash() {
    let chain = Blockchain::new().unwrap();
    assert_eq!(chain.chain.len(), 1);
    assert_eq!(chain.chain[0].index, 0);
    assert_eq!(chain.chain[0].previous_hash, b"0".to_vec());
    assert_eq!(chain.chain[0].nonce, 0);
}

#[test]
fn empty_block_at_difficulty_two_mines_and_validates() {
    let mut chain = Blockchain::with_difficulty(2).unwrap();
    chain.add_block(Vec::new()).unwrap();
    assert_eq!(chain.chain.len(), 2);
    assert!(chain.chain[1].hash.starts_with(b"00"));
    assert!(chain.validate_chain());
}

#[test]
fn unsatisfiable_difficulty_is_rejected_at_construction() {
    assert!(matches!(
        Blockchain::with_difficulty(65),
        Err(LedgerError::InvalidDifficulty)
    ));
    assert!(Blockchain::with_difficulty(64).is_ok());
}

#[test]
fn tampering_with_transactions_invalidates_the_chain() {
    let mut chain = Blockchain::with_difficulty(1).unwrap();
    chain.add_block(vec![tx("alice", "bob", 10)]).unwrap();
    assert!(chain.validate_chain());
    chain.chain[1].transactions[0].amount = 9_999;
    assert!(!chain.validate_chain());
}

#[test]
fn tampering_with_the_timestamp_invalidates_the_chain() {
    let mut chain = Blockchain::with_difficulty(1).unwrap();
    chain.add_block(vec![tx("alice", "bob", 10)]).unwrap();
    chain.chain[1].timestamp += 1;
    assert!(!chain.validate_chain());
}

#[test]
fn tampering_with_the_nonce_invalidates_the_chain() {
    let mut chain = Blockchain::with_difficulty(1).unwrap();
    chain.add_block(vec![tx("alice", "bob", 10)]).unwrap();
    chain.chain[1].nonce += 1;
    assert!(!chain.validate_chain());
}

#[test]
fn tampering_with_a_middle_block_invalidates_the_chain() {
    let mut chain = Blockchain::with_difficulty(1).unwrap();
    chain.add_block(vec![tx("alice", "bob", 10)]).unwrap();
    chain.add_block(vec![tx("bob", "carol", 20)]).unwrap();
    chain.chain[1].transactions[0].sender = b"mallory".to_vec();
    assert!(!chain.validate_chain());
}

#[test]
fn breaking_a_link_invalidates_the_chain() {
    let mut chain = Blockchain::with_difficulty(1).unwrap();
    chain.add_block(vec![tx("alice", "bob", 10)]).unwrap();
    chain.add_block(vec![tx("bob", "carol", 20)]).unwrap();
    assert!(chain.validate_chain());
    chain.chain[2].previous_hash = b"not the predecessor's hash".to_vec();
    assert!(!chain.validate_chain());
}

#[test]
fn single_block_chain_is_trivially_valid_even_when_tampered() {
    let mut chain = Blockchain::with_difficulty(1).unwrap();
    chain.chain[0].timestamp += 1;
    assert!(chain.validate_chain());
}
