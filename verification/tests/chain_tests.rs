use crypto::digest::Digest;
use hashchain::chain::{check_chain, is_block_valid, is_chain_valid, Block, Blockchain, ChainCheck, Error};
use hashchain::fingerprint::{calc_hash, u32_decimal};

fn genesis() -> Block {
    Block {
        index: 0,
        timestamp: 0,
        prev_hash: String::new(),
        payload: "Genesis block baby!".to_string(),
        hash: String::new(),
    }
}

fn chain_of_len(payloads: &[&str]) -> Blockchain {
    let mut chain = Blockchain::new(genesis());
    for p in payloads {
        chain.add_block(p).unwrap();
    }
    chain
}

#[test]
fn decimal_rendering() {
    assert_eq!(u32_decimal(0), "0");
    assert_eq!(u32_decimal(7), "7");
    assert_eq!(u32_decimal(10), "10");
    assert_eq!(u32_decimal(305), "305");
    assert_eq!(u32_decimal(u32::MAX), "4294967295");
}

#[test]
fn fingerprint_deterministic() {
    let a = calc_hash(&5, &50, "ab", "xy");
    let b = calc_hash(&5, &50, "ab", "xy");
    assert_eq!(a, b);
}

#[test]
fn fingerprint_known_value() {
    // The record text is "0" ++ "0" ++ "" ++ "" == "00".
    let h = calc_hash(&0, &0, "", "");
    assert_eq!(h, "f1534392279bddbf9d43dde8701cb5be14b82f76ec6607bf8d6ad557f60f304e");
    assert_eq!(h.len(), 64);
}

#[test]
fn fingerprint_matches_direct_digest() {
    let h = calc_hash(&1, &10, "", "Second block baby!");
    let mut hasher = crypto::sha2::Sha256::new();
    hasher.input_str("110Second block baby!");
    assert_eq!(h, hasher.result_str());
}

#[test]
fn tamper_payload_changes_fingerprint() {
    let payload = "hello world";
    let base = calc_hash(&3, &30, "prev", payload);
    for i in 0..payload.len() {
        let mut flipped: Vec<char> = payload.chars().collect();
        flipped[i] = if flipped[i] == 'X' { 'Y' } else { 'X' };
        let flipped: String = flipped.into_iter().collect();
        assert_ne!(base, calc_hash(&3, &30, "prev", &flipped));
    }
}

#[test]
fn tamper_fields_change_fingerprint() {
    let base = calc_hash(&3, &30, "prev", "hello");
    assert_ne!(base, calc_hash(&4, &30, "prev", "hello"));
    assert_ne!(base, calc_hash(&3, &31, "prev", "hello"));
    assert_ne!(base, calc_hash(&3, &30, "qrev", "hello"));
}

#[test]
fn append_grows_by_one_and_links() {
    let mut chain = Blockchain::new(genesis());
    assert_eq!(chain.blocks.len(), 1);
    let old_last = genesis();
    assert!(chain.add_block("a").is_ok());
    assert_eq!(chain.blocks.len(), 2);
    assert!(is_block_valid(&old_last, &chain.blocks[1]));
}

#[test]
fn append_on_empty_chain_is_invalid_block() {
    let mut chain = Blockchain { blocks: Vec::new() };
    assert_eq!(chain.add_block("a"), Err(Error::InvalidBlock));
    assert_eq!(chain.blocks.len(), 0);
}

#[test]
fn replace_accepts_longer_chain() {
    let mut a = chain_of_len(&["a"]);
    let b = chain_of_len(&["x", "y"]);
    assert_eq!(a.replace(b), Ok(()));
    assert_eq!(a.blocks.len(), 3);
    assert_eq!(a.blocks[1].payload, "x");
    assert_eq!(a.blocks[2].payload, "y");
}

#[test]
fn replace_rejects_equal_length() {
    let mut a = chain_of_len(&["a"]);
    let b = chain_of_len(&["x"]);
    assert_eq!(a.replace(b), Err(Error::InvalidChain));
    assert_eq!(a.blocks.len(), 2);
    assert_eq!(a.blocks[1].payload, "a");
}

#[test]
fn replace_rejects_shorter_chain() {
    let mut a = chain_of_len(&["a", "b"]);
    let b = chain_of_len(&["x"]);
    assert_eq!(a.replace(b), Err(Error::InvalidChain));
    assert_eq!(a.blocks.len(), 3);
}

#[test]
fn replace_rejects_origin_mismatch() {
    let mut a = chain_of_len(&["a"]);
    let mut other_origin = genesis();
    other_origin.payload = "Some other origin".to_string();
    let mut c = Blockchain::new(other_origin);
    c.add_block("x").unwrap();
    c.add_block("y").unwrap();
    c.add_block("z").unwrap();
    assert_eq!(check_chain(&a, &c), ChainCheck::OriginMismatch);
    assert!(!is_chain_valid(&a, &c));
    assert_eq!(a.replace(c), Err(Error::InvalidChain));
    assert_eq!(a.blocks.len(), 2);
}

#[test]
fn replace_rejects_broken_link() {
    let a = chain_of_len(&["a"]);
    let mut d = chain_of_len(&["x", "y", "z"]);
    d.blocks[2].prev_hash = "tampered".to_string();
    assert_eq!(check_chain(&a, &d), ChainCheck::InvalidBlockAt(2));
    assert!(!is_chain_valid(&a, &d));
    let mut a = a;
    assert_eq!(a.replace(d), Err(Error::InvalidChain));
    assert_eq!(a.blocks.len(), 2);
    assert_eq!(a.blocks[1].payload, "a");
}

#[test]
fn check_chain_reports_missing_blocks() {
    let a = chain_of_len(&[]);
    let empty = Blockchain { blocks: Vec::new() };
    assert_eq!(check_chain(&a, &empty), ChainCheck::MissingOrigin);
    assert_eq!(check_chain(&empty, &a), ChainCheck::MissingGenesis);
    assert!(!is_chain_valid(&a, &empty));
}

#[test]
fn end_to_end_scenario() {
    // The genesis fingerprint is left empty and untrusted at construction:
    // the next block links to the stored empty string.
    let mut blockchain = Blockchain::new(genesis());
    let result = blockchain.add_block("Second block baby!");
    assert!(result.is_ok());
    assert_eq!(blockchain.blocks.len(), 2);
    assert_eq!(blockchain.blocks[1].index, 1);
    assert_eq!(blockchain.blocks[1].timestamp, 10);
    assert_eq!(blockchain.blocks[1].prev_hash, "");
    assert_eq!(
        blockchain.blocks[1].hash,
        "4ab6cfed60b2f144c707ee5c7aadcabe29d4225b51a7115a7ac9e367acfa7f8b"
    );
}

#[test]
fn valid_successor_checks_each_rule() {
    let mut chain = chain_of_len(&["a"]);
    let prev = Block {
        index: chain.blocks[0].index,
        timestamp: chain.blocks[0].timestamp,
        hash: chain.blocks[0].hash.clone(),
        prev_hash: chain.blocks[0].prev_hash.clone(),
        payload: chain.blocks[0].payload.clone(),
    };
    assert!(is_block_valid(&prev, &chain.blocks[1]));
    // Wrong position.
    chain.blocks[1].index = 2;
    assert!(!is_block_valid(&prev, &chain.blocks[1]));
    chain.blocks[1].index = 1;
    // Broken link to the predecessor.
    chain.blocks[1].prev_hash = "x".to_string();
    assert!(!is_block_valid(&prev, &chain.blocks[1]));
    chain.blocks[1].prev_hash = prev.hash.clone();
    // Stored fingerprint not the one the fields call for.
    chain.blocks[1].hash = "x".to_string();
    assert!(!is_block_valid(&prev, &chain.blocks[1]));
}
