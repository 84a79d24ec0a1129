use resimulate::chain::{BlockId, HistoricalBlock, HistoricalChain, MetadataRecord};
use resimulate::codec::{decode_contract_commitment, encode_contract_commitment};
use resimulate::store::{make_contract_hash_key, InMemoryOverlayClarityBackingStore, StoreError};

fn block_id(value: u64) -> BlockId {
    BlockId { value }
}

fn entry(k: &str, v: &str) -> (String, String) {
    (k.to_string(), v.to_string())
}

/// Three blocks of history: ids 10, 11, 12 at heights 0, 1, 2.
fn three_block_chain() -> HistoricalChain {
    HistoricalChain {
        blocks: vec![
            HistoricalBlock { id: block_id(10), entries: vec![entry("alpha", "a0"), entry("beta", "b0")] },
            HistoricalBlock { id: block_id(11), entries: vec![entry("alpha", "a1")] },
            HistoricalBlock { id: block_id(12), entries: vec![entry("gamma", "g2")] },
        ],
        metadata: vec![MetadataRecord {
            block: block_id(11),
            contract: "SP1.token".to_string(),
            key: "abi".to_string(),
            value: "stored-abi".to_string(),
        }],
    }
}

fn tip_store() -> InMemoryOverlayClarityBackingStore {
    InMemoryOverlayClarityBackingStore::new(three_block_chain(), block_id(12), block_id(99))
        .expect("history is well formed")
}

#[test]
fn write_batch_then_read_returns_written_value() {
    let mut store = tip_store();
    // "alpha" has a historical value; the override must shadow it.
    store.put_all_data(vec![entry("alpha", "overridden"), entry("fresh", "new-value")]);
    assert_eq!(store.get_data("alpha"), Some("overridden".to_string()));
    assert_eq!(store.get_data("fresh"), Some("new-value".to_string()));
}

#[test]
fn later_write_in_one_batch_wins() {
    let mut store = tip_store();
    store.put_all_data(vec![entry("k", "first"), entry("k", "second")]);
    assert_eq!(store.get_data("k"), Some("second".to_string()));
}

#[test]
fn read_through_resolves_history_and_memoizes() {
    let mut store = tip_store();
    // Latest write of "alpha" along the ancestry of block 12 is at height 1.
    assert_eq!(store.get_data("alpha"), Some("a1".to_string()));
    assert_eq!(store.get_data("beta"), Some("b0".to_string()));
    assert_eq!(store.get_data("gamma"), Some("g2".to_string()));
    assert_eq!(store.get_data("absent"), None);
    // A second read answers the same from the memoized override.
    assert_eq!(store.get_data("alpha"), Some("a1".to_string()));
}

#[test]
fn position_roundtrip_restores_overlay() {
    let mut store = tip_store();
    store.put_all_data(vec![entry("alpha", "overridden")]);
    // Step away from the tip: the override becomes invisible.
    let prev = store.set_block_hash(block_id(10)).expect("block 10 exists");
    assert_eq!(prev, block_id(99));
    assert_eq!(store.get_data("alpha"), Some("a0".to_string()));
    // Step back: the override shows again.
    let prev = store.set_block_hash(block_id(99)).expect("tip is always open");
    assert_eq!(prev, block_id(10));
    assert_eq!(store.get_data("alpha"), Some("overridden".to_string()));
}

#[test]
fn writes_away_from_tip_stay_invisible_until_return() {
    let mut store = tip_store();
    store.set_block_hash(block_id(11)).expect("block 11 exists");
    store.put_all_data(vec![entry("alpha", "hidden")]);
    // Positioned at a historical block the store reads through it alone.
    assert_eq!(store.get_data("alpha"), Some("a1".to_string()));
    store.set_block_hash(block_id(99)).expect("tip is always open");
    assert_eq!(store.get_data("alpha"), Some("hidden".to_string()));
}

#[test]
fn set_position_to_unknown_block_is_corruption() {
    let mut store = tip_store();
    assert_eq!(store.set_block_hash(block_id(777)), Err(StoreError::StorageCorruption));
    // The failure leaves the position alone.
    assert_eq!(store.get_data("gamma"), Some("g2".to_string()));
}

#[test]
fn heights_follow_the_parent() {
    let store = tip_store();
    assert_eq!(store.get_open_chain_tip_height(), Ok(3));
    assert_eq!(store.get_current_block_height(), Ok(3));
    assert_eq!(store.get_open_chain_tip(), block_id(99));
    let mut store = store;
    store.set_block_hash(block_id(11)).unwrap();
    assert_eq!(store.get_current_block_height(), Ok(1));
}

#[test]
fn genesis_state_resolves_to_height_zero() {
    let chain = HistoricalChain { blocks: vec![], metadata: vec![] };
    let sentinel = BlockId { value: resimulate::chain::SENTINEL_BLOCK_RAW };
    let genesis = BlockId { value: resimulate::chain::GENESIS_BLOCK_RAW };
    let store = InMemoryOverlayClarityBackingStore::new(chain, sentinel, genesis)
        .expect("the sentinel parent is openable");
    assert_eq!(store.get_open_chain_tip_height(), Ok(0));
    assert_eq!(store.get_current_block_height(), Ok(0));
}

#[test]
fn missing_parent_height_without_genesis_tip_is_corruption() {
    let chain = HistoricalChain { blocks: vec![], metadata: vec![] };
    let sentinel = BlockId { value: resimulate::chain::SENTINEL_BLOCK_RAW };
    let store = InMemoryOverlayClarityBackingStore::new(chain, sentinel, block_id(99))
        .expect("the sentinel parent is openable");
    assert_eq!(store.get_open_chain_tip_height(), Err(StoreError::StorageCorruption));
    assert_eq!(store.get_current_block_height(), Err(StoreError::StorageCorruption));
}

#[test]
fn malformed_history_is_rejected_at_open() {
    let chain = HistoricalChain {
        blocks: vec![
            HistoricalBlock { id: block_id(10), entries: vec![] },
            HistoricalBlock { id: block_id(10), entries: vec![] },
        ],
        metadata: vec![],
    };
    assert_eq!(
        InMemoryOverlayClarityBackingStore::new(chain, block_id(10), block_id(99)).err(),
        Some(StoreError::StorageCorruption)
    );
}

#[test]
fn height_and_id_resolution_roundtrip() {
    let store = tip_store();
    let chain = three_block_chain();
    for h in 0..3u32 {
        let id = store.get_block_at_height(h).expect("height is within the ancestry");
        assert_eq!(id, chain.blocks[h as usize].id);
        assert_eq!(chain.height_of(&id), Some(h));
    }
    assert_eq!(store.get_block_at_height(3), None);
}

#[test]
fn commitment_encoding_roundtrip() {
    let encoded = encode_contract_commitment(300, "abcdef");
    assert_eq!(encoded, "0000012cabcdef".to_string());
    assert_eq!(decode_contract_commitment(&encoded), Some((300, "abcdef".to_string())));
    assert_eq!(decode_contract_commitment("0000012c"), Some((300, "".to_string())));
    assert_eq!(decode_contract_commitment("0000012"), None);
    assert_eq!(decode_contract_commitment("zz00012cabcdef"), None);
}

#[test]
fn contract_commitment_resolves_through_overrides() {
    let mut store = tip_store();
    let key = make_contract_hash_key("SP1.token");
    assert_eq!(key, "clarity-contract::SP1.token".to_string());
    // No commitment anywhere: an ordinary not-found.
    assert_eq!(store.get_contract_hash("SP1.token"), Err(StoreError::NotFound));
    // A commitment written at the tip is read back through the data path.
    store.put_all_data(vec![(key.clone(), encode_contract_commitment(1, "feedbead"))]);
    assert_eq!(store.get_contract_hash("SP1.token"), Ok((block_id(11), "feedbead".to_string())));
}

#[test]
fn malformed_commitment_is_corruption() {
    let mut store = tip_store();
    let key = make_contract_hash_key("SP1.token");
    store.put_all_data(vec![(key, "not-hex".to_string())]);
    assert_eq!(store.get_contract_hash("SP1.token"), Err(StoreError::StorageCorruption));
}

#[test]
fn commitment_height_beyond_ancestry_is_corruption() {
    let mut store = tip_store();
    let key = make_contract_hash_key("SP1.token");
    store.put_all_data(vec![(key, encode_contract_commitment(7, "feedbead"))]);
    assert_eq!(store.get_contract_hash("SP1.token"), Err(StoreError::StorageCorruption));
}

#[test]
fn metadata_overrides_shadow_and_fall_back() {
    let mut store = tip_store();
    let key = make_contract_hash_key("SP1.token");
    store.put_all_data(vec![(key, encode_contract_commitment(1, "feedbead"))]);
    // Without an override the stored record under the commitment block answers.
    assert_eq!(store.get_metadata("SP1.token", "abi"), Ok(Some("stored-abi".to_string())));
    assert_eq!(store.get_metadata("SP1.token", "missing"), Ok(None));
    // An override shadows it at the tip.
    store.insert_metadata("SP1.token", "abi", "override-abi");
    assert_eq!(store.get_metadata("SP1.token", "abi"), Ok(Some("override-abi".to_string())));
    // A contract with no commitment record stays a not-found.
    assert_eq!(store.get_metadata("SP2.other", "abi"), Err(StoreError::NotFound));
}

#[test]
fn marker_identifiers_never_name_stored_blocks() {
    let chain = HistoricalChain {
        blocks: vec![HistoricalBlock {
            id: BlockId { value: resimulate::chain::GENESIS_BLOCK_RAW },
            entries: vec![],
        }],
        metadata: vec![],
    };
    assert!(!chain.check_wf());
    assert_eq!(
        InMemoryOverlayClarityBackingStore::new(
            chain,
            BlockId { value: resimulate::chain::GENESIS_BLOCK_RAW },
            BlockId { value: 99 }
        )
        .err(),
        Some(StoreError::StorageCorruption)
    );
}
