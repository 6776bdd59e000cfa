use hyle_indexer::indexer::{Indexer, IndexerConf, DEFAULT_STALENESS_WINDOW_MS};
use hyle_indexer::model::{Block, NodeStateEvent};
use hyle_indexer::store::IndexerHandlerStore;

fn block(hash: &str, timestamp: u64) -> NodeStateEvent {
    NodeStateEvent::NewBlock(Block {
        hash: hash.to_string(),
        parent_hash: String::new(),
        block_height: 1,
        block_timestamp: timestamp,
        txs: vec![],
        dp_parent_hashes: vec![],
        lane_ids: vec![],
        successful_txs: vec![],
        failed_txs: vec![],
        timed_out_txs: vec![],
        blob_proof_outputs: vec![],
        verified_blobs: vec![],
        registered_contracts: vec![],
        deleted_contracts: vec![],
        updated_states: vec![],
        transactions_events: vec![],
    })
}

fn conf(capacity: usize) -> IndexerConf {
    IndexerConf { query_buffer_size: capacity, staleness_window_ms: DEFAULT_STALENESS_WINDOW_MS }
}

#[test]
fn the_default_window_is_five_seconds() {
    assert_eq!(DEFAULT_STALENESS_WINDOW_MS, 5000);
}

#[test]
fn the_buffer_is_flushed_when_it_reaches_its_capacity() {
    let mut indexer = Indexer::new(conf(3));
    let now = 1_000_000;
    assert!(!indexer.handle_node_state_event(&block("b1", 10), now).flush);
    assert!(!indexer.handle_node_state_event(&block("b2", 20), now).flush);
    assert!(indexer.handle_node_state_event(&block("b3", 30), now).flush);
    assert_eq!(indexer.handler_store.counts().blocks, 3);
    indexer.flush_committed();
    assert_eq!(indexer.handler_store.counts().blocks, 0);
    assert!(!indexer.handle_node_state_event(&block("b4", 40), now).flush);
}

#[test]
fn a_young_block_forces_a_flush() {
    let mut indexer = Indexer::new(conf(100));
    let now = 1_000_000;
    assert!(!indexer.handle_node_state_event(&block("b1", now - 5000), now).flush);
    assert!(indexer.handle_node_state_event(&block("b2", now - 4999), now).flush);
    assert!(indexer.handle_node_state_event(&block("b3", now + 1), now).flush);
    assert!(!indexer.handle_node_state_event(&block("b4", now - 5001), now).flush);
}

#[test]
fn only_the_newest_block_counts_for_staleness() {
    let mut store = IndexerHandlerStore::new();
    let conf = conf(100);
    let now = 1_000_000;
    assert!(!store.must_flush(&conf, now));
    let young = match block("b1", now) {
        NodeStateEvent::NewBlock(b) => b,
    };
    let old = match block("b2", 0) {
        NodeStateEvent::NewBlock(b) => b,
    };
    store.handle_processed_block(&young);
    assert!(store.must_flush(&conf, now));
    store.handle_processed_block(&old);
    assert!(!store.must_flush(&conf, now));
}

#[test]
fn an_empty_buffer_is_never_flushed() {
    let store = IndexerHandlerStore::new();
    assert!(!store.must_flush(&conf(0), 0));
    assert!(!store.must_flush(&conf(0), u64::MAX));
}

#[test]
fn the_window_does_not_wrap_around() {
    let mut indexer = Indexer::new(IndexerConf { query_buffer_size: 100, staleness_window_ms: u64::MAX });
    assert!(indexer.handle_node_state_event(&block("b1", u64::MAX), u64::MAX).flush);
    let mut indexer = Indexer::new(IndexerConf { query_buffer_size: 100, staleness_window_ms: 0 });
    assert!(!indexer.handle_node_state_event(&block("b1", 7), 7).flush);
    assert!(indexer.handle_node_state_event(&block("b2", 8), 7).flush);
    let mut indexer = Indexer::new(conf(100));
    assert!(indexer.handle_node_state_event(&block("b1", 0), 4999).flush);
}

#[test]
fn a_capacity_of_one_flushes_every_block() {
    let mut indexer = Indexer::new(conf(1));
    assert!(indexer.handle_node_state_event(&block("b1", 0), 1_000_000).flush);
    let mut indexer = Indexer::new(conf(0));
    assert!(indexer.handle_node_state_event(&block("b1", 0), 1_000_000).flush);
}

#[test]
fn the_default_configuration_buffers_a_hundred_blocks() {
    let conf = IndexerConf::default();
    assert_eq!(conf.query_buffer_size, 100);
    assert_eq!(conf.staleness_window_ms, 5000);
    assert_eq!(hyle_indexer::indexer::DEFAULT_QUERY_BUFFER_SIZE, 100);
}
