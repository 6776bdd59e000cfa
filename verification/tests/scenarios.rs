use chrono::{DateTime, NaiveDateTime};
use hyle_indexer::indexer::{Indexer, IndexerConf};
use hyle_indexer::model::{
    Blob, BlobTransaction, Block, DataProposalParent, HandledBlobProofOutput,
    IncludedTransaction, LaneEntry, MempoolStatusEvent, NodeStateEvent, Transaction,
    TransactionData, TransactionMetadata, TxId, VerifiedBlob,
};
use hyle_indexer::rows::TxHashDb;
use hyle_indexer::status::{TransactionKind, TransactionStatusDb, TransactionTypeDb};
use hyle_indexer::tables::Tables;

fn text(s: &str) -> String {
    s.to_string()
}

fn at(millis: i64) -> NaiveDateTime {
    DateTime::from_timestamp_millis(millis).unwrap().naive_utc()
}

fn empty_block(hash: &str, parent: &str, height: u64, timestamp: u64) -> Block {
    Block {
        hash: text(hash),
        parent_hash: text(parent),
        block_height: height,
        block_timestamp: timestamp,
        txs: vec![],
        dp_parent_hashes: vec![],
        lane_ids: vec![],
        successful_txs: vec![],
        failed_txs: vec![],
        timed_out_txs: vec![],
        blob_proof_outputs: vec![],
        verified_blobs: vec![],
        registered_contracts: vec![],
        deleted_contracts: vec![],
        updated_states: vec![],
        transactions_events: vec![],
    }
}

fn two_blob_tx() -> Transaction {
    Transaction {
        version: 1,
        transaction_data: TransactionData::Blob(BlobTransaction {
            identity: text("alice@hydentity"),
            blobs: vec![
                Blob { contract_name: text("hydentity"), data: vec![1, 2, 3] },
                Blob { contract_name: text("hyllar"), data: vec![4, 5] },
            ],
        }),
    }
}

fn block_one() -> Block {
    let mut block = empty_block("b1", "b0", 1, 1_700_000_000_000);
    block.txs.push(IncludedTransaction { id: TxId(text("dp1"), text("tx1")), tx: two_blob_tx() });
    block
        .dp_parent_hashes
        .push(DataProposalParent { tx_hash: text("tx1"), data_proposal_hash: text("dp1") });
    block.lane_ids.push(LaneEntry { tx_hash: text("tx1"), lane_id: vec![7, 7] });
    block
}

fn conf() -> IndexerConf {
    IndexerConf { query_buffer_size: 1, staleness_window_ms: 5000 }
}

/// Reads a block and, where the indexer asks for it, flushes the buffer
/// into the tables.
fn index(indexer: &mut Indexer, tables: &mut Tables, block: Block, now: u64) -> bool {
    let outcome = indexer.handle_node_state_event(&NodeStateEvent::NewBlock(block), now);
    if outcome.flush {
        let statements = indexer.dump_store_to_db(at(0));
        tables.execute_all(&statements).unwrap();
        indexer.flush_committed();
    }
    outcome.flush
}

/// Runs an event of the mempool against the tables, as the backend would.
fn disseminate(indexer: &mut Indexer, tables: &mut Tables, event: &MempoolStatusEvent) {
    let mut moved: Vec<TxHashDb> = vec![];
    for statement in indexer.handle_mempool_status_event(event) {
        moved = tables.execute(&statement).unwrap();
    }
    let follow_up = indexer.close_mempool_status_event(event, &moved);
    for statement in follow_up.statements {
        tables.execute(&statement).unwrap();
    }
}

#[test]
fn a_block_with_one_blob_transaction_is_materialized() {
    let mut indexer = Indexer::new(conf());
    let mut tables = Tables::new();
    assert!(index(&mut indexer, &mut tables, block_one(), 1_800_000_000_000));

    assert_eq!(tables.blocks.len(), 1);
    assert_eq!(tables.blocks[0].hash, "b1");
    assert_eq!(tables.blocks[0].parent_hash, "b0");
    assert_eq!(tables.blocks[0].height, 1);
    assert_eq!(tables.blocks[0].total_txs, 1);
    assert_eq!(tables.blocks[0].timestamp, at(1_700_000_000_000));

    assert_eq!(tables.transactions.len(), 1);
    let tx = &tables.transactions[0];
    assert_eq!(tx.tx_hash, "tx1");
    assert_eq!(tx.parent_dp_hash, "dp1");
    assert_eq!(tx.version, 1);
    assert_eq!(tx.transaction_type, TransactionTypeDb::BlobTransaction);
    assert_eq!(tx.transaction_status, TransactionStatusDb::Sequenced);
    assert_eq!(tx.block_hash, Some(text("b1")));
    assert_eq!(tx.block_height, Some(1));
    assert_eq!(tx.index, Some(0));
    assert_eq!(tx.lane_id, Some(vec![7, 7]));
    assert_eq!(tx.identity, Some(text("alice@hydentity")));

    assert_eq!(tables.blobs.len(), 2);
    assert_eq!(tables.blobs[0].blob_index, 0);
    assert_eq!(tables.blobs[0].contract_name, "hydentity");
    assert_eq!(tables.blobs[0].blob_data, vec![1, 2, 3]);
    assert!(!tables.blobs[0].verified);
    assert_eq!(tables.blobs[1].blob_index, 1);
    assert_eq!(tables.blobs[1].contract_name, "hyllar");
    assert_eq!(tables.blobs[1].blob_data, vec![4, 5]);
    assert!(!tables.blobs[1].verified);

    assert_eq!(tables.txs_contracts.len(), 2);
    assert_eq!(indexer.handler_store.counts().blocks, 0);
}

#[test]
fn a_later_block_settles_the_transaction() {
    let mut indexer = Indexer::new(conf());
    let mut tables = Tables::new();
    index(&mut indexer, &mut tables, block_one(), 1_800_000_000_000);

    let mut block = empty_block("b2", "b1", 2, 1_700_000_001_000);
    block.successful_txs.push(text("tx1"));
    block
        .dp_parent_hashes
        .push(DataProposalParent { tx_hash: text("tx1"), data_proposal_hash: text("dp1") });
    assert!(index(&mut indexer, &mut tables, block, 1_800_000_000_000));

    assert_eq!(tables.blocks.len(), 2);
    assert_eq!(tables.transactions.len(), 1);
    assert_eq!(tables.transactions[0].transaction_status, TransactionStatusDb::Success);
    assert_eq!(tables.transactions[0].block_hash, Some(text("b1")));
}

#[test]
fn failures_and_timeouts_settle_too() {
    let mut indexer = Indexer::new(conf());
    let mut tables = Tables::new();
    let mut first = block_one();
    first.txs.push(IncludedTransaction { id: TxId(text("dp1"), text("tx2")), tx: two_blob_tx() });
    first
        .dp_parent_hashes
        .push(DataProposalParent { tx_hash: text("tx2"), data_proposal_hash: text("dp1") });
    index(&mut indexer, &mut tables, first, 1_800_000_000_000);

    let mut block = empty_block("b2", "b1", 2, 1_700_000_001_000);
    block.failed_txs.push(text("tx1"));
    block.timed_out_txs.push(text("tx2"));
    block
        .dp_parent_hashes
        .push(DataProposalParent { tx_hash: text("tx1"), data_proposal_hash: text("dp1") });
    block
        .dp_parent_hashes
        .push(DataProposalParent { tx_hash: text("tx2"), data_proposal_hash: text("dp1") });
    index(&mut indexer, &mut tables, block, 1_800_000_000_000);

    assert_eq!(tables.transactions[0].transaction_status, TransactionStatusDb::Failure);
    assert_eq!(tables.transactions[1].transaction_status, TransactionStatusDb::TimedOut);
}

fn claim(proof_tx: &str, output_index: usize) -> HandledBlobProofOutput {
    HandledBlobProofOutput {
        proof_tx_hash: text(proof_tx),
        blob_tx_hash: text("tx1"),
        blob_index: 0,
        blob_proof_output_index: output_index,
        contract_name: text("hydentity"),
        hyle_output: text("{\"success\":true}"),
    }
}

#[test]
fn a_confirmation_settles_only_the_claim_it_names() {
    let mut indexer = Indexer::new(conf());
    let mut tables = Tables::new();
    index(&mut indexer, &mut tables, block_one(), 1_800_000_000_000);

    let mut block = empty_block("b2", "b1", 2, 1_700_000_001_000);
    block.blob_proof_outputs.push(claim("proof_a", 0));
    block.blob_proof_outputs.push(claim("proof_b", 1));
    block.verified_blobs.push(VerifiedBlob {
        blob_tx_hash: text("tx1"),
        blob_index: 0,
        blob_proof_output_index: Some(1),
    });
    for tx in ["tx1", "proof_a", "proof_b"] {
        block
            .dp_parent_hashes
            .push(DataProposalParent { tx_hash: text(tx), data_proposal_hash: text("dp1") });
    }
    index(&mut indexer, &mut tables, block, 1_800_000_000_000);

    assert_eq!(tables.blob_proof_outputs.len(), 2);
    assert_eq!(tables.blob_proof_outputs[0].blob_proof_output_index, 0);
    assert!(!tables.blob_proof_outputs[0].settled);
    assert_eq!(tables.blob_proof_outputs[1].blob_proof_output_index, 1);
    assert!(tables.blob_proof_outputs[1].settled);
    assert_eq!(tables.blob_proof_outputs[1].proof_tx_hash, "proof_b");
    assert_eq!(tables.blob_proof_outputs[1].proof_parent_dp_hash, "dp1");
    assert_eq!(tables.blob_proof_outputs[1].hyle_output, "{\"success\":true}");

    assert!(tables.blobs[0].verified);
    assert!(!tables.blobs[1].verified);
}

#[test]
fn a_confirmation_without_an_output_settles_no_claim() {
    let mut indexer = Indexer::new(conf());
    let mut tables = Tables::new();
    index(&mut indexer, &mut tables, block_one(), 1_800_000_000_000);

    let mut block = empty_block("b2", "b1", 2, 1_700_000_001_000);
    block.blob_proof_outputs.push(claim("proof_a", 0));
    block.verified_blobs.push(VerifiedBlob {
        blob_tx_hash: text("tx1"),
        blob_index: 1,
        blob_proof_output_index: None,
    });
    block
        .dp_parent_hashes
        .push(DataProposalParent { tx_hash: text("tx1"), data_proposal_hash: text("dp1") });
    index(&mut indexer, &mut tables, block, 1_800_000_000_000);

    assert!(!tables.blob_proof_outputs[0].settled);
    assert!(!tables.blobs[0].verified);
    assert!(tables.blobs[1].verified);
}

#[test]
fn indexing_the_same_block_twice_duplicates_no_keyed_row() {
    let mut indexer = Indexer::new(conf());
    let mut tables = Tables::new();
    index(&mut indexer, &mut tables, block_one(), 1_800_000_000_000);
    let blocks = tables.blocks.clone();
    let transactions = tables.transactions.clone();
    let blobs = tables.blobs.clone();
    let txs_contracts = tables.txs_contracts.clone();

    index(&mut indexer, &mut tables, block_one(), 1_800_000_000_000);

    assert_eq!(tables.blocks, blocks);
    assert_eq!(tables.transactions, transactions);
    assert_eq!(tables.blobs, blobs);
    assert_eq!(tables.txs_contracts, txs_contracts);
}

#[test]
fn a_replayed_block_does_not_unsettle_a_transaction() {
    let mut indexer = Indexer::new(conf());
    let mut tables = Tables::new();
    index(&mut indexer, &mut tables, block_one(), 1_800_000_000_000);
    let mut block = empty_block("b2", "b1", 2, 1_700_000_001_000);
    block.successful_txs.push(text("tx1"));
    block
        .dp_parent_hashes
        .push(DataProposalParent { tx_hash: text("tx1"), data_proposal_hash: text("dp1") });
    index(&mut indexer, &mut tables, block, 1_800_000_000_000);

    index(&mut indexer, &mut tables, block_one(), 1_800_000_000_000);

    assert_eq!(tables.transactions.len(), 1);
    assert_eq!(tables.transactions[0].transaction_status, TransactionStatusDb::Success);
}

fn waiting(parent: &str, tx_hash: &str) -> MempoolStatusEvent {
    MempoolStatusEvent::WaitingDissemination {
        parent_data_proposal_hash: text(parent),
        tx_hash: text(tx_hash),
        tx: two_blob_tx(),
    }
}

fn sealed(parent: &str, new: &str, ids: Vec<(&str, &str)>) -> MempoolStatusEvent {
    MempoolStatusEvent::DataProposalCreated {
        parent_data_proposal_hash: text(parent),
        data_proposal_hash: text(new),
        txs_metadatas: ids
            .into_iter()
            .map(|(dp, tx)| TransactionMetadata {
                version: 1,
                transaction_kind: TransactionKind::Blob,
                id: TxId(text(dp), text(tx)),
            })
            .collect(),
    }
}

#[test]
fn a_waiting_transaction_is_stored_once() {
    let mut indexer = Indexer::new(conf());
    let mut tables = Tables::new();
    disseminate(&mut indexer, &mut tables, &waiting("d0", "t"));
    disseminate(&mut indexer, &mut tables, &waiting("d0", "t"));

    assert_eq!(tables.transactions.len(), 1);
    let row = &tables.transactions[0];
    assert_eq!(row.tx_hash, "t");
    assert_eq!(row.parent_dp_hash, "d0");
    assert_eq!(row.transaction_status, TransactionStatusDb::WaitingDissemination);
    assert_eq!(row.transaction_type, TransactionTypeDb::BlobTransaction);
    assert_eq!(row.block_hash, None);
    assert_eq!(row.index, None);
    assert_eq!(row.lane_id, None);
    assert_eq!(indexer.handler_store.tx_data.len(), 4);
}

#[test]
fn a_sealed_transaction_advances_and_keeps_its_data_proposal() {
    let mut indexer = Indexer::new(conf());
    let mut tables = Tables::new();
    disseminate(&mut indexer, &mut tables, &waiting("d0", "t"));
    disseminate(&mut indexer, &mut tables, &sealed("d0", "d1", vec![("d0", "t"), ("d0", "t")]));

    assert_eq!(tables.transactions.len(), 1);
    assert_eq!(tables.transactions[0].parent_dp_hash, "d0");
    assert_eq!(tables.transactions[0].transaction_status, TransactionStatusDb::DataProposalCreated);
    assert_eq!(indexer.handler_store.tx_data[0].parent_data_proposal_hash, "d0");
}

#[test]
fn a_passed_over_transaction_moves_to_the_new_data_proposal_with_its_blobs() {
    let mut indexer = Indexer::new(conf());
    let mut tables = Tables::new();
    disseminate(&mut indexer, &mut tables, &waiting("d0", "t"));
    disseminate(&mut indexer, &mut tables, &waiting("d0", "u"));
    disseminate(&mut indexer, &mut tables, &sealed("d0", "d1", vec![("d0", "u")]));

    assert_eq!(tables.transactions.len(), 2);
    assert_eq!(tables.transactions[0].tx_hash, "t");
    assert_eq!(tables.transactions[0].parent_dp_hash, "d1");
    assert_eq!(tables.transactions[0].transaction_status, TransactionStatusDb::WaitingDissemination);
    assert_eq!(tables.transactions[1].tx_hash, "u");
    assert_eq!(tables.transactions[1].parent_dp_hash, "d0");
    assert_eq!(tables.transactions[1].transaction_status, TransactionStatusDb::DataProposalCreated);

    let buffered = &indexer.handler_store.tx_data;
    assert_eq!(buffered.len(), 4);
    assert_eq!(buffered[0].tx_hash, "t");
    assert_eq!(buffered[0].parent_data_proposal_hash, "d1");
    assert_eq!(buffered[1].parent_data_proposal_hash, "d1");
    assert_eq!(buffered[2].tx_hash, "u");
    assert_eq!(buffered[2].parent_data_proposal_hash, "d0");

    // The next block flushes the buffered blobs under their new data proposal.
    index(&mut indexer, &mut tables, empty_block("b1", "b0", 1, 0), 1_800_000_000_000);
    assert_eq!(tables.blobs.len(), 4);
    assert_eq!(tables.blobs[0].tx_hash, "t");
    assert_eq!(tables.blobs[0].parent_data_proposal_hash, "d1");
    assert_eq!(tables.blobs[3].tx_hash, "u");
    assert_eq!(tables.blobs[3].parent_data_proposal_hash, "d0");
}

#[test]
fn stored_blobs_follow_a_passed_over_transaction() {
    let mut indexer = Indexer::new(conf());
    let mut tables = Tables::new();
    disseminate(&mut indexer, &mut tables, &waiting("d0", "t"));
    index(&mut indexer, &mut tables, empty_block("b1", "b0", 1, 0), 1_800_000_000_000);
    assert_eq!(tables.blobs[0].parent_data_proposal_hash, "d0");

    disseminate(&mut indexer, &mut tables, &sealed("d0", "d1", vec![]));

    assert_eq!(tables.transactions[0].parent_dp_hash, "d1");
    assert_eq!(tables.blobs.len(), 2);
    assert_eq!(tables.blobs[0].parent_data_proposal_hash, "d1");
    assert_eq!(tables.blobs[1].parent_data_proposal_hash, "d1");
}

#[test]
fn a_block_overwrites_a_pending_transaction() {
    let mut indexer = Indexer::new(conf());
    let mut tables = Tables::new();
    disseminate(&mut indexer, &mut tables, &waiting("dp1", "tx1"));
    disseminate(&mut indexer, &mut tables, &sealed("dp1", "dp2", vec![("dp1", "tx1")]));
    index(&mut indexer, &mut tables, block_one(), 1_800_000_000_000);

    assert_eq!(tables.transactions.len(), 1);
    assert_eq!(tables.transactions[0].transaction_status, TransactionStatusDb::Sequenced);
    assert_eq!(tables.transactions[0].block_hash, Some(text("b1")));

    // A late report from the mempool changes nothing.
    disseminate(&mut indexer, &mut tables, &sealed("dp1", "dp2", vec![("dp1", "tx1")]));
    disseminate(&mut indexer, &mut tables, &waiting("dp1", "tx1"));
    assert_eq!(tables.transactions.len(), 1);
    assert_eq!(tables.transactions[0].transaction_status, TransactionStatusDb::Sequenced);
}
