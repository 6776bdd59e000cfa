use chrono::{DateTime, NaiveDateTime};
use hyle_indexer::keyed::ConflictPolicy;
use hyle_indexer::model::{
    Blob, BlobTransaction, Block, IncludedTransaction, RegisteredContract, Transaction,
    TransactionData, TransactionEvents, TxId, UpdatedState,
};
use hyle_indexer::statement::{DeferredUpdate, Statement};
use hyle_indexer::status::{TransactionKind, TransactionStatusDb, TransactionTypeDb};
use hyle_indexer::store::{BufferedBlock, BufferedTx, IndexerHandlerStore};
use hyle_indexer::writer::{to_block_row, to_transaction_row};

fn text(s: &str) -> String {
    s.to_string()
}

fn at(millis: i64) -> NaiveDateTime {
    DateTime::from_timestamp_millis(millis).unwrap().naive_utc()
}

fn full_block() -> Block {
    Block {
        hash: text("b"),
        parent_hash: text("a"),
        block_height: 5,
        block_timestamp: 1_000,
        txs: vec![
            IncludedTransaction {
                id: TxId(text("dp"), text("t0")),
                tx: Transaction {
                    version: 1,
                    transaction_data: TransactionData::Blob(BlobTransaction {
                        identity: text("id"),
                        blobs: vec![Blob { contract_name: text("c"), data: vec![1] }],
                    }),
                },
            },
            IncludedTransaction {
                id: TxId(text("dp"), text("t1")),
                tx: Transaction {
                    version: 1,
                    transaction_data: TransactionData::VerifiedProof { proof: Some(vec![2]) },
                },
            },
        ],
        dp_parent_hashes: vec![],
        lane_ids: vec![],
        successful_txs: vec![text("t0")],
        failed_txs: vec![],
        timed_out_txs: vec![],
        blob_proof_outputs: vec![hyle_indexer::model::HandledBlobProofOutput {
            proof_tx_hash: text("t1"),
            blob_tx_hash: text("t0"),
            blob_index: 0,
            blob_proof_output_index: 0,
            contract_name: text("c"),
            hyle_output: text("{}"),
        }],
        verified_blobs: vec![],
        registered_contracts: vec![RegisteredContract {
            tx_hash: text("t0"),
            verifier: text("v"),
            program_id: vec![],
            state_commitment: vec![],
            contract_name: text("c"),
        }],
        deleted_contracts: vec![text("gone"), text("away")],
        updated_states: vec![UpdatedState { contract_name: text("c"), state_commitment: vec![3] }],
        transactions_events: vec![TransactionEvents { tx_hash: text("t0"), events: text("[]") }],
    }
}

fn label(statement: &Statement) -> &'static str {
    match statement {
        Statement::InsertBlocks(_) => "blocks",
        Statement::InsertTransactions { .. } => "transactions",
        Statement::InsertBlobs(_) => "blobs",
        Statement::InsertTxsContracts(_) => "txs_contracts",
        Statement::InsertProofs(_) => "proofs",
        Statement::InsertTransactionEvents(_) => "events",
        Statement::InsertContracts(_) => "contracts",
        Statement::InsertContractStates(_) => "contract_state",
        Statement::DeleteContract(_) => "delete",
        Statement::InsertBlobProofOutputs(_) => "outputs",
        Statement::Update(_) => "update",
        Statement::ReparentTransactions { .. } => "reparent_transactions",
        Statement::ReparentBlobs { .. } => "reparent_blobs",
    }
}

#[test]
fn an_empty_buffer_has_no_statements() {
    let store = IndexerHandlerStore::new();
    assert!(store.dump_store_to_db(at(0)).is_empty());
}

#[test]
fn nothing_is_written_while_no_block_is_buffered() {
    let mut store = IndexerHandlerStore::new();
    let tx = Transaction {
        version: 1,
        transaction_data: TransactionData::Blob(BlobTransaction {
            identity: text("id"),
            blobs: vec![Blob { contract_name: text("c"), data: vec![1] }],
        }),
    };
    store.insert_tx_data(&text("t"), &tx, text("dp")).unwrap();
    assert_eq!(store.tx_data.len(), 1);
    assert!(store.dump_store_to_db(at(0)).is_empty());
}

#[test]
fn statements_come_in_the_order_of_their_dependencies() {
    let mut store = IndexerHandlerStore::new();
    store.handle_processed_block(&full_block());
    let statements = store.dump_store_to_db(at(0));
    let labels: Vec<&str> = statements.iter().map(label).collect();
    assert_eq!(
        labels,
        vec![
            "blocks",
            "transactions",
            "blobs",
            "txs_contracts",
            "proofs",
            "events",
            "contracts",
            "contract_state",
            "delete",
            "delete",
            "outputs",
            "update",
            "update",
            "update",
        ]
    );
    assert_eq!(statements[8], Statement::DeleteContract(text("gone")));
    assert_eq!(statements[9], Statement::DeleteContract(text("away")));
    assert_eq!(
        statements[13],
        Statement::Update(DeferredUpdate::SetContractState {
            state_commitment: vec![3],
            contract_name: text("c")
        })
    );
    match &statements[1] {
        Statement::InsertTransactions { rows, on_conflict } => {
            assert_eq!(*on_conflict, ConflictPolicy::AdvanceFromPending);
            assert_eq!(rows.len(), 2);
            assert_eq!(rows[0].transaction_status, TransactionStatusDb::Sequenced);
            assert_eq!(rows[1].transaction_status, TransactionStatusDb::Success);
        }
        _ => panic!("the second statement carries the transactions"),
    }
    match &statements[3] {
        Statement::InsertTxsContracts(rows) => {
            assert_eq!(rows.len(), 1);
            assert_eq!(rows[0].tx_hash, "t0");
            assert_eq!(rows[0].parent_data_proposal_hash, "dp");
            assert_eq!(rows[0].contract_name, "c");
        }
        _ => panic!("the fourth statement carries the cross-references"),
    }
}

#[test]
fn a_statement_without_rows_is_left_out() {
    let mut store = IndexerHandlerStore::new();
    let mut block = full_block();
    block.txs.clear();
    block.registered_contracts.clear();
    block.deleted_contracts.clear();
    block.blob_proof_outputs.clear();
    block.transactions_events.clear();
    block.successful_txs.clear();
    block.updated_states.clear();
    store.handle_processed_block(&block);
    let statements = store.dump_store_to_db(at(0));
    assert_eq!(statements.len(), 1);
    assert_eq!(label(&statements[0]), "blocks");
}

#[test]
fn the_buffer_is_kept_until_the_flush_is_committed() {
    let mut store = IndexerHandlerStore::new();
    store.handle_processed_block(&full_block());
    let first = store.dump_store_to_db(at(0));
    let second = store.dump_store_to_db(at(0));
    assert_eq!(first, second);
    assert_eq!(store.counts().blocks, 1);
    store.clear();
    assert_eq!(store, IndexerHandlerStore::new());
    assert!(store.dump_store_to_db(at(0)).is_empty());
}

#[test]
fn counts_follow_the_buffer() {
    let mut store = IndexerHandlerStore::new();
    store.handle_processed_block(&full_block());
    let counts = store.counts();
    assert_eq!(counts.blocks, 1);
    assert_eq!(counts.block_txs, 2);
    assert_eq!(counts.tx_data, 1);
    assert_eq!(counts.tx_data_proofs, 1);
    assert_eq!(counts.transactions_events, 1);
    assert_eq!(counts.sql_updates, 3);
    assert_eq!(counts.contracts, 1);
    assert_eq!(counts.contract_states, 1);
    assert_eq!(counts.blob_proof_outputs, 1);
}

fn buffered_block(height: u64, timestamp: u64, total_txs: usize) -> BufferedBlock {
    BufferedBlock {
        hash: text("b"),
        parent_hash: text("a"),
        block_height: height,
        block_timestamp: timestamp,
        total_txs,
    }
}

#[test]
fn a_block_row_holds_the_time_of_the_block() {
    let row = to_block_row(&buffered_block(12, 947_638_923_004, 7), at(0));
    assert_eq!(row.hash, "b");
    assert_eq!(row.parent_hash, "a");
    assert_eq!(row.height, 12);
    assert_eq!(row.total_txs, 7);
    assert_eq!(row.timestamp, at(947_638_923_004));
    assert_eq!(row.timestamp.to_string(), "2000-01-12 01:02:03.004");
}

#[test]
fn a_block_row_falls_back_on_the_time_given() {
    let now = at(1_234);
    assert_eq!(to_block_row(&buffered_block(1, u64::MAX, 0), now).timestamp, now);
    assert_eq!(to_block_row(&buffered_block(1, i64::MAX as u64, 0), now).timestamp, now);
    assert_eq!(to_block_row(&buffered_block(1, i64::MAX as u64 + 1, 0), now).timestamp, now);
}

#[test]
fn a_block_row_stores_zero_for_a_height_that_does_not_fit() {
    assert_eq!(to_block_row(&buffered_block(i64::MAX as u64, 0, 0), at(0)).height, i64::MAX);
    assert_eq!(to_block_row(&buffered_block(i64::MAX as u64 + 1, 0, 0), at(0)).height, 0);
    assert_eq!(to_block_row(&buffered_block(u64::MAX, 0, 0), at(0)).height, 0);
}

fn buffered_tx(kind: TransactionKind, version: u32, lane_id: Option<Vec<u8>>) -> BufferedTx {
    BufferedTx {
        parent_dp_hash: text("dp"),
        tx_hash: text("t"),
        index: 4,
        block_hash: text("b"),
        block_height: 9,
        lane_id,
        version,
        kind,
        identity: None,
    }
}

#[test]
fn a_transaction_row_takes_its_status_from_its_kind() {
    let blob = to_transaction_row(&buffered_tx(TransactionKind::Blob, 2, Some(vec![1])));
    assert_eq!(blob.tx_hash, "t");
    assert_eq!(blob.parent_dp_hash, "dp");
    assert_eq!(blob.version, 2);
    assert_eq!(blob.transaction_type, TransactionTypeDb::BlobTransaction);
    assert_eq!(blob.transaction_status, TransactionStatusDb::Sequenced);
    assert_eq!(blob.block_hash, Some(text("b")));
    assert_eq!(blob.block_height, Some(9));
    assert_eq!(blob.index, Some(4));
    assert_eq!(blob.lane_id, Some(vec![1]));
    let proof = to_transaction_row(&buffered_tx(TransactionKind::Proof, 2, None));
    assert_eq!(proof.transaction_type, TransactionTypeDb::ProofTransaction);
    assert_eq!(proof.transaction_status, TransactionStatusDb::Success);
    let verified = to_transaction_row(&buffered_tx(TransactionKind::VerifiedProof, 2, None));
    assert_eq!(verified.transaction_type, TransactionTypeDb::ProofTransaction);
    assert_eq!(verified.transaction_status, TransactionStatusDb::Success);
}

#[test]
fn a_transaction_row_has_the_empty_lane_where_none_was_named() {
    let row = to_transaction_row(&buffered_tx(TransactionKind::Blob, 2, None));
    assert_eq!(row.lane_id, Some(vec![]));
}

#[test]
fn a_transaction_row_stores_zero_for_a_version_that_does_not_fit() {
    let fits = to_transaction_row(&buffered_tx(TransactionKind::Blob, i32::MAX as u32, None));
    assert_eq!(fits.version, i32::MAX);
    let too_large = to_transaction_row(&buffered_tx(TransactionKind::Blob, i32::MAX as u32 + 1, None));
    assert_eq!(too_large.version, 0);
}
