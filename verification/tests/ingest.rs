use hyle_indexer::ingest::{lane_for, parent_for, UnsupportedTransactionType};
use hyle_indexer::model::{
    Blob, BlobTransaction, Block, DataProposalParent, HandledBlobProofOutput,
    IncludedTransaction, LaneEntry, RegisteredContract, Transaction, TransactionData,
    TransactionEvents, TxId, UpdatedState, VerifiedBlob,
};
use hyle_indexer::statement::DeferredUpdate;
use hyle_indexer::status::{Settlement, TransactionKind};
use hyle_indexer::store::IndexerHandlerStore;

fn text(s: &str) -> String {
    s.to_string()
}

fn empty_block(hash: &str, height: u64) -> Block {
    Block {
        hash: text(hash),
        parent_hash: text("parent"),
        block_height: height,
        block_timestamp: 42,
        txs: vec![],
        dp_parent_hashes: vec![],
        lane_ids: vec![],
        successful_txs: vec![],
        failed_txs: vec![],
        timed_out_txs: vec![],
        blob_proof_outputs: vec![],
        verified_blobs: vec![],
        registered_contracts: vec![],
        deleted_contracts: vec![],
        updated_states: vec![],
        transactions_events: vec![],
    }
}

fn blob_tx(identity: &str, contracts: Vec<&str>) -> Transaction {
    Transaction {
        version: 3,
        transaction_data: TransactionData::Blob(BlobTransaction {
            identity: text(identity),
            blobs: contracts
                .into_iter()
                .map(|c| Blob { contract_name: text(c), data: c.as_bytes().to_vec() })
                .collect(),
        }),
    }
}

fn parent(tx: &str, dp: &str) -> DataProposalParent {
    DataProposalParent { tx_hash: text(tx), data_proposal_hash: text(dp) }
}

#[test]
fn insert_tx_data_buffers_one_row_for_each_blob() {
    let mut store = IndexerHandlerStore::new();
    let tx = blob_tx("bob", vec!["c0", "c1", "c2"]);
    assert_eq!(store.insert_tx_data(&text("h"), &tx, text("dp")), Ok(()));
    assert_eq!(store.tx_data.len(), 3);
    for (i, row) in store.tx_data.iter().enumerate() {
        assert_eq!(row.tx_hash, "h");
        assert_eq!(row.parent_data_proposal_hash, "dp");
        assert_eq!(row.blob_index, i as i32);
        assert_eq!(row.identity, "bob");
        assert_eq!(row.contract_name, format!("c{}", i));
        assert_eq!(row.blob_data, format!("c{}", i).into_bytes());
        assert!(!row.verified);
    }
    assert!(store.tx_data_proofs.is_empty());
}

#[test]
fn insert_tx_data_buffers_the_proof_of_a_verified_proof() {
    let mut store = IndexerHandlerStore::new();
    let tx = Transaction {
        version: 1,
        transaction_data: TransactionData::VerifiedProof { proof: Some(vec![9, 8, 7]) },
    };
    assert_eq!(store.insert_tx_data(&text("h"), &tx, text("dp")), Ok(()));
    assert!(store.tx_data.is_empty());
    assert_eq!(store.tx_data_proofs.len(), 1);
    assert_eq!(store.tx_data_proofs[0].tx_hash, "h");
    assert_eq!(store.tx_data_proofs[0].parent_data_proposal_hash, "dp");
    assert_eq!(store.tx_data_proofs[0].proof, vec![9, 8, 7]);
}

#[test]
fn insert_tx_data_buffers_nothing_for_a_verified_proof_without_its_proof() {
    let mut store = IndexerHandlerStore::new();
    let tx =
        Transaction { version: 1, transaction_data: TransactionData::VerifiedProof { proof: None } };
    assert_eq!(store.insert_tx_data(&text("h"), &tx, text("dp")), Ok(()));
    assert!(store.tx_data.is_empty());
    assert!(store.tx_data_proofs.is_empty());
}

#[test]
fn insert_tx_data_refuses_an_unverified_proof() {
    let mut store = IndexerHandlerStore::new();
    let tx = Transaction { version: 1, transaction_data: TransactionData::Proof };
    assert_eq!(store.insert_tx_data(&text("h"), &tx, text("dp")), Err(UnsupportedTransactionType));
    assert_eq!(store, IndexerHandlerStore::new());
}

#[test]
fn a_block_is_buffered_with_its_transactions_in_order() {
    let mut store = IndexerHandlerStore::new();
    let mut block = empty_block("b", 10);
    block.txs.push(IncludedTransaction { id: TxId(text("dp"), text("t0")), tx: blob_tx("a", vec!["c"]) });
    block.txs.push(IncludedTransaction {
        id: TxId(text("dp"), text("t1")),
        tx: Transaction { version: 2, transaction_data: TransactionData::Proof },
    });
    block.txs.push(IncludedTransaction {
        id: TxId(text("dp"), text("t2")),
        tx: Transaction {
            version: 2,
            transaction_data: TransactionData::VerifiedProof { proof: Some(vec![1]) },
        },
    });
    block.lane_ids.push(LaneEntry { tx_hash: text("t0"), lane_id: vec![5] });

    let outcome = store.handle_processed_block(&block);

    assert_eq!(store.blocks.len(), 1);
    assert_eq!(store.blocks[0].hash, "b");
    assert_eq!(store.blocks[0].block_height, 10);
    assert_eq!(store.blocks[0].block_timestamp, 42);
    assert_eq!(store.blocks[0].total_txs, 3);

    assert_eq!(store.block_txs.len(), 3);
    assert_eq!(store.block_txs[0].tx_hash, "t0");
    assert_eq!(store.block_txs[0].index, 0);
    assert_eq!(store.block_txs[0].kind, TransactionKind::Blob);
    assert_eq!(store.block_txs[0].identity, Some(text("a")));
    assert_eq!(store.block_txs[0].lane_id, Some(vec![5]));
    assert_eq!(store.block_txs[0].version, 3);
    assert_eq!(store.block_txs[1].index, 1);
    assert_eq!(store.block_txs[1].kind, TransactionKind::Proof);
    assert_eq!(store.block_txs[1].identity, None);
    assert_eq!(store.block_txs[1].lane_id, None);
    assert_eq!(store.block_txs[2].index, 2);
    assert_eq!(store.block_txs[2].kind, TransactionKind::VerifiedProof);

    assert_eq!(store.tx_data.len(), 1);
    assert_eq!(store.tx_data_proofs.len(), 1);
    assert_eq!(store.tx_data_proofs[0].tx_hash, "t2");
    assert_eq!(outcome.unsupported, vec![1]);
}

#[test]
fn subscribers_are_told_of_blob_transactions_only() {
    let mut store = IndexerHandlerStore::new();
    let mut block = empty_block("b", 10);
    block.txs.push(IncludedTransaction {
        id: TxId(text("dp"), text("t0")),
        tx: Transaction { version: 2, transaction_data: TransactionData::Proof },
    });
    block.txs.push(IncludedTransaction { id: TxId(text("dp"), text("t1")), tx: blob_tx("a", vec!["c"]) });
    block.txs.push(IncludedTransaction { id: TxId(text("dq"), text("t2")), tx: blob_tx("b", vec![]) });
    block.lane_ids.push(LaneEntry { tx_hash: text("t1"), lane_id: vec![5] });

    let outcome = store.handle_processed_block(&block);

    assert_eq!(outcome.notifications.len(), 2);
    let first = &outcome.notifications[0];
    assert_eq!(first.tx_hash, "t1");
    assert_eq!(first.dp_hash, "dp");
    assert_eq!(first.block_hash, "b");
    assert_eq!(first.index, 1);
    assert_eq!(first.version, 3);
    assert_eq!(first.lane_id, Some(vec![5]));
    assert_eq!(first.timestamp, Some(42));
    assert_eq!(first.identity, "a");
    assert_eq!(first.blobs, vec![Blob { contract_name: text("c"), data: vec![b'c'] }]);
    let second = &outcome.notifications[1];
    assert_eq!(second.tx_hash, "t2");
    assert_eq!(second.dp_hash, "dq");
    assert_eq!(second.index, 2);
    assert_eq!(second.lane_id, None);
    assert_eq!(second.timestamp, None);
    assert!(second.blobs.is_empty());
}

#[test]
fn a_transaction_seen_twice_is_buffered_once_with_what_came_last() {
    let mut store = IndexerHandlerStore::new();
    let mut first = empty_block("b1", 1);
    first.txs.push(IncludedTransaction { id: TxId(text("dp"), text("t")), tx: blob_tx("a", vec![]) });
    let mut second = empty_block("b2", 2);
    second.txs.push(IncludedTransaction { id: TxId(text("dq"), text("u")), tx: blob_tx("a", vec![]) });
    second.txs.push(IncludedTransaction { id: TxId(text("dp"), text("t")), tx: blob_tx("z", vec![]) });
    store.handle_processed_block(&first);
    store.handle_processed_block(&second);

    assert_eq!(store.blocks.len(), 2);
    assert_eq!(store.block_txs.len(), 2);
    assert_eq!(store.block_txs[0].tx_hash, "t");
    assert_eq!(store.block_txs[0].block_hash, "b2");
    assert_eq!(store.block_txs[0].index, 1);
    assert_eq!(store.block_txs[0].identity, Some(text("z")));
    assert_eq!(store.block_txs[1].tx_hash, "u");
}

#[test]
fn events_are_buffered_with_their_place_and_data_proposal() {
    let mut store = IndexerHandlerStore::new();
    let mut block = empty_block("b", 77);
    block.transactions_events.push(TransactionEvents { tx_hash: text("t0"), events: text("[]") });
    block
        .transactions_events
        .push(TransactionEvents { tx_hash: text("t1"), events: text("[\"Sequenced\"]") });
    block.dp_parent_hashes.push(parent("t1", "dp1"));

    store.handle_processed_block(&block);

    assert_eq!(store.transactions_events.len(), 2);
    assert_eq!(store.transactions_events[0].block_hash, "b");
    assert_eq!(store.transactions_events[0].block_height, 77);
    assert_eq!(store.transactions_events[0].index, 0);
    assert_eq!(store.transactions_events[0].tx_hash, "t0");
    assert_eq!(store.transactions_events[0].parent_data_proposal_hash, "");
    assert_eq!(store.transactions_events[0].events, "[]");
    assert_eq!(store.transactions_events[1].index, 1);
    assert_eq!(store.transactions_events[1].parent_data_proposal_hash, "dp1");
    assert_eq!(store.transactions_events[1].events, "[\"Sequenced\"]");
}

#[test]
fn a_height_beyond_the_column_is_stored_as_zero() {
    let mut store = IndexerHandlerStore::new();
    let mut block = empty_block("b", u64::MAX);
    block.transactions_events.push(TransactionEvents { tx_hash: text("t0"), events: text("[]") });
    store.handle_processed_block(&block);
    assert_eq!(store.transactions_events[0].block_height, 0);
    assert_eq!(store.blocks[0].block_height, u64::MAX);
}

#[test]
fn queued_changes_keep_the_order_of_the_block() {
    let mut store = IndexerHandlerStore::new();
    let mut block = empty_block("b", 1);
    block.successful_txs.push(text("s"));
    block.failed_txs.push(text("f"));
    block.timed_out_txs.push(text("o"));
    block.dp_parent_hashes.push(parent("s", "ds"));
    block.dp_parent_hashes.push(parent("f", "df"));
    block.dp_parent_hashes.push(parent("v", "dv"));
    block.verified_blobs.push(VerifiedBlob {
        blob_tx_hash: text("v"),
        blob_index: 2,
        blob_proof_output_index: Some(4),
    });
    block.verified_blobs.push(VerifiedBlob {
        blob_tx_hash: text("w"),
        blob_index: 0,
        blob_proof_output_index: None,
    });
    block.updated_states.push(UpdatedState { contract_name: text("c"), state_commitment: vec![1] });

    store.handle_processed_block(&block);

    let expected = vec![
        DeferredUpdate::SetTransactionStatus {
            settlement: Settlement::Success,
            tx_hash: text("s"),
            parent_dp_hash: text("ds"),
        },
        DeferredUpdate::SetTransactionStatus {
            settlement: Settlement::Failure,
            tx_hash: text("f"),
            parent_dp_hash: text("df"),
        },
        DeferredUpdate::SetTransactionStatus {
            settlement: Settlement::TimedOut,
            tx_hash: text("o"),
            parent_dp_hash: text(""),
        },
        DeferredUpdate::SetBlobVerified {
            tx_hash: text("v"),
            parent_dp_hash: text("dv"),
            blob_index: 2,
        },
        DeferredUpdate::SetProofOutputSettled {
            blob_tx_hash: text("v"),
            blob_parent_dp_hash: text("dv"),
            blob_index: 2,
            blob_proof_output_index: 4,
        },
        DeferredUpdate::SetBlobVerified {
            tx_hash: text("w"),
            parent_dp_hash: text(""),
            blob_index: 0,
        },
        DeferredUpdate::SetContractStateAtBlock {
            state_commitment: vec![1],
            contract_name: text("c"),
            block_hash: text("b"),
        },
        DeferredUpdate::SetContractState { state_commitment: vec![1], contract_name: text("c") },
    ];
    assert_eq!(store.sql_updates, expected);
}

#[test]
fn claims_are_buffered_unsettled() {
    let mut store = IndexerHandlerStore::new();
    let mut block = empty_block("b", 1);
    block.dp_parent_hashes.push(parent("p", "dp_p"));
    block.dp_parent_hashes.push(parent("t", "dp_t"));
    block.blob_proof_outputs.push(HandledBlobProofOutput {
        proof_tx_hash: text("p"),
        blob_tx_hash: text("t"),
        blob_index: 3,
        blob_proof_output_index: usize::MAX,
        contract_name: text("c"),
        hyle_output: text("{}"),
    });
    store.handle_processed_block(&block);

    assert_eq!(store.blob_proof_outputs.len(), 1);
    let row = &store.blob_proof_outputs[0];
    assert_eq!(row.proof_tx_hash, "p");
    assert_eq!(row.proof_parent_dp_hash, "dp_p");
    assert_eq!(row.blob_tx_hash, "t");
    assert_eq!(row.blob_parent_dp_hash, "dp_t");
    assert_eq!(row.blob_index, 3);
    assert_eq!(row.blob_proof_output_index, 0);
    assert_eq!(row.contract_name, "c");
    assert_eq!(row.hyle_output, "{}");
    assert!(!row.settled);
}

fn registration(name: &str, tx: &str, state: u8) -> RegisteredContract {
    RegisteredContract {
        tx_hash: text(tx),
        verifier: text("risc0"),
        program_id: vec![1, 2],
        state_commitment: vec![state],
        contract_name: text(name),
    }
}

#[test]
fn a_registration_clears_an_earlier_deletion() {
    let mut store = IndexerHandlerStore::new();
    let mut first = empty_block("b1", 1);
    first.deleted_contracts.push(text("c"));
    first.deleted_contracts.push(text("d"));
    first.deleted_contracts.push(text("c"));
    store.handle_processed_block(&first);
    assert_eq!(store.deleted_contracts, vec![text("c"), text("d")]);

    let mut second = empty_block("b2", 2);
    second.registered_contracts.push(registration("c", "t", 1));
    second.dp_parent_hashes.push(parent("t", "dp"));
    store.handle_processed_block(&second);

    assert_eq!(store.deleted_contracts, vec![text("d")]);
    assert_eq!(store.contracts.len(), 1);
    assert_eq!(store.contracts[0].contract_name, "c");
    assert_eq!(store.contracts[0].tx_hash, "t");
    assert_eq!(store.contracts[0].parent_data_proposal_hash, "dp");
    assert_eq!(store.contracts[0].verifier, "risc0");
    assert_eq!(store.contracts[0].program_id, vec![1, 2]);
    assert_eq!(store.contract_states.len(), 1);
    assert_eq!(store.contract_states[0].block_hash, "b2");
    assert_eq!(store.contract_states[0].state_commitment, vec![1]);
}

#[test]
fn a_deletion_in_the_same_block_outlives_the_registration() {
    let mut store = IndexerHandlerStore::new();
    let mut block = empty_block("b", 1);
    block.registered_contracts.push(registration("c", "t", 1));
    block.deleted_contracts.push(text("c"));
    store.handle_processed_block(&block);
    assert_eq!(store.contracts.len(), 1);
    assert_eq!(store.deleted_contracts, vec![text("c")]);
}

#[test]
fn a_contract_registered_twice_is_buffered_once_with_its_last_state() {
    let mut store = IndexerHandlerStore::new();
    let mut block = empty_block("b", 1);
    block.registered_contracts.push(registration("c", "t", 1));
    block.registered_contracts.push(registration("d", "t", 5));
    block.registered_contracts.push(registration("c", "u", 2));
    store.handle_processed_block(&block);
    assert_eq!(store.contracts.len(), 2);
    assert_eq!(store.contracts[0].contract_name, "c");
    assert_eq!(store.contracts[0].tx_hash, "u");
    assert_eq!(store.contracts[0].state_commitment, vec![2]);
    assert_eq!(store.contracts[1].contract_name, "d");
    assert_eq!(store.contract_states.len(), 3);
}

#[test]
fn lookups_take_the_first_entry_for_a_transaction() {
    let lanes = vec![
        LaneEntry { tx_hash: text("a"), lane_id: vec![1] },
        LaneEntry { tx_hash: text("b"), lane_id: vec![2] },
        LaneEntry { tx_hash: text("a"), lane_id: vec![3] },
    ];
    assert_eq!(lane_for(&lanes, &text("a")), Some(vec![1]));
    assert_eq!(lane_for(&lanes, &text("b")), Some(vec![2]));
    assert_eq!(lane_for(&lanes, &text("c")), None);
    let parents = vec![parent("a", "d1"), parent("a", "d2")];
    assert_eq!(parent_for(&parents, &text("a")), "d1");
    assert_eq!(parent_for(&parents, &text("z")), "");
}
