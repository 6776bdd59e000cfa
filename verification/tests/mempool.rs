use hyle_indexer::ingest::UnsupportedTransactionType;
use hyle_indexer::keyed::ConflictPolicy;
use hyle_indexer::mempool::{opening_statements, reparent_blobs, to_sealed_row, to_waiting_row};
use hyle_indexer::model::{
    Blob, BlobTransaction, MempoolStatusEvent, Transaction, TransactionData, TransactionMetadata,
    TxId,
};
use hyle_indexer::rows::TxDataStore;
use hyle_indexer::statement::Statement;
use hyle_indexer::status::{TransactionKind, TransactionStatusDb, TransactionTypeDb};
use hyle_indexer::store::IndexerHandlerStore;

fn text(s: &str) -> String {
    s.to_string()
}

fn metadata(dp: &str, tx: &str, kind: TransactionKind, version: u32) -> TransactionMetadata {
    TransactionMetadata { version, transaction_kind: kind, id: TxId(text(dp), text(tx)) }
}

fn blob_tx() -> Transaction {
    Transaction {
        version: 2,
        transaction_data: TransactionData::Blob(BlobTransaction {
            identity: text("id"),
            blobs: vec![Blob { contract_name: text("c"), data: vec![1] }],
        }),
    }
}

#[test]
fn a_waiting_transaction_opens_with_one_insert_that_spares_stored_rows() {
    let event = MempoolStatusEvent::WaitingDissemination {
        parent_data_proposal_hash: text("d0"),
        tx_hash: text("t"),
        tx: blob_tx(),
    };
    let statements = opening_statements(&event);
    assert_eq!(statements.len(), 1);
    match &statements[0] {
        Statement::InsertTransactions { rows, on_conflict } => {
            assert_eq!(*on_conflict, ConflictPolicy::Ignore);
            assert_eq!(rows.len(), 1);
            assert_eq!(rows[0], to_waiting_row(&text("d0"), &text("t"), &blob_tx()));
            assert_eq!(rows[0].tx_hash, "t");
            assert_eq!(rows[0].parent_dp_hash, "d0");
            assert_eq!(rows[0].version, 2);
            assert_eq!(rows[0].transaction_type, TransactionTypeDb::BlobTransaction);
            assert_eq!(rows[0].transaction_status, TransactionStatusDb::WaitingDissemination);
            assert_eq!(rows[0].block_hash, None);
            assert_eq!(rows[0].identity, None);
        }
        _ => panic!("a waiting transaction is inserted"),
    }
}

#[test]
fn sealed_transactions_are_reported_once_for_a_key() {
    let event = MempoolStatusEvent::DataProposalCreated {
        parent_data_proposal_hash: text("d0"),
        data_proposal_hash: text("d1"),
        txs_metadatas: vec![
            metadata("d0", "a", TransactionKind::Blob, 1),
            metadata("d0", "b", TransactionKind::VerifiedProof, u32::MAX),
            metadata("d0", "a", TransactionKind::Proof, 7),
            metadata("d5", "a", TransactionKind::Proof, 7),
        ],
    };
    let statements = opening_statements(&event);
    assert_eq!(statements.len(), 2);
    match &statements[0] {
        Statement::InsertTransactions { rows, on_conflict } => {
            assert_eq!(*on_conflict, ConflictPolicy::AdvanceFromWaiting);
            assert_eq!(rows.len(), 3);
            assert_eq!(rows[0], to_sealed_row(&metadata("d0", "a", TransactionKind::Blob, 1)));
            assert_eq!(rows[0].transaction_status, TransactionStatusDb::DataProposalCreated);
            assert_eq!(rows[0].transaction_type, TransactionTypeDb::BlobTransaction);
            assert_eq!(rows[1].tx_hash, "b");
            assert_eq!(rows[1].version, 0);
            assert_eq!(rows[1].transaction_type, TransactionTypeDb::ProofTransaction);
            assert_eq!(rows[2].tx_hash, "a");
            assert_eq!(rows[2].parent_dp_hash, "d5");
        }
        _ => panic!("sealed transactions are inserted first"),
    }
    assert_eq!(
        statements[1],
        Statement::ReparentTransactions { from: text("d0"), to: text("d1") }
    );
}

#[test]
fn a_data_proposal_without_transactions_only_reparents() {
    let event = MempoolStatusEvent::DataProposalCreated {
        parent_data_proposal_hash: text("d0"),
        data_proposal_hash: text("d1"),
        txs_metadatas: vec![],
    };
    assert_eq!(
        opening_statements(&event),
        vec![Statement::ReparentTransactions { from: text("d0"), to: text("d1") }]
    );
}

#[test]
fn closing_a_waiting_transaction_buffers_its_detail() {
    let mut store = IndexerHandlerStore::new();
    let event = MempoolStatusEvent::WaitingDissemination {
        parent_data_proposal_hash: text("d0"),
        tx_hash: text("t"),
        tx: blob_tx(),
    };
    let follow_up = store.close_mempool_event(&event, &vec![]);
    assert!(follow_up.statements.is_empty());
    assert_eq!(follow_up.unsupported, None);
    assert_eq!(store.tx_data.len(), 1);
    assert_eq!(store.tx_data[0].tx_hash, "t");
    assert_eq!(store.tx_data[0].parent_data_proposal_hash, "d0");
    assert_eq!(store.counts().blocks, 0);
}

#[test]
fn closing_a_waiting_proof_reports_that_it_has_no_detail() {
    let mut store = IndexerHandlerStore::new();
    let event = MempoolStatusEvent::WaitingDissemination {
        parent_data_proposal_hash: text("d0"),
        tx_hash: text("t"),
        tx: Transaction { version: 1, transaction_data: TransactionData::Proof },
    };
    let follow_up = store.close_mempool_event(&event, &vec![]);
    assert!(follow_up.statements.is_empty());
    assert_eq!(follow_up.unsupported, Some(UnsupportedTransactionType));
    assert_eq!(store, IndexerHandlerStore::new());
}

fn buffered(tx: &str, dp: &str, index: i32) -> TxDataStore {
    TxDataStore {
        tx_hash: text(tx),
        parent_data_proposal_hash: text(dp),
        blob_index: index,
        identity: text("id"),
        contract_name: text("c"),
        blob_data: vec![index as u8],
        verified: false,
    }
}

#[test]
fn closing_a_data_proposal_moves_buffered_blobs_and_stored_ones() {
    let mut store = IndexerHandlerStore::new();
    store.tx_data.push(buffered("a", "d0", 0));
    store.tx_data.push(buffered("b", "d0", 0));
    store.tx_data.push(buffered("a", "d7", 0));
    let event = MempoolStatusEvent::DataProposalCreated {
        parent_data_proposal_hash: text("d0"),
        data_proposal_hash: text("d1"),
        txs_metadatas: vec![],
    };
    let follow_up = store.close_mempool_event(&event, &vec![text("a"), text("q")]);
    assert_eq!(
        follow_up.statements,
        vec![Statement::ReparentBlobs {
            from: text("d0"),
            to: text("d1"),
            tx_hashes: vec![text("a"), text("q")]
        }]
    );
    assert_eq!(follow_up.unsupported, None);
    assert_eq!(
        store.tx_data,
        vec![buffered("a", "d1", 0), buffered("b", "d0", 0), buffered("a", "d7", 0)]
    );
}

#[test]
fn closing_a_data_proposal_that_moved_nothing_does_nothing() {
    let mut store = IndexerHandlerStore::new();
    store.tx_data.push(buffered("a", "d0", 0));
    let event = MempoolStatusEvent::DataProposalCreated {
        parent_data_proposal_hash: text("d0"),
        data_proposal_hash: text("d1"),
        txs_metadatas: vec![metadata("d0", "a", TransactionKind::Blob, 1)],
    };
    let follow_up = store.close_mempool_event(&event, &vec![]);
    assert!(follow_up.statements.is_empty());
    assert_eq!(store.tx_data, vec![buffered("a", "d0", 0)]);
}

#[test]
fn blobs_keep_everything_but_their_data_proposal() {
    let mut rows = vec![buffered("a", "d0", 3)];
    rows[0].verified = true;
    reparent_blobs(&mut rows, &text("d0"), &text("d1"), &vec![text("a")]);
    let mut expected = buffered("a", "d1", 3);
    expected.verified = true;
    assert_eq!(rows, vec![expected]);
}
