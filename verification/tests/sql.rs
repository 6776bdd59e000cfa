use chrono::DateTime;
use hyle_indexer::keyed::ConflictPolicy;
use hyle_indexer::rows::{BlockRow, TransactionRow, TxDataStore, TxEventStore};
use hyle_indexer::sql::{on_conflict, Bind, Bound, Piece, Value};
use hyle_indexer::statement::{DeferredUpdate, Statement};
use hyle_indexer::status::{Settlement, TransactionStatusDb, TransactionTypeDb};

fn text(s: &str) -> String {
    s.to_string()
}

fn plain(value: Value) -> Bind {
    Bind { value, cast: "" }
}

fn bound(s: &str) -> Piece {
    Piece::Bind(plain(Value::Text(text(s))))
}

#[test]
fn statuses_and_kinds_have_their_names_in_the_tables() {
    assert_eq!(TransactionStatusDb::WaitingDissemination.db_name(), "waiting_dissemination");
    assert_eq!(TransactionStatusDb::DataProposalCreated.db_name(), "data_proposal_created");
    assert_eq!(TransactionStatusDb::Sequenced.db_name(), "sequenced");
    assert_eq!(TransactionStatusDb::Success.db_name(), "success");
    assert_eq!(TransactionStatusDb::Failure.db_name(), "failure");
    assert_eq!(TransactionStatusDb::TimedOut.db_name(), "timed_out");
    assert_eq!(TransactionTypeDb::BlobTransaction.db_name(), "blob_transaction");
    assert_eq!(TransactionTypeDb::ProofTransaction.db_name(), "proof_transaction");
}

#[test]
fn a_block_is_written_with_its_five_columns() {
    let at = DateTime::from_timestamp_millis(5).unwrap().naive_utc();
    let row = BlockRow { hash: text("b"), parent_hash: text("a"), height: 3, timestamp: at, total_txs: 9 };
    let pieces = Statement::InsertBlocks(vec![row]).to_pieces();
    assert_eq!(
        pieces,
        vec![
            Piece::Text("INSERT INTO blocks (hash, parent_hash, height, timestamp, total_txs) "),
            Piece::Values(vec![vec![
                plain(Value::Text(text("b"))),
                plain(Value::Text(text("a"))),
                plain(Value::BigInt(3)),
                plain(Value::Time(at)),
                plain(Value::BigInt(9)),
            ]]),
            Piece::Text(" ON CONFLICT(hash) DO NOTHING"),
        ]
    );
}

fn transaction() -> TransactionRow {
    TransactionRow {
        tx_hash: text("t"),
        parent_dp_hash: text("d"),
        version: 2,
        transaction_type: TransactionTypeDb::ProofTransaction,
        transaction_status: TransactionStatusDb::Success,
        block_hash: Some(text("b")),
        block_height: Some(4),
        index: None,
        lane_id: Some(vec![0xab]),
        identity: None,
    }
}

#[test]
fn a_transaction_is_written_with_its_ten_columns() {
    assert_eq!(
        transaction().to_binds(),
        vec![
            plain(Value::Text(text("t"))),
            plain(Value::Text(text("d"))),
            plain(Value::Int(2)),
            Bind { value: Value::Text(text("proof_transaction")), cast: "::transaction_type" },
            Bind { value: Value::Text(text("success")), cast: "::transaction_status" },
            plain(Value::OptText(Some(text("b")))),
            plain(Value::OptBigInt(Some(4))),
            plain(Value::OptInt(None)),
            plain(Value::Lane(Some(vec![0xab]))),
            plain(Value::OptText(None)),
        ]
    );
}

#[test]
fn the_policy_of_a_statement_decides_its_conflict_clause() {
    for policy in [
        ConflictPolicy::Ignore,
        ConflictPolicy::Overwrite,
        ConflictPolicy::AdvanceFromPending,
        ConflictPolicy::AdvanceFromWaiting,
    ] {
        let pieces =
            Statement::InsertTransactions { rows: vec![transaction()], on_conflict: policy }
                .to_pieces();
        assert_eq!(pieces.len(), 3);
        assert_eq!(pieces[2], Piece::Text(on_conflict(policy)));
    }
    assert_eq!(on_conflict(ConflictPolicy::Ignore), " ON CONFLICT(tx_hash, parent_dp_hash) DO NOTHING");
    assert!(on_conflict(ConflictPolicy::AdvanceFromPending)
        .contains("when transactions.transaction_status = 'data_proposal_created' THEN EXCLUDED.transaction_status else transactions.transaction_status end"));
    assert!(!on_conflict(ConflictPolicy::AdvanceFromPending).contains("version"));
    assert!(on_conflict(ConflictPolicy::AdvanceFromWaiting)
        .ends_with("WHERE transactions.transaction_status='waiting_dissemination'"));
}

#[test]
fn payloads_are_cast_to_json() {
    let row = TxEventStore {
        block_hash: text("b"),
        block_height: 1,
        index: 0,
        tx_hash: text("t"),
        parent_data_proposal_hash: text("d"),
        events: text("[]"),
    };
    let binds = row.to_binds();
    assert_eq!(binds.len(), 6);
    assert_eq!(binds[5], Bind { value: Value::Text(text("[]")), cast: "::jsonb" });
    let pieces = Statement::InsertTransactionEvents(vec![row]).to_pieces();
    assert_eq!(pieces[2], Piece::Text(""));
}

#[test]
fn blobs_are_written_in_the_order_of_the_statement() {
    let blob = |index: i32| TxDataStore {
        tx_hash: text("t"),
        parent_data_proposal_hash: text("d"),
        blob_index: index,
        identity: text("i"),
        contract_name: text("c"),
        blob_data: vec![7],
        verified: false,
    };
    let pieces = Statement::InsertBlobs(vec![blob(0), blob(1)]).to_pieces();
    assert_eq!(
        pieces[0],
        Piece::Text("INSERT INTO blobs (tx_hash, parent_dp_hash, blob_index, identity, contract_name, data, verified) ")
    );
    assert_eq!(pieces[1], Piece::Values(vec![blob(0).to_binds(), blob(1).to_binds()]));
    assert_eq!(pieces[2], Piece::Text(" ON CONFLICT DO NOTHING"));
    assert_eq!(
        blob(1).to_binds(),
        vec![
            plain(Value::Text(text("t"))),
            plain(Value::Text(text("d"))),
            plain(Value::Int(1)),
            plain(Value::Text(text("i"))),
            plain(Value::Text(text("c"))),
            plain(Value::Bytes(vec![7])),
            plain(Value::Bool(false)),
        ]
    );
}

#[test]
fn a_settlement_names_its_transaction_by_both_hashes() {
    let update = DeferredUpdate::SetTransactionStatus {
        settlement: Settlement::TimedOut,
        tx_hash: text("t"),
        parent_dp_hash: text("d"),
    };
    assert_eq!(
        Statement::Update(update).to_pieces(),
        vec![
            Piece::Text("UPDATE transactions SET transaction_status = "),
            Piece::Bind(Bind { value: Value::Text(text("timed_out")), cast: "::transaction_status" }),
            Piece::Text(" WHERE tx_hash = "),
            bound("t"),
            Piece::Text(" AND parent_dp_hash = "),
            bound("d"),
        ]
    );
}

#[test]
fn the_settlement_of_a_claim_names_its_four_columns() {
    let update = DeferredUpdate::SetProofOutputSettled {
        blob_tx_hash: text("t"),
        blob_parent_dp_hash: text("d"),
        blob_index: 2,
        blob_proof_output_index: 5,
    };
    assert_eq!(
        Statement::Update(update).to_pieces(),
        vec![
            Piece::Text("UPDATE blob_proof_outputs SET settled = true WHERE blob_tx_hash = "),
            bound("t"),
            Piece::Text(" AND blob_parent_dp_hash = "),
            bound("d"),
            Piece::Text(" AND blob_index = "),
            Piece::Bind(plain(Value::Int(2))),
            Piece::Text(" AND blob_proof_output_index = "),
            Piece::Bind(plain(Value::Int(5))),
        ]
    );
}

#[test]
fn the_other_changes_name_their_rows() {
    let verified = DeferredUpdate::SetBlobVerified {
        tx_hash: text("t"),
        parent_dp_hash: text("d"),
        blob_index: 1,
    };
    assert_eq!(
        Statement::Update(verified).to_pieces(),
        vec![
            Piece::Text("UPDATE blobs SET verified = true WHERE tx_hash = "),
            bound("t"),
            Piece::Text(" AND parent_dp_hash = "),
            bound("d"),
            Piece::Text(" AND blob_index = "),
            Piece::Bind(plain(Value::Int(1))),
        ]
    );
    let at_block = DeferredUpdate::SetContractStateAtBlock {
        state_commitment: vec![1],
        contract_name: text("c"),
        block_hash: text("b"),
    };
    assert_eq!(
        Statement::Update(at_block).to_pieces(),
        vec![
            Piece::Text("UPDATE contract_state SET state_commitment = "),
            Piece::Bind(plain(Value::Bytes(vec![1]))),
            Piece::Text(" WHERE contract_name = "),
            bound("c"),
            Piece::Text(" AND block_hash = "),
            bound("b"),
        ]
    );
    let state = DeferredUpdate::SetContractState { state_commitment: vec![1], contract_name: text("c") };
    assert_eq!(
        Statement::Update(state).to_pieces(),
        vec![
            Piece::Text("UPDATE contracts SET state_commitment = "),
            Piece::Bind(plain(Value::Bytes(vec![1]))),
            Piece::Text(" WHERE contract_name = "),
            bound("c"),
        ]
    );
    assert_eq!(
        Statement::DeleteContract(text("c")).to_pieces(),
        vec![Piece::Text("DELETE FROM contracts WHERE contract_name = "), bound("c")]
    );
}

#[test]
fn reparenting_binds_the_new_data_proposal_first() {
    assert_eq!(
        Statement::ReparentTransactions { from: text("d0"), to: text("d1") }.to_pieces(),
        vec![
            Piece::Text("UPDATE transactions SET parent_dp_hash = "),
            bound("d1"),
            Piece::Text(" WHERE parent_dp_hash = "),
            bound("d0"),
            Piece::Text(" AND transaction_status = 'waiting_dissemination' RETURNING tx_hash"),
        ]
    );
    assert_eq!(
        Statement::ReparentBlobs {
            from: text("d0"),
            to: text("d1"),
            tx_hashes: vec![text("a"), text("b")]
        }
        .to_pieces(),
        vec![
            Piece::Text("UPDATE blobs SET parent_dp_hash = "),
            bound("d1"),
            Piece::Text(" WHERE parent_dp_hash = "),
            bound("d0"),
            Piece::Text(" AND tx_hash in "),
            Piece::Tuples(vec![
                vec![plain(Value::Text(text("a")))],
                vec![plain(Value::Text(text("b")))]
            ]),
        ]
    );
}
