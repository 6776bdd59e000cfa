use hyle_indexer::keyed::{
    all_keys_distinct, append_rows, position, put_row, put_rows, remove_key, ConflictPolicy,
};
use hyle_indexer::rows::{
    TransactionRow, TxBlobProofOutputStore, TxContractStateStore, TxContractStore, TxDataStore,
    TxProofStore,
};
use hyle_indexer::seqs::contains_text;
use hyle_indexer::statement::{DeferredUpdate, Statement};
use hyle_indexer::status::{Settlement, TransactionStatusDb, TransactionTypeDb};
use hyle_indexer::tables::{patch_rows, reparent_transactions, StorageError, Tables};

fn text(s: &str) -> String {
    s.to_string()
}

fn tx_row(tx: &str, dp: &str, status: TransactionStatusDb) -> TransactionRow {
    TransactionRow {
        tx_hash: text(tx),
        parent_dp_hash: text(dp),
        version: 1,
        transaction_type: TransactionTypeDb::BlobTransaction,
        transaction_status: status,
        block_hash: None,
        block_height: None,
        index: None,
        lane_id: None,
        identity: None,
    }
}

fn in_block(tx: &str, dp: &str, status: TransactionStatusDb, block: &str) -> TransactionRow {
    TransactionRow {
        version: 9,
        transaction_type: TransactionTypeDb::ProofTransaction,
        block_hash: Some(text(block)),
        block_height: Some(3),
        index: Some(2),
        lane_id: Some(vec![1]),
        identity: Some(text("id")),
        ..tx_row(tx, dp, status)
    }
}

fn blob(tx: &str, dp: &str, index: i32) -> TxDataStore {
    TxDataStore {
        tx_hash: text(tx),
        parent_data_proposal_hash: text(dp),
        blob_index: index,
        identity: text("id"),
        contract_name: text("c"),
        blob_data: vec![],
        verified: false,
    }
}

fn contract(name: &str, state: u8) -> TxContractStore {
    TxContractStore {
        tx_hash: text("t"),
        parent_data_proposal_hash: text("dp"),
        verifier: text("v"),
        program_id: vec![state],
        state_commitment: vec![state],
        contract_name: text(name),
    }
}

fn insert(rows: Vec<TransactionRow>, on_conflict: ConflictPolicy) -> Statement {
    Statement::InsertTransactions { rows, on_conflict }
}

const ALL: [TransactionStatusDb; 6] = [
    TransactionStatusDb::WaitingDissemination,
    TransactionStatusDb::DataProposalCreated,
    TransactionStatusDb::Sequenced,
    TransactionStatusDb::Success,
    TransactionStatusDb::Failure,
    TransactionStatusDb::TimedOut,
];

#[test]
fn a_block_takes_over_pending_rows_and_leaves_later_ones_their_status() {
    for stored in ALL {
        let mut tables = Tables::new();
        tables.execute(&insert(vec![tx_row("t", "d", stored)], ConflictPolicy::Ignore)).unwrap();
        let arriving = in_block("t", "d", TransactionStatusDb::Sequenced, "b");
        tables.execute(&insert(vec![arriving], ConflictPolicy::AdvanceFromPending)).unwrap();
        assert_eq!(tables.transactions.len(), 1);
        let row = &tables.transactions[0];
        let expected = if stored.lattice_position() < 2 { TransactionStatusDb::Sequenced } else { stored };
        assert_eq!(row.transaction_status, expected);
        assert!(row.transaction_status.lattice_position() >= stored.lattice_position());
        assert_eq!(row.block_hash, Some(text("b")));
        assert_eq!(row.block_height, Some(3));
        assert_eq!(row.index, Some(2));
        assert_eq!(row.lane_id, Some(vec![1]));
        assert_eq!(row.identity, Some(text("id")));
        assert_eq!(row.version, 1);
        assert_eq!(row.transaction_type, TransactionTypeDb::BlobTransaction);
    }
}

#[test]
fn sealing_takes_over_waiting_rows_only() {
    for stored in ALL {
        let mut tables = Tables::new();
        tables.execute(&insert(vec![in_block("t", "d", stored, "b")], ConflictPolicy::Ignore)).unwrap();
        let arriving = tx_row("t", "d", TransactionStatusDb::DataProposalCreated);
        tables.execute(&insert(vec![arriving], ConflictPolicy::AdvanceFromWaiting)).unwrap();
        let expected = if stored == TransactionStatusDb::WaitingDissemination {
            TransactionStatusDb::DataProposalCreated
        } else {
            stored
        };
        assert_eq!(tables.transactions.len(), 1);
        assert_eq!(tables.transactions[0], in_block("t", "d", expected, "b"));
    }
}

#[test]
fn a_settlement_names_one_transaction() {
    let mut tables = Tables::new();
    let rows = vec![
        tx_row("t", "d", TransactionStatusDb::Sequenced),
        tx_row("t", "e", TransactionStatusDb::Sequenced),
        tx_row("u", "d", TransactionStatusDb::Sequenced),
    ];
    tables.execute(&insert(rows, ConflictPolicy::Ignore)).unwrap();
    let update = DeferredUpdate::SetTransactionStatus {
        settlement: Settlement::Failure,
        tx_hash: text("t"),
        parent_dp_hash: text("e"),
    };
    assert_eq!(tables.execute(&Statement::Update(update)), Ok(vec![]));
    assert_eq!(tables.transactions[0].transaction_status, TransactionStatusDb::Sequenced);
    assert_eq!(tables.transactions[1].transaction_status, TransactionStatusDb::Failure);
    assert_eq!(tables.transactions[2].transaction_status, TransactionStatusDb::Sequenced);
}

#[test]
fn a_settlement_of_an_unknown_transaction_changes_nothing() {
    let mut tables = Tables::new();
    tables
        .execute(&insert(vec![tx_row("t", "d", TransactionStatusDb::Sequenced)], ConflictPolicy::Ignore))
        .unwrap();
    let update = DeferredUpdate::SetTransactionStatus {
        settlement: Settlement::Success,
        tx_hash: text("x"),
        parent_dp_hash: text("d"),
    };
    tables.execute(&Statement::Update(update)).unwrap();
    assert_eq!(tables.transactions, vec![tx_row("t", "d", TransactionStatusDb::Sequenced)]);
}

#[test]
fn stored_blobs_and_proofs_are_left_alone() {
    let mut tables = Tables::new();
    let mut first = blob("t", "d", 0);
    first.verified = true;
    tables.execute(&Statement::InsertBlobs(vec![first.clone(), blob("t", "d", 1)])).unwrap();
    let mut again = blob("t", "d", 0);
    again.contract_name = text("other");
    tables.execute(&Statement::InsertBlobs(vec![again, blob("t", "e", 0)])).unwrap();
    assert_eq!(tables.blobs, vec![first, blob("t", "d", 1), blob("t", "e", 0)]);

    let proof = |data: u8| TxProofStore {
        tx_hash: text("t"),
        parent_data_proposal_hash: text("d"),
        proof: vec![data],
    };
    tables.execute(&Statement::InsertProofs(vec![proof(1), proof(2)])).unwrap();
    assert_eq!(tables.proofs, vec![proof(1)]);
}

#[test]
fn a_contract_is_overwritten_by_its_name() {
    let mut tables = Tables::new();
    tables.execute(&Statement::InsertContracts(vec![contract("c", 1), contract("d", 1)])).unwrap();
    tables.execute(&Statement::InsertContracts(vec![contract("c", 2)])).unwrap();
    assert_eq!(tables.contracts, vec![contract("c", 2), contract("d", 1)]);
}

#[test]
fn a_deleted_contract_is_gone_and_can_come_back() {
    let mut tables = Tables::new();
    tables.execute(&Statement::InsertContracts(vec![contract("c", 1), contract("d", 1)])).unwrap();
    tables.execute(&Statement::DeleteContract(text("c"))).unwrap();
    tables.execute(&Statement::DeleteContract(text("unknown"))).unwrap();
    assert_eq!(tables.contracts, vec![contract("d", 1)]);
    tables.execute(&Statement::InsertContracts(vec![contract("c", 3)])).unwrap();
    assert_eq!(tables.contracts, vec![contract("d", 1), contract("c", 3)]);
}

#[test]
fn contract_states_are_rewritten_by_name_and_block() {
    let snapshot = |name: &str, block: &str, state: u8| TxContractStateStore {
        contract_name: text(name),
        block_hash: text(block),
        state_commitment: vec![state],
    };
    let mut tables = Tables::new();
    tables.execute(&Statement::InsertContracts(vec![contract("c", 1), contract("d", 1)])).unwrap();
    tables
        .execute(&Statement::InsertContractStates(vec![
            snapshot("c", "b1", 1),
            snapshot("c", "b2", 1),
            snapshot("d", "b2", 1),
        ]))
        .unwrap();
    tables
        .execute(&Statement::Update(DeferredUpdate::SetContractStateAtBlock {
            state_commitment: vec![7],
            contract_name: text("c"),
            block_hash: text("b2"),
        }))
        .unwrap();
    tables
        .execute(&Statement::Update(DeferredUpdate::SetContractState {
            state_commitment: vec![7],
            contract_name: text("c"),
        }))
        .unwrap();
    assert_eq!(
        tables.contract_state,
        vec![snapshot("c", "b1", 1), snapshot("c", "b2", 7), snapshot("d", "b2", 1)]
    );
    assert_eq!(tables.contracts[0].state_commitment, vec![7]);
    assert_eq!(tables.contracts[0].program_id, vec![1]);
    assert_eq!(tables.contracts[1], contract("d", 1));
}

fn output(proof_tx: &str, blob_tx: &str, dp: &str, index: i32, output_index: i32) -> TxBlobProofOutputStore {
    TxBlobProofOutputStore {
        proof_tx_hash: text(proof_tx),
        proof_parent_dp_hash: text("dp"),
        blob_tx_hash: text(blob_tx),
        blob_parent_dp_hash: text(dp),
        blob_index: index,
        blob_proof_output_index: output_index,
        contract_name: text("c"),
        hyle_output: text("{}"),
        settled: false,
    }
}

#[test]
fn a_claim_is_settled_by_its_four_columns() {
    let mut rows = vec![
        output("p1", "t", "d", 0, 0),
        output("p2", "t", "d", 0, 1),
        output("p3", "t", "d", 1, 1),
        output("p4", "t", "e", 0, 1),
        output("p5", "u", "d", 0, 1),
        output("p6", "t", "d", 0, 1),
    ];
    let update = DeferredUpdate::SetProofOutputSettled {
        blob_tx_hash: text("t"),
        blob_parent_dp_hash: text("d"),
        blob_index: 0,
        blob_proof_output_index: 1,
    };
    patch_rows(&mut rows, &update);
    let settled: Vec<bool> = rows.iter().map(|r| r.settled).collect();
    assert_eq!(settled, vec![false, true, false, false, false, true]);
    assert_eq!(rows[1].proof_tx_hash, "p2");
}

#[test]
fn claims_are_appended_without_a_look_at_their_content() {
    let mut tables = Tables::new();
    let rows = vec![output("p", "t", "d", 0, 0), output("p", "t", "d", 0, 0)];
    tables.execute(&Statement::InsertBlobProofOutputs(rows.clone())).unwrap();
    tables.execute(&Statement::InsertBlobProofOutputs(rows)).unwrap();
    assert_eq!(tables.blob_proof_outputs.len(), 4);
}

#[test]
fn reparenting_hands_back_the_transactions_that_moved() {
    let rows = vec![
        tx_row("a", "d0", TransactionStatusDb::WaitingDissemination),
        tx_row("b", "d0", TransactionStatusDb::DataProposalCreated),
        tx_row("c", "d9", TransactionStatusDb::WaitingDissemination),
        tx_row("d", "d0", TransactionStatusDb::WaitingDissemination),
    ];
    let (moved, hashes) = reparent_transactions(&rows, &text("d0"), &text("d1"));
    assert_eq!(hashes, vec![text("a"), text("d")]);
    assert_eq!(moved[0], tx_row("a", "d1", TransactionStatusDb::WaitingDissemination));
    assert_eq!(moved[1], rows[1]);
    assert_eq!(moved[2], rows[2]);
    assert_eq!(moved[3], tx_row("d", "d1", TransactionStatusDb::WaitingDissemination));

    let mut tables = Tables::new();
    tables.execute(&insert(rows, ConflictPolicy::Ignore)).unwrap();
    let returned = tables
        .execute(&Statement::ReparentTransactions { from: text("d0"), to: text("d1") })
        .unwrap();
    assert_eq!(returned, vec![text("a"), text("d")]);
    assert_eq!(tables.transactions, moved);
}

#[test]
fn a_reparenting_that_would_store_a_key_twice_is_refused() {
    let rows = vec![
        tx_row("a", "d0", TransactionStatusDb::WaitingDissemination),
        tx_row("a", "d1", TransactionStatusDb::Sequenced),
    ];
    let mut tables = Tables::new();
    tables.execute(&insert(rows.clone(), ConflictPolicy::Ignore)).unwrap();
    let refused =
        tables.execute(&Statement::ReparentTransactions { from: text("d0"), to: text("d1") });
    assert_eq!(refused, Err(StorageError::KeyConflict));
    assert_eq!(tables.transactions, rows);

    tables.execute(&Statement::InsertBlobs(vec![blob("a", "d0", 0), blob("a", "d1", 0)])).unwrap();
    let refused = tables.execute(&Statement::ReparentBlobs {
        from: text("d0"),
        to: text("d1"),
        tx_hashes: vec![text("a")],
    });
    assert_eq!(refused, Err(StorageError::KeyConflict));
    assert_eq!(tables.blobs, vec![blob("a", "d0", 0), blob("a", "d1", 0)]);
}

#[test]
fn blobs_move_for_the_named_transactions_only() {
    let mut tables = Tables::new();
    tables
        .execute(&Statement::InsertBlobs(vec![
            blob("a", "d0", 0),
            blob("a", "d0", 1),
            blob("b", "d0", 0),
            blob("a", "d9", 0),
        ]))
        .unwrap();
    tables
        .execute(&Statement::ReparentBlobs {
            from: text("d0"),
            to: text("d1"),
            tx_hashes: vec![text("z"), text("a")],
        })
        .unwrap();
    assert_eq!(
        tables.blobs,
        vec![blob("a", "d1", 0), blob("a", "d1", 1), blob("b", "d0", 0), blob("a", "d9", 0)]
    );
}

#[test]
fn a_refused_statement_undoes_the_whole_run() {
    let mut tables = Tables::new();
    let rows = vec![
        tx_row("a", "d0", TransactionStatusDb::WaitingDissemination),
        tx_row("a", "d1", TransactionStatusDb::Sequenced),
    ];
    tables.execute(&insert(rows.clone(), ConflictPolicy::Ignore)).unwrap();
    let run = vec![
        Statement::InsertBlobs(vec![blob("a", "d0", 0)]),
        Statement::ReparentTransactions { from: text("d0"), to: text("d1") },
        Statement::InsertBlobs(vec![blob("b", "d0", 0)]),
    ];
    assert_eq!(tables.execute_all(&run), Err(StorageError::KeyConflict));
    assert!(tables.blobs.is_empty());
    assert_eq!(tables.transactions, rows);

    let run = vec![
        Statement::InsertBlobs(vec![blob("a", "d0", 0)]),
        Statement::InsertBlobs(vec![blob("b", "d0", 0)]),
    ];
    assert_eq!(tables.execute_all(&run), Ok(()));
    assert_eq!(tables.blobs.len(), 2);
    assert_eq!(tables.execute_all(&vec![]), Ok(()));
    assert_eq!(tables.blobs.len(), 2);
}

#[test]
fn rows_are_found_by_their_first_match() {
    let rows = vec![blob("a", "d", 0), blob("a", "d", 1), blob("a", "d", 0)];
    assert_eq!(position(&rows, &blob("a", "d", 1)), Some(1));
    assert_eq!(position(&rows, &blob("a", "d", 0)), Some(0));
    assert_eq!(position(&rows, &blob("a", "e", 0)), None);
    assert!(!all_keys_distinct(&rows));
    assert!(all_keys_distinct(&rows[..2].to_vec()));
    assert!(all_keys_distinct(&Vec::<TxDataStore>::new()));
}

#[test]
fn arriving_rows_are_stored_one_after_the_other() {
    let mut names: Vec<String> = vec![];
    put_rows(&mut names, &vec![text("a"), text("b"), text("a")], ConflictPolicy::Ignore);
    assert_eq!(names, vec![text("a"), text("b")]);
    put_row(&mut names, &text("c"), ConflictPolicy::Ignore);
    assert_eq!(names, vec![text("a"), text("b"), text("c")]);
    remove_key(&mut names, &text("b"));
    assert_eq!(names, vec![text("a"), text("c")]);
    remove_key(&mut names, &text("zz"));
    assert_eq!(names, vec![text("a"), text("c")]);
    append_rows(&mut names, &vec![text("a")]);
    assert_eq!(names, vec![text("a"), text("c"), text("a")]);
    remove_key(&mut names, &text("a"));
    assert_eq!(names, vec![text("c")]);
    assert!(contains_text(&names, &text("c")));
    assert!(!contains_text(&names, &text("a")));
}
