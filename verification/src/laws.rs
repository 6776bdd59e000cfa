use crate::flushing::{flushed, lemma_flush};
use crate::indexer::{flush_due, IndexerConf};
use crate::keyed::{
    lemma_put, lemma_put_all_unique, lemma_without_key, put, put_all, ConflictPolicy, Keyed,
};
use crate::mempool::{closing, opening};
use crate::model::{MempoolStatusEventView, TimestampMs};
use crate::rows::{
    BlockRow, TransactionRow, TransactionRowView, TxBlobProofOutputStoreView, TxContractRef,
    TxContractStore, TxDataStore, TxProofStore,
};
use crate::statement::{DeferredUpdateView, StatementView};
use crate::store::StoreView;
use crate::tables::{reparented_transaction, Patched, TablesView};
use crate::writer::{
    batch, block_rows, contract_refs, deletions, transaction_row, transaction_rows, updates,
    when_any,
};
use vstd::prelude::*;

verus! {

/// A row of `transactions` that arrives under a policy can only move a
/// stored status forward. A row that arrives with a block must itself be
/// past the pending statuses; no row may overwrite a stored one outright.
pub open spec fn arrives_forward(row: TransactionRowView, policy: ConflictPolicy) -> bool {
    match policy {
        ConflictPolicy::Ignore => true,
        ConflictPolicy::AdvanceFromWaiting => true,
        ConflictPolicy::AdvanceFromPending => !row.transaction_status.is_pending(),
        ConflictPolicy::Overwrite => false,
    }
}

/// A statement as the indexer writes them: its transactions arrive forward.
pub open spec fn admissible(statement: StatementView) -> bool {
    match statement {
        StatementView::InsertTransactions { rows, on_conflict } => forall|j: int|
            0 <= j < rows.len() ==> arrives_forward(#[trigger] rows[j], on_conflict),
        _ => true,
    }
}

/// `after` is the same transaction as `before`, at the same or a later
/// position of the status lattice.
pub open spec fn follows(before: TransactionRowView, after: TransactionRowView) -> bool {
    &&& after.tx_hash == before.tx_hash
    &&& after.transaction_status.rank() >= before.transaction_status.rank()
}

/// Every row of `before` is still there in `after`, at its place, and has
/// not moved back in the status lattice.
pub open spec fn none_regressed(before: Seq<TransactionRowView>, after: Seq<TransactionRowView>)
    -> bool {
    &&& after.len() >= before.len()
    &&& forall|i: int| 0 <= i < before.len() ==> follows(#[trigger] before[i], after[i])
}

proof fn lemma_put_none_regressed(
    t: Seq<TransactionRowView>,
    row: TransactionRowView,
    policy: ConflictPolicy,
)
    requires
        arrives_forward(row, policy),
    ensures
        none_regressed(t, put::<TransactionRow>(t, row, policy)),
{
    lemma_put::<TransactionRow>(t, row, policy);
}

proof fn lemma_put_all_none_regressed(
    t: Seq<TransactionRowView>,
    rows: Seq<TransactionRowView>,
    policy: ConflictPolicy,
)
    requires
        forall|j: int| 0 <= j < rows.len() ==> arrives_forward(#[trigger] rows[j], policy),
    ensures
        none_regressed(t, put_all::<TransactionRow>(t, rows, policy)),
    decreases rows.len(),
{
    if rows.len() > 0 {
        let head = rows.drop_last();
        assert forall|j: int| 0 <= j < head.len() implies arrives_forward(
            #[trigger] head[j],
            policy,
        ) by {
            assert(head[j] == rows[j]);
        }
        lemma_put_all_none_regressed(t, head, policy);
        let mid = put_all::<TransactionRow>(t, head, policy);
        assert(arrives_forward(rows[rows.len() - 1], policy));
        lemma_put_none_regressed(mid, rows.last(), policy);
        let after = put_all::<TransactionRow>(t, rows, policy);
        assert forall|i: int| 0 <= i < t.len() implies follows(#[trigger] t[i], after[i]) by {
            assert(follows(t[i], mid[i]));
            assert(follows(mid[i], after[i]));
        }
    }
}

/// Statuses only move forward. Whatever admissible statement the backend runs,
/// every stored transaction stays stored, at its place in the table, and its
/// status is at the same or a later position of the lattice than before.
pub proof fn lemma_status_never_regresses(t: TablesView, statement: StatementView)
    requires
        admissible(statement),
        t.step(statement) is Ok,
    ensures
        none_regressed(t.transactions, t.step(statement).unwrap().tables.transactions),
{
    let after = t.step(statement).unwrap().tables.transactions;
    match statement {
        StatementView::InsertTransactions { rows, on_conflict } => {
            lemma_put_all_none_regressed(t.transactions, rows, on_conflict);
        },
        StatementView::Update(update) => {
            assert forall|i: int| 0 <= i < t.transactions.len() implies follows(
                #[trigger] t.transactions[i],
                after[i],
            ) by {
                assert(after[i] == TransactionRow::patched(t.transactions[i], update));
            }
        },
        StatementView::ReparentTransactions { from, to } => {
            assert forall|i: int| 0 <= i < t.transactions.len() implies follows(
                #[trigger] t.transactions[i],
                after[i],
            ) by {
                assert(after[i] == reparented_transaction(t.transactions[i], from, to));
            }
        },
        _ => {},
    }
}

/// Statuses only move forward, over any number of statements: after a run of
/// admissible statements no stored transaction has moved back.
pub proof fn lemma_status_never_regresses_in_runs(t: TablesView, statements: Seq<StatementView>)
    requires
        forall|j: int| 0 <= j < statements.len() ==> admissible(#[trigger] statements[j]),
        t.run(statements) is Ok,
    ensures
        none_regressed(t.transactions, t.run(statements).unwrap().transactions),
    decreases statements.len(),
{
    if statements.len() > 0 {
        let head = statements.drop_last();
        assert forall|j: int| 0 <= j < head.len() implies admissible(#[trigger] head[j]) by {
            assert(head[j] == statements[j]);
        }
        lemma_status_never_regresses_in_runs(t, head);
        let mid = t.run(head).unwrap();
        assert(admissible(statements[statements.len() - 1]));
        lemma_status_never_regresses(mid, statements.last());
        let after = t.run(statements).unwrap();
        assert forall|i: int| 0 <= i < t.transactions.len() implies follows(
            #[trigger] t.transactions[i],
            after.transactions[i],
        ) by {
            assert(follows(t.transactions[i], mid.transactions[i]));
            assert(follows(mid.transactions[i], after.transactions[i]));
        }
    }
}

/// Whether a claim is the one that a confirmation names: all four columns
/// are the same.
pub open spec fn names_claim(
    claim: TxBlobProofOutputStoreView,
    blob_tx_hash: Seq<char>,
    blob_parent_dp_hash: Seq<char>,
    blob_index: i32,
    blob_proof_output_index: i32,
) -> bool {
    &&& claim.blob_tx_hash == blob_tx_hash
    &&& claim.blob_parent_dp_hash == blob_parent_dp_hash
    &&& claim.blob_index == blob_index
    &&& claim.blob_proof_output_index == blob_proof_output_index
}

/// A settlement names one claim. A confirmation that names one proof output
/// settles the claims with exactly its four columns and changes nothing
/// else: every other claim, a competing claim for the same blob with
/// another output index among them, stays as it was, and so does every
/// other table.
pub proof fn lemma_settlement_is_exact(
    t: TablesView,
    blob_tx_hash: Seq<char>,
    blob_parent_dp_hash: Seq<char>,
    blob_index: i32,
    blob_proof_output_index: i32,
)
    ensures
        ({
            let after = t.updated(
                DeferredUpdateView::SetProofOutputSettled {
                    blob_tx_hash,
                    blob_parent_dp_hash,
                    blob_index,
                    blob_proof_output_index,
                },
            );
            &&& after.blob_proof_outputs.len() == t.blob_proof_outputs.len()
            &&& forall|i: int|
                0 <= i < t.blob_proof_outputs.len() ==> #[trigger] after.blob_proof_outputs[i] == (
                if names_claim(
                    t.blob_proof_outputs[i],
                    blob_tx_hash,
                    blob_parent_dp_hash,
                    blob_index,
                    blob_proof_output_index,
                ) {
                    TxBlobProofOutputStoreView { settled: true, ..t.blob_proof_outputs[i] }
                } else {
                    t.blob_proof_outputs[i]
                })
            &&& after == TablesView { blob_proof_outputs: after.blob_proof_outputs, ..t }
        }),
{
    let update = DeferredUpdateView::SetProofOutputSettled {
        blob_tx_hash,
        blob_parent_dp_hash,
        blob_index,
        blob_proof_output_index,
    };
    let after = t.updated(update);
    assert(after.transactions =~= t.transactions);
    assert(after.blobs =~= t.blobs);
    assert(after.contract_state =~= t.contract_state);
    assert(after.contracts =~= t.contracts);
}

/// When the buffer is flushed. A buffer that holds a block is flushed as soon
/// as it holds as many blocks as the configured capacity, and, whatever it
/// holds, as soon as its newest block is younger than the staleness window;
/// for no other reason.
pub proof fn lemma_flush_triggers(s: StoreView, conf: IndexerConf, now: TimestampMs)
    requires
        s.blocks.len() > 0,
    ensures
        s.blocks.len() >= conf.query_buffer_size ==> flush_due(s, conf, now),
        s.blocks.last().block_timestamp + conf.staleness_window_ms > now ==> flush_due(
            s,
            conf,
            now,
        ),
        flush_due(s, conf, now) ==> s.blocks.len() >= conf.query_buffer_size
            || s.blocks.last().block_timestamp + conf.staleness_window_ms > now,
{
}

/// No duplicate rows. Tables that store no key twice still do so after any
/// statement that the backend runs: a block hash, a transaction identity, a
/// blob, a cross-reference, a proof and a contract name each stay unique.
pub proof fn lemma_keys_stay_unique(t: TablesView, statement: StatementView)
    requires
        t.wf(),
        t.step(statement) is Ok,
    ensures
        t.step(statement).unwrap().tables.wf(),
{
    let after = t.step(statement).unwrap().tables;
    match statement {
        StatementView::InsertBlocks(rows) => {
            lemma_put_all_unique::<BlockRow>(t.blocks, rows, ConflictPolicy::Ignore);
        },
        StatementView::InsertTransactions { rows, on_conflict } => {
            lemma_put_all_unique::<TransactionRow>(t.transactions, rows, on_conflict);
        },
        StatementView::InsertBlobs(rows) => {
            lemma_put_all_unique::<TxDataStore>(t.blobs, rows, ConflictPolicy::Ignore);
        },
        StatementView::InsertTxsContracts(rows) => {
            lemma_put_all_unique::<TxContractRef>(t.txs_contracts, rows, ConflictPolicy::Ignore);
        },
        StatementView::InsertProofs(rows) => {
            lemma_put_all_unique::<TxProofStore>(t.proofs, rows, ConflictPolicy::Ignore);
        },
        StatementView::InsertContracts(rows) => {
            lemma_put_all_unique::<TxContractStore>(t.contracts, rows, ConflictPolicy::Overwrite);
        },
        StatementView::DeleteContract(name) => {
            lemma_without_key::<TxContractStore>(t.contracts, name);
        },
        StatementView::Update(update) => {
            assert forall|a: int, b: int|
                0 <= a < b < after.transactions.len() implies TransactionRow::key(
                #[trigger] after.transactions[a],
            ) != TransactionRow::key(#[trigger] after.transactions[b]) by {
                assert(TransactionRow::key(after.transactions[a]) == TransactionRow::key(
                    t.transactions[a],
                ));
                assert(TransactionRow::key(after.transactions[b]) == TransactionRow::key(
                    t.transactions[b],
                ));
            }
            assert forall|a: int, b: int| 0 <= a < b < after.blobs.len() implies TxDataStore::key(
                #[trigger] after.blobs[a],
            ) != TxDataStore::key(#[trigger] after.blobs[b]) by {
                assert(TxDataStore::key(after.blobs[a]) == TxDataStore::key(t.blobs[a]));
                assert(TxDataStore::key(after.blobs[b]) == TxDataStore::key(t.blobs[b]));
            }
            assert forall|a: int, b: int|
                0 <= a < b < after.contracts.len() implies TxContractStore::key(
                #[trigger] after.contracts[a],
            ) != TxContractStore::key(#[trigger] after.contracts[b]) by {
                assert(TxContractStore::key(after.contracts[a]) == TxContractStore::key(
                    t.contracts[a],
                ));
                assert(TxContractStore::key(after.contracts[b]) == TxContractStore::key(
                    t.contracts[b],
                ));
            }
        },
        _ => {},
    }
}

/// The statements of a flush are admissible: a transaction that a block
/// held arrives with the status that its kind has in a block, which is past
/// the pending statuses.
pub proof fn lemma_batch_is_admissible(s: StoreView, now: chrono::NaiveDateTime)
    ensures
        forall|j: int| 0 <= j < batch(s, now).len() ==> admissible(#[trigger] batch(s, now)[j]),
{
    assert forall|j: int| 0 <= j < batch(s, now).len() implies admissible(
        #[trigger] batch(s, now)[j],
    ) by {
        let statement = batch(s, now)[j];
        match statement {
            StatementView::InsertTransactions { rows, on_conflict } => {
                lemma_batch_transactions(s, now, j);
            },
            _ => {},
        }
    }
}

/// The one statement of a flush that carries transactions carries those of
/// the buffer, under the policy for blocks.
proof fn lemma_batch_transactions(s: StoreView, now: chrono::NaiveDateTime, j: int)
    requires
        0 <= j < batch(s, now).len(),
        batch(s, now)[j] is InsertTransactions,
    ensures
        batch(s, now)[j] == (StatementView::InsertTransactions {
            rows: transaction_rows(s.block_txs),
            on_conflict: ConflictPolicy::AdvanceFromPending,
        }),
        admissible(batch(s, now)[j]),
{
    let st1 = StatementView::InsertTransactions {
        rows: transaction_rows(s.block_txs),
        on_conflict: ConflictPolicy::AdvanceFromPending,
    };
    let part0 = seq![StatementView::InsertBlocks(block_rows(s.blocks, now))];
    let part1 = when_any(s.block_txs.len(), st1);
    let part2 = when_any(s.tx_data.len(), StatementView::InsertBlobs(s.tx_data));
    let part3 = when_any(
        s.tx_data.len(),
        StatementView::InsertTxsContracts(contract_refs(s.tx_data)),
    );
    let part4 = when_any(s.tx_data_proofs.len(), StatementView::InsertProofs(s.tx_data_proofs));
    let part5 = when_any(
        s.transactions_events.len(),
        StatementView::InsertTransactionEvents(s.transactions_events),
    );
    let part6 = when_any(s.contracts.len(), StatementView::InsertContracts(s.contracts));
    let part7 = when_any(
        s.contract_states.len(),
        StatementView::InsertContractStates(s.contract_states),
    );
    let part8 = deletions(s.deleted_contracts);
    let part9 = when_any(
        s.blob_proof_outputs.len(),
        StatementView::InsertBlobProofOutputs(s.blob_proof_outputs),
    );
    let part10 = updates(s.sql_updates);
    let upto1 = part0 + part1;
    let upto2 = upto1 + part2;
    let upto3 = upto2 + part3;
    let upto4 = upto3 + part4;
    let upto5 = upto4 + part5;
    let upto6 = upto5 + part6;
    let upto7 = upto6 + part7;
    let upto8 = upto7 + part8;
    let upto9 = upto8 + part9;
    let upto10 = upto9 + part10;
    assert(batch(s, now) == upto10);
    let b = batch(s, now);
    if j < part0.len() {
    } else if j < (upto1).len() {
        assert(b[j] == part1[j - part0.len()]);
    } else if j < (upto2).len() {
        assert(b[j] == part2[j - (upto1).len()]);
    } else if j < (upto3).len() {
        assert(b[j] == part3[j - (upto2).len()]);
    } else if j < (upto4).len() {
        assert(b[j] == part4[j - (upto3).len()]);
    } else if j < (upto5).len() {
        assert(b[j] == part5[j - (upto4).len()]);
    } else if j < (upto6).len() {
        assert(b[j] == part6[j - (upto5).len()]);
    } else if j < (upto7).len() {
        assert(b[j] == part7[j - (upto6).len()]);
    } else if j < (upto8).len() {
        assert(b[j] == part8[j - (upto7).len()]);
    } else if j < (upto9).len() {
        assert(b[j] == part9[j - (upto8).len()]);
    } else {
        assert(b[j] == part10[j - (upto9).len()]);
    }
    assert forall|k: int| 0 <= k < transaction_rows(s.block_txs).len() implies arrives_forward(
        #[trigger] transaction_rows(s.block_txs)[k],
        ConflictPolicy::AdvanceFromPending,
    ) by {
        assert(transaction_rows(s.block_txs)[k] == transaction_row(s.block_txs[k]));
    }
}

/// The statements of an event of the mempool are admissible.
pub proof fn lemma_mempool_statements_are_admissible(
    event: MempoolStatusEventView,
    moved: Seq<Seq<char>>,
)
    ensures
        forall|j: int| 0 <= j < opening(event).len() ==> admissible(#[trigger] opening(event)[j]),
        forall|j: int|
            0 <= j < closing(event, moved).len() ==> admissible(
                #[trigger] closing(event, moved)[j],
            ),
{
}

/// Statuses only move forward in a flush: whatever the buffer holds, no stored
/// transaction has moved back once the buffer has been flushed.
pub proof fn lemma_flush_never_regresses(t: TablesView, s: StoreView, now: chrono::NaiveDateTime)
    ensures
        none_regressed(t.transactions, flushed(t, s, now).transactions),
{
    lemma_flush(t, s, now);
    lemma_batch_is_admissible(s, now);
    lemma_status_never_regresses_in_runs(t, batch(s, now));
}

/// Statuses only move forward in an event of the mempool: no stored
/// transaction has moved back once the statements of the event have run.
pub proof fn lemma_mempool_event_never_regresses(
    t: TablesView,
    event: MempoolStatusEventView,
    moved: Seq<Seq<char>>,
)
    requires
        t.run(opening(event) + closing(event, moved)) is Ok,
    ensures
        none_regressed(
            t.transactions,
            t.run(opening(event) + closing(event, moved)).unwrap().transactions,
        ),
{
    lemma_mempool_statements_are_admissible(event, moved);
    lemma_status_never_regresses_in_runs(t, opening(event) + closing(event, moved));
}

} // verus!
