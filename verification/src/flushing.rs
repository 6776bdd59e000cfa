use crate::ingest::{lemma_with_block_keeps_keys_unique, with_block};
use crate::keyed::{
    first_match, has_key, lemma_put, lemma_put_all_ignore_twice, lemma_put_all_ignored,
    lemma_put_all_keeps_keys, lemma_put_all_unique, put_all, unique_keys, without_key,
    ConflictPolicy, Keyed,
};
use crate::model::BlockView;
use crate::rows::{
    BlockRow, TransactionRow, TransactionRowView, TxBlobProofOutputStore, TxContractRef,
    TxContractStateStore, TxContractStore, TxDataStore, TxDataStoreView, TxProofStore,
};
use crate::statement::{DeferredUpdateView, StatementView};
use crate::status::TransactionStatusDb;
use crate::store::{BufferedTx, StoreView};
use crate::tables::{patched_rows, Patched, StorageError, TablesView};
use crate::writer::{
    batch, block_rows, contract_refs, deletions, transaction_row, transaction_rows, updates,
    when_any,
};
use vstd::prelude::*;

verus! {

/// The rows of a table after the queued changes, in the order of the queue.
pub open spec fn patched_all<R: Patched>(rows: Seq<R::V>, queue: Seq<DeferredUpdateView>) -> Seq<
    R::V,
>
    decreases queue.len(),
{
    if queue.len() == 0 {
        rows
    } else {
        patched_rows::<R>(patched_all::<R>(rows, queue.drop_last()), queue.last())
    }
}

/// The table without the rows that hold one of the keys.
pub open spec fn without_keys<R: Keyed>(t: Seq<R::V>, keys: Seq<R::Key>) -> Seq<R::V>
    decreases keys.len(),
{
    if keys.len() == 0 {
        t
    } else {
        without_key::<R>(without_keys::<R>(t, keys.drop_last()), keys.last())
    }
}

/// The tables after the queued changes, in the order of the queue.
pub open spec fn updated_all(t: TablesView, queue: Seq<DeferredUpdateView>) -> TablesView
    decreases queue.len(),
{
    if queue.len() == 0 {
        t
    } else {
        updated_all(t, queue.drop_last()).updated(queue.last())
    }
}

/// The tables after a flush of the buffer `s`, table by table: the rows of
/// the buffer have arrived under the policy of their table, the contracts
/// marked deleted are gone, and the queued changes have run over the result.
pub open spec fn flushed(t: TablesView, s: StoreView, now: chrono::NaiveDateTime) -> TablesView {
    if s.blocks.len() == 0 {
        t
    } else {
        updated_all(
            TablesView {
                blocks: put_all::<BlockRow>(
                    t.blocks,
                    block_rows(s.blocks, now),
                    ConflictPolicy::Ignore,
                ),
                transactions: put_all::<TransactionRow>(
                    t.transactions,
                    transaction_rows(s.block_txs),
                    ConflictPolicy::AdvanceFromPending,
                ),
                blobs: put_all::<TxDataStore>(t.blobs, s.tx_data, ConflictPolicy::Ignore),
                txs_contracts: put_all::<TxContractRef>(
                    t.txs_contracts,
                    contract_refs(s.tx_data),
                    ConflictPolicy::Ignore,
                ),
                proofs: put_all::<TxProofStore>(
                    t.proofs,
                    s.tx_data_proofs,
                    ConflictPolicy::Ignore,
                ),
                transaction_state_events: t.transaction_state_events + s.transactions_events,
                contracts: without_keys::<TxContractStore>(
                    put_all::<TxContractStore>(
                        t.contracts,
                        s.contracts,
                        ConflictPolicy::Overwrite,
                    ),
                    s.deleted_contracts,
                ),
                contract_state: t.contract_state + s.contract_states,
                blob_proof_outputs: t.blob_proof_outputs + s.blob_proof_outputs,
            },
            s.sql_updates,
        )
    }
}

/// A run of two lists of statements, one after the other, is the run of the
/// second on what the first left.
pub proof fn lemma_run_concat(t: TablesView, first: Seq<StatementView>, second: Seq<StatementView>)
    ensures
        t.run(first + second) == match t.run(first) {
            Ok(mid) => mid.run(second),
            Err(e) => Err(e),
        },
    decreases second.len(),
{
    if second.len() == 0 {
        assert(first + second =~= first);
    } else {
        assert((first + second).drop_last() =~= first + second.drop_last());
        assert((first + second).last() == second.last());
        lemma_run_concat(t, first, second.drop_last());
    }
}

/// A run of one statement is what the statement does.
pub proof fn lemma_run_one(t: TablesView, statement: StatementView)
    ensures
        t.run(seq![statement]) == match t.step(statement) {
            Ok(effect) => Ok::<TablesView, StorageError>(effect.tables),
            Err(e) => Err(e),
        },
{
    let one = seq![statement];
    assert(one.drop_last() =~= Seq::<StatementView>::empty());
    assert(one.last() == statement);
    assert(t.run(one.drop_last()) == Ok::<TablesView, StorageError>(t));
}

/// A statement that is left out where it has no rows runs as itself where it
/// has some.
pub proof fn lemma_run_when_any(t: TablesView, rows: nat, statement: StatementView)
    ensures
        t.run(when_any(rows, statement)) == if rows > 0 {
            match t.step(statement) {
                Ok(effect) => Ok::<TablesView, StorageError>(effect.tables),
                Err(e) => Err(e),
            }
        } else {
            Ok(t)
        },
{
    if rows > 0 {
        lemma_run_one(t, statement);
    }
}

proof fn lemma_run_deletions(t: TablesView, names: Seq<Seq<char>>)
    ensures
        t.run(deletions(names)) == Ok::<TablesView, StorageError>(
            TablesView { contracts: without_keys::<TxContractStore>(t.contracts, names), ..t },
        ),
    decreases names.len(),
{
    if names.len() == 0 {
        assert(deletions(names) =~= Seq::<StatementView>::empty());
    } else {
        lemma_run_deletions(t, names.drop_last());
        assert(deletions(names).drop_last() =~= deletions(names.drop_last()));
        assert(deletions(names).last() == StatementView::DeleteContract(names.last()));
    }
}

proof fn lemma_run_updates(t: TablesView, queue: Seq<DeferredUpdateView>)
    ensures
        t.run(updates(queue)) == Ok::<TablesView, StorageError>(updated_all(t, queue)),
    decreases queue.len(),
{
    if queue.len() == 0 {
        assert(updates(queue) =~= Seq::<StatementView>::empty());
    } else {
        lemma_run_updates(t, queue.drop_last());
        assert(updates(queue).drop_last() =~= updates(queue.drop_last()));
        assert(updates(queue).last() == StatementView::Update(queue.last()));
    }
}

/// What a flush does. The statements of a buffer, run in their order on any
/// tables, are never refused, and leave the tables that `flushed` describes
/// table by table.
pub proof fn lemma_flush(t: TablesView, s: StoreView, now: chrono::NaiveDateTime)
    ensures
        t.run(batch(s, now)) == Ok::<TablesView, StorageError>(flushed(t, s, now)),
{
    if s.blocks.len() == 0 {
        return ;
    }
    let st0 = StatementView::InsertBlocks(block_rows(s.blocks, now));
    let st1 = StatementView::InsertTransactions {
        rows: transaction_rows(s.block_txs),
        on_conflict: ConflictPolicy::AdvanceFromPending,
    };
    let st2 = StatementView::InsertBlobs(s.tx_data);
    let st3 = StatementView::InsertTxsContracts(contract_refs(s.tx_data));
    let st4 = StatementView::InsertProofs(s.tx_data_proofs);
    let st5 = StatementView::InsertTransactionEvents(s.transactions_events);
    let st6 = StatementView::InsertContracts(s.contracts);
    let st7 = StatementView::InsertContractStates(s.contract_states);
    let st9 = StatementView::InsertBlobProofOutputs(s.blob_proof_outputs);
    let part0 = seq![st0];
    let part1 = when_any(s.block_txs.len(), st1);
    let part2 = when_any(s.tx_data.len(), st2);
    let part3 = when_any(s.tx_data.len(), st3);
    let part4 = when_any(s.tx_data_proofs.len(), st4);
    let part5 = when_any(s.transactions_events.len(), st5);
    let part6 = when_any(s.contracts.len(), st6);
    let part7 = when_any(s.contract_states.len(), st7);
    let part8 = deletions(s.deleted_contracts);
    let part9 = when_any(s.blob_proof_outputs.len(), st9);
    let part10 = updates(s.sql_updates);
    let upto1 = part0 + part1;
    let upto2 = upto1 + part2;
    let upto3 = upto2 + part3;
    let upto4 = upto3 + part4;
    let upto5 = upto4 + part5;
    let upto6 = upto5 + part6;
    let upto7 = upto6 + part7;
    let upto8 = upto7 + part8;
    let upto9 = upto8 + part9;
    let upto10 = upto9 + part10;
    assert(batch(s, now) == upto10);

    let t0 = TablesView {
        blocks: put_all::<BlockRow>(t.blocks, block_rows(s.blocks, now), ConflictPolicy::Ignore),
        ..t
    };
    lemma_run_one(t, st0);
    assert(t.run(part0) == Ok::<TablesView, StorageError>(t0));

    let t1 = TablesView {
        transactions: put_all::<TransactionRow>(
            t.transactions,
            transaction_rows(s.block_txs),
            ConflictPolicy::AdvanceFromPending,
        ),
        ..t0
    };
    lemma_run_when_any(t0, s.block_txs.len(), st1);
    lemma_run_concat(t, part0, part1);
    assert(t.run(upto1) == Ok::<TablesView, StorageError>(t1)) by {
        if s.block_txs.len() == 0 {
            assert(transaction_rows(s.block_txs).len() == 0);
            assert(t1 =~= t0);
        }
    }

    let t2 = TablesView {
        blobs: put_all::<TxDataStore>(t.blobs, s.tx_data, ConflictPolicy::Ignore),
        ..t1
    };
    lemma_run_when_any(t1, s.tx_data.len(), st2);
    lemma_run_concat(t, upto1, part2);
    assert(t.run(upto2) == Ok::<TablesView, StorageError>(t2)) by {
        if s.tx_data.len() == 0 {
            assert(t2 =~= t1);
        }
    }

    let t3 = TablesView {
        txs_contracts: put_all::<TxContractRef>(
            t.txs_contracts,
            contract_refs(s.tx_data),
            ConflictPolicy::Ignore,
        ),
        ..t2
    };
    lemma_run_when_any(t2, s.tx_data.len(), st3);
    lemma_run_concat(t, upto2, part3);
    assert(t.run(upto3) == Ok::<TablesView, StorageError>(t3)) by {
        if s.tx_data.len() == 0 {
            assert(contract_refs(s.tx_data).len() == 0);
            assert(t3 =~= t2);
        }
    }

    let t4 = TablesView {
        proofs: put_all::<TxProofStore>(t.proofs, s.tx_data_proofs, ConflictPolicy::Ignore),
        ..t3
    };
    lemma_run_when_any(t3, s.tx_data_proofs.len(), st4);
    lemma_run_concat(t, upto3, part4);
    assert(t.run(upto4) == Ok::<TablesView, StorageError>(t4)) by {
        if s.tx_data_proofs.len() == 0 {
            assert(t4 =~= t3);
        }
    }

    let t5 = TablesView {
        transaction_state_events: t.transaction_state_events + s.transactions_events,
        ..t4
    };
    lemma_run_when_any(t4, s.transactions_events.len(), st5);
    lemma_run_concat(t, upto4, part5);
    assert(t.run(upto5) == Ok::<TablesView, StorageError>(t5)) by {
        if s.transactions_events.len() == 0 {
            assert(t5 =~= t4);
        }
    }

    let t6 = TablesView {
        contracts: put_all::<TxContractStore>(t.contracts, s.contracts, ConflictPolicy::Overwrite),
        ..t5
    };
    lemma_run_when_any(t5, s.contracts.len(), st6);
    lemma_run_concat(t, upto5, part6);
    assert(t.run(upto6) == Ok::<TablesView, StorageError>(t6)) by {
        if s.contracts.len() == 0 {
            assert(t6 =~= t5);
        }
    }

    let t7 = TablesView { contract_state: t.contract_state + s.contract_states, ..t6 };
    lemma_run_when_any(t6, s.contract_states.len(), st7);
    lemma_run_concat(t, upto6, part7);
    assert(t.run(upto7) == Ok::<TablesView, StorageError>(t7)) by {
        if s.contract_states.len() == 0 {
            assert(t7 =~= t6);
        }
    }

    let t8 = TablesView {
        contracts: without_keys::<TxContractStore>(t6.contracts, s.deleted_contracts),
        ..t7
    };
    lemma_run_deletions(t7, s.deleted_contracts);
    lemma_run_concat(t, upto7, part8);
    assert(t.run(upto8) == Ok::<TablesView, StorageError>(t8));

    let t9 = TablesView {
        blob_proof_outputs: t.blob_proof_outputs + s.blob_proof_outputs,
        ..t8
    };
    lemma_run_when_any(t8, s.blob_proof_outputs.len(), st9);
    lemma_run_concat(t, upto8, part9);
    assert(t.run(upto9) == Ok::<
        TablesView,
        StorageError,
    >(t9)) by {
        if s.blob_proof_outputs.len() == 0 {
            assert(t9 =~= t8);
        }
    }

    lemma_run_updates(t9, s.sql_updates);
    lemma_run_concat(t, upto9, part10);
}

/// Queued changes leave the tables that they do not speak of as they are,
/// and change the others row by row.
pub proof fn lemma_updated_all(t: TablesView, queue: Seq<DeferredUpdateView>)
    ensures
        updated_all(t, queue).blocks == t.blocks,
        updated_all(t, queue).txs_contracts == t.txs_contracts,
        updated_all(t, queue).proofs == t.proofs,
        updated_all(t, queue).transaction_state_events == t.transaction_state_events,
        updated_all(t, queue).transactions == patched_all::<TransactionRow>(t.transactions, queue),
        updated_all(t, queue).blobs == patched_all::<TxDataStore>(t.blobs, queue),
        updated_all(t, queue).contracts == patched_all::<TxContractStore>(t.contracts, queue),
        updated_all(t, queue).contract_state == patched_all::<TxContractStateStore>(
            t.contract_state,
            queue,
        ),
        updated_all(t, queue).blob_proof_outputs == patched_all::<TxBlobProofOutputStore>(
            t.blob_proof_outputs,
            queue,
        ),
    decreases queue.len(),
{
    if queue.len() > 0 {
        lemma_updated_all(t, queue.drop_last());
    }
}

/// Whether a queued change confirms the blob of a row.
pub open spec fn confirms(update: DeferredUpdateView, v: TxDataStoreView) -> bool {
    update matches DeferredUpdateView::SetBlobVerified { tx_hash, parent_dp_hash, blob_index }
        && v.tx_hash == tx_hash && v.parent_data_proposal_hash == parent_dp_hash && v.blob_index
        == blob_index
}

/// Whether one of the queued changes confirms the blob of a row.
pub open spec fn confirmed_by(queue: Seq<DeferredUpdateView>, v: TxDataStoreView) -> bool {
    exists|j: int| 0 <= j < queue.len() && confirms(#[trigger] queue[j], v)
}

/// A row of `blobs` after queued changes: verified if it was, or if one of
/// the changes confirms it.
pub open spec fn confirmed(v: TxDataStoreView, queue: Seq<DeferredUpdateView>) -> TxDataStoreView {
    TxDataStoreView { verified: v.verified || confirmed_by(queue, v), ..v }
}

/// Queued changes do one thing to `blobs`: they mark as verified the rows
/// that one of them confirms.
pub proof fn lemma_blobs_after_updates(rows: Seq<TxDataStoreView>, queue: Seq<DeferredUpdateView>)
    ensures
        patched_all::<TxDataStore>(rows, queue).len() == rows.len(),
        forall|i: int|
            0 <= i < rows.len() ==> #[trigger] patched_all::<TxDataStore>(rows, queue)[i]
                == confirmed(rows[i], queue),
    decreases queue.len(),
{
    if queue.len() == 0 {
        assert forall|i: int| 0 <= i < rows.len() implies rows[i] == confirmed(
            #[trigger] rows[i],
            queue,
        ) by {
            assert(!confirmed_by(queue, rows[i]));
        }
    } else {
        let head = queue.drop_last();
        lemma_blobs_after_updates(rows, head);
        let mid = patched_all::<TxDataStore>(rows, head);
        let after = patched_all::<TxDataStore>(rows, queue);
        assert forall|i: int| 0 <= i < rows.len() implies #[trigger] after[i] == confirmed(
            rows[i],
            queue,
        ) by {
            let v = rows[i];
            assert(mid[i] == confirmed(v, head));
            assert(after[i] == TxDataStore::patched(mid[i], queue.last()));
            assert(confirms(queue.last(), mid[i]) == confirms(queue.last(), v));
            if confirmed_by(head, v) {
                let j = choose|j: int| 0 <= j < head.len() && confirms(#[trigger] head[j], v);
                assert(head[j] == queue[j]);
                assert(confirmed_by(queue, v));
            }
            if confirms(queue.last(), v) {
                assert(queue[queue.len() - 1] == queue.last());
                assert(confirmed_by(queue, v));
            }
            if confirmed_by(queue, v) {
                let j = choose|j: int| 0 <= j < queue.len() && confirms(#[trigger] queue[j], v);
                if j < head.len() {
                    assert(head[j] == queue[j]);
                    assert(confirmed_by(head, v));
                } else {
                    assert(confirms(queue.last(), v));
                }
            }
        }
    }
}

/// Running the queued changes a second time changes no row of `blobs`.
pub proof fn lemma_blobs_updates_twice(rows: Seq<TxDataStoreView>, queue: Seq<DeferredUpdateView>)
    ensures
        patched_all::<TxDataStore>(patched_all::<TxDataStore>(rows, queue), queue)
            == patched_all::<TxDataStore>(rows, queue),
{
    let once = patched_all::<TxDataStore>(rows, queue);
    let twice = patched_all::<TxDataStore>(once, queue);
    lemma_blobs_after_updates(rows, queue);
    lemma_blobs_after_updates(once, queue);
    assert forall|i: int| 0 <= i < once.len() implies twice[i] == once[i] by {
        let v = rows[i];
        assert(once[i] == confirmed(v, queue));
        assert(twice[i] == confirmed(once[i], queue));
        if confirmed_by(queue, once[i]) {
            let j = choose|j: int| 0 <= j < queue.len() && confirms(#[trigger] queue[j], once[i]);
            assert(confirms(queue[j], v));
            assert(confirmed_by(queue, v));
        }
    }
    assert(twice =~= once);
}

/// A replay changes nothing. A buffer that is flushed a second time, as
/// happens when the same block is indexed and flushed twice, changes no row of
/// the tables whose stored keys are left alone: `blocks`, `blobs`,
/// `txs_contracts` and `proofs` hold after the second flush what they held
/// after the first.
pub proof fn lemma_replay_changes_nothing(t: TablesView, s: StoreView, now: chrono::NaiveDateTime)
    ensures
        flushed(flushed(t, s, now), s, now).blocks == flushed(t, s, now).blocks,
        flushed(flushed(t, s, now), s, now).blobs == flushed(t, s, now).blobs,
        flushed(flushed(t, s, now), s, now).txs_contracts == flushed(t, s, now).txs_contracts,
        flushed(flushed(t, s, now), s, now).proofs == flushed(t, s, now).proofs,
{
    if s.blocks.len() == 0 {
        return ;
    }
    let once = flushed(t, s, now);
    let twice = flushed(once, s, now);
    let queue = s.sql_updates;
    let arrived = TablesView {
        blocks: put_all::<BlockRow>(t.blocks, block_rows(s.blocks, now), ConflictPolicy::Ignore),
        transactions: put_all::<TransactionRow>(
            t.transactions,
            transaction_rows(s.block_txs),
            ConflictPolicy::AdvanceFromPending,
        ),
        blobs: put_all::<TxDataStore>(t.blobs, s.tx_data, ConflictPolicy::Ignore),
        txs_contracts: put_all::<TxContractRef>(
            t.txs_contracts,
            contract_refs(s.tx_data),
            ConflictPolicy::Ignore,
        ),
        proofs: put_all::<TxProofStore>(t.proofs, s.tx_data_proofs, ConflictPolicy::Ignore),
        transaction_state_events: t.transaction_state_events + s.transactions_events,
        contracts: without_keys::<TxContractStore>(
            put_all::<TxContractStore>(t.contracts, s.contracts, ConflictPolicy::Overwrite),
            s.deleted_contracts,
        ),
        contract_state: t.contract_state + s.contract_states,
        blob_proof_outputs: t.blob_proof_outputs + s.blob_proof_outputs,
    };
    assert(once == updated_all(arrived, queue));
    lemma_updated_all(arrived, queue);
    let arrived_again = TablesView {
        blocks: put_all::<BlockRow>(
            once.blocks,
            block_rows(s.blocks, now),
            ConflictPolicy::Ignore,
        ),
        transactions: put_all::<TransactionRow>(
            once.transactions,
            transaction_rows(s.block_txs),
            ConflictPolicy::AdvanceFromPending,
        ),
        blobs: put_all::<TxDataStore>(once.blobs, s.tx_data, ConflictPolicy::Ignore),
        txs_contracts: put_all::<TxContractRef>(
            once.txs_contracts,
            contract_refs(s.tx_data),
            ConflictPolicy::Ignore,
        ),
        proofs: put_all::<TxProofStore>(once.proofs, s.tx_data_proofs, ConflictPolicy::Ignore),
        transaction_state_events: once.transaction_state_events + s.transactions_events,
        contracts: without_keys::<TxContractStore>(
            put_all::<TxContractStore>(once.contracts, s.contracts, ConflictPolicy::Overwrite),
            s.deleted_contracts,
        ),
        contract_state: once.contract_state + s.contract_states,
        blob_proof_outputs: once.blob_proof_outputs + s.blob_proof_outputs,
    };
    assert(twice == updated_all(arrived_again, queue));
    lemma_updated_all(arrived_again, queue);

    lemma_put_all_ignore_twice::<BlockRow>(t.blocks, block_rows(s.blocks, now));
    lemma_put_all_ignore_twice::<TxContractRef>(t.txs_contracts, contract_refs(s.tx_data));
    lemma_put_all_ignore_twice::<TxProofStore>(t.proofs, s.tx_data_proofs);

    // The blobs of the buffer are all stored after the first flush, each
    // under its key, so they change nothing when they arrive again.
    lemma_put_all_keeps_keys::<TxDataStore>(t.blobs, s.tx_data, ConflictPolicy::Ignore);
    lemma_blobs_after_updates(arrived.blobs, queue);
    assert forall|j: int| 0 <= j < s.tx_data.len() implies has_key::<TxDataStore>(
        once.blobs,
        TxDataStore::key(#[trigger] s.tx_data[j]),
    ) by {
        let k = TxDataStore::key(s.tx_data[j]);
        assert(has_key::<TxDataStore>(arrived.blobs, k));
        let w = choose|w: int|
            0 <= w < arrived.blobs.len() && TxDataStore::key(#[trigger] arrived.blobs[w]) == k;
        assert(once.blobs[w] == confirmed(arrived.blobs[w], queue));
        assert(TxDataStore::key(once.blobs[w]) == k);
    }
    lemma_put_all_ignored::<TxDataStore>(once.blobs, s.tx_data);
    lemma_blobs_updates_twice(arrived.blobs, queue);
}

/// Whether a queued change settles the transaction of a row.
pub open spec fn settles(update: DeferredUpdateView, v: TransactionRowView) -> bool {
    update matches DeferredUpdateView::SetTransactionStatus { settlement, tx_hash, parent_dp_hash }
        && v.tx_hash == tx_hash && v.parent_dp_hash == parent_dp_hash
}

/// The status of a row of `transactions` after queued changes: that of the
/// last change that settles it, or its own where none does.
pub open spec fn settled_status(v: TransactionRowView, queue: Seq<DeferredUpdateView>)
    -> TransactionStatusDb
    decreases queue.len(),
{
    if queue.len() == 0 {
        v.transaction_status
    } else if settles(queue.last(), v) {
        queue.last()->settlement.status()
    } else {
        settled_status(v, queue.drop_last())
    }
}

/// Queued changes do one thing to `transactions`: they give a row the status
/// of the last change that settles it.
pub proof fn lemma_transactions_after_updates(
    rows: Seq<TransactionRowView>,
    queue: Seq<DeferredUpdateView>,
)
    ensures
        patched_all::<TransactionRow>(rows, queue).len() == rows.len(),
        forall|i: int|
            0 <= i < rows.len() ==> #[trigger] patched_all::<TransactionRow>(rows, queue)[i] == (
            TransactionRowView {
                transaction_status: settled_status(rows[i], queue),
                ..rows[i]
            }),
    decreases queue.len(),
{
    if queue.len() > 0 {
        let head = queue.drop_last();
        lemma_transactions_after_updates(rows, head);
        let mid = patched_all::<TransactionRow>(rows, head);
        let after = patched_all::<TransactionRow>(rows, queue);
        assert forall|i: int| 0 <= i < rows.len() implies #[trigger] after[i] == (
        TransactionRowView { transaction_status: settled_status(rows[i], queue), ..rows[i] }) by {
            assert(after[i] == TransactionRow::patched(mid[i], queue.last()));
            assert(settles(queue.last(), mid[i]) == settles(queue.last(), rows[i]));
        }
    }
}

/// A row that has the status that queued changes give it keeps that status
/// when the changes run again.
proof fn lemma_settled_twice(
    v: TransactionRowView,
    again: TransactionRowView,
    queue: Seq<DeferredUpdateView>,
)
    requires
        again.tx_hash == v.tx_hash,
        again.parent_dp_hash == v.parent_dp_hash,
        again.transaction_status == settled_status(v, queue),
    ensures
        settled_status(again, queue) == settled_status(v, queue),
    decreases queue.len(),
{
    if queue.len() > 0 {
        if !settles(queue.last(), v) {
            lemma_settled_twice(v, again, queue.drop_last());
        }
    }
}

/// Queued changes never bring a status back among the pending ones.
proof fn lemma_settled_is_not_pending(v: TransactionRowView, queue: Seq<DeferredUpdateView>)
    requires
        !v.transaction_status.is_pending(),
    ensures
        !settled_status(v, queue).is_pending(),
    decreases queue.len(),
{
    if queue.len() > 0 {
        lemma_settled_is_not_pending(v, queue.drop_last());
    }
}

/// Whether a stored row already holds what a row that arrives with a block
/// would give it: the same key and block columns, and a status that the
/// block cannot overwrite.
pub open spec fn holds(stored: TransactionRowView, arriving: TransactionRowView) -> bool {
    &&& TransactionRow::key(stored) == TransactionRow::key(arriving)
    &&& stored.block_hash == arriving.block_hash
    &&& stored.block_height == arriving.block_height
    &&& stored.index == arriving.index
    &&& stored.lane_id == arriving.lane_id
    &&& stored.identity == arriving.identity
    &&& !stored.transaction_status.is_pending()
}

/// Whether some row of the table holds the arriving row.
pub open spec fn held(x: Seq<TransactionRowView>, arriving: TransactionRowView) -> bool {
    exists|w: int| 0 <= w < x.len() && holds(#[trigger] x[w], arriving)
}

/// After rows with distinct keys have arrived with a block, the table holds
/// each of them.
proof fn lemma_arrived_are_held(t: Seq<TransactionRowView>, rows: Seq<TransactionRowView>)
    requires
        unique_keys::<TransactionRow>(rows),
        forall|j: int|
            0 <= j < rows.len() ==> !(#[trigger] rows[j]).transaction_status.is_pending(),
    ensures
        forall|j: int|
            0 <= j < rows.len() ==> held(
                put_all::<TransactionRow>(t, rows, ConflictPolicy::AdvanceFromPending),
                #[trigger] rows[j],
            ),
    decreases rows.len(),
{
    let policy = ConflictPolicy::AdvanceFromPending;
    if rows.len() > 0 {
        let head = rows.drop_last();
        let last = rows.last();
        assert(rows[rows.len() - 1] == last);
        assert forall|a: int, b: int| 0 <= a < b < head.len() implies TransactionRow::key(
            #[trigger] head[a],
        ) != TransactionRow::key(#[trigger] head[b]) by {
            assert(head[a] == rows[a]);
            assert(head[b] == rows[b]);
        }
        assert forall|j: int| 0 <= j < head.len() implies !(
        #[trigger] head[j]).transaction_status.is_pending() by {
            assert(head[j] == rows[j]);
        }
        lemma_arrived_are_held(t, head);
        let mid = put_all::<TransactionRow>(t, head, policy);
        let after = put_all::<TransactionRow>(t, rows, policy);
        lemma_put::<TransactionRow>(mid, last, policy);
        assert forall|j: int| 0 <= j < rows.len() implies held(after, #[trigger] rows[j]) by {
            if j < head.len() {
                assert(head[j] == rows[j]);
                assert(held(mid, head[j]));
                let w = choose|w: int| 0 <= w < mid.len() && holds(#[trigger] mid[w], head[j]);
                assert(TransactionRow::key(rows[j]) != TransactionRow::key(rows[rows.len() - 1]));
                assert(after[w] == mid[w]);
                assert(holds(after[w], rows[j]));
            } else {
                if has_key::<TransactionRow>(mid, TransactionRow::key(last)) {
                    let f = first_match::<TransactionRow>(mid, TransactionRow::key(last)).unwrap();
                    assert(after[f] == TransactionRow::merged(mid[f], last, policy));
                    assert(holds(after[f], last));
                } else {
                    assert(after[mid.len() as int] == last);
                    assert(holds(after[mid.len() as int], last));
                }
            }
        }
    }
}

/// Rows that a table already holds change nothing when they arrive with a
/// block.
proof fn lemma_held_change_nothing(x: Seq<TransactionRowView>, rows: Seq<TransactionRowView>)
    requires
        unique_keys::<TransactionRow>(x),
        forall|j: int| 0 <= j < rows.len() ==> held(x, #[trigger] rows[j]),
    ensures
        put_all::<TransactionRow>(x, rows, ConflictPolicy::AdvanceFromPending) == x,
    decreases rows.len(),
{
    let policy = ConflictPolicy::AdvanceFromPending;
    if rows.len() > 0 {
        let head = rows.drop_last();
        let last = rows.last();
        assert forall|j: int| 0 <= j < head.len() implies held(x, #[trigger] head[j]) by {
            assert(head[j] == rows[j]);
        }
        lemma_held_change_nothing(x, head);
        assert(held(x, rows[rows.len() - 1]));
        let w = choose|w: int| 0 <= w < x.len() && holds(#[trigger] x[w], last);
        assert(has_key::<TransactionRow>(x, TransactionRow::key(last)));
        lemma_put::<TransactionRow>(x, last, policy);
        let f = first_match::<TransactionRow>(x, TransactionRow::key(last)).unwrap();
        if f < w {
            assert(TransactionRow::key(x[f]) != TransactionRow::key(x[w]));
        } else if w < f {
            assert(TransactionRow::key(x[w]) != TransactionRow::key(x[f]));
        }
        assert(TransactionRow::merged(x[w], last, policy) == x[w]);
        assert(x.update(w, x[w]) =~= x);
    }
}

/// A replay changes no transaction. Where neither the table nor the
/// buffer holds a transaction twice, a buffer that is flushed a second time
/// changes no row of `transactions`: the transactions of its blocks are
/// stored, and keep the status that the first flush left them with.
pub proof fn lemma_replay_keeps_transactions(
    t: TablesView,
    s: StoreView,
    now: chrono::NaiveDateTime,
)
    requires
        unique_keys::<TransactionRow>(t.transactions),
        unique_keys::<BufferedTx>(s.block_txs),
    ensures
        flushed(flushed(t, s, now), s, now).transactions == flushed(t, s, now).transactions,
{
    if s.blocks.len() == 0 {
        return ;
    }
    let policy = ConflictPolicy::AdvanceFromPending;
    let once = flushed(t, s, now);
    let twice = flushed(once, s, now);
    let queue = s.sql_updates;
    let rows = transaction_rows(s.block_txs);
    let arrived = put_all::<TransactionRow>(t.transactions, rows, policy);
    let arrived_tables = TablesView {
        blocks: put_all::<BlockRow>(t.blocks, block_rows(s.blocks, now), ConflictPolicy::Ignore),
        transactions: arrived,
        blobs: put_all::<TxDataStore>(t.blobs, s.tx_data, ConflictPolicy::Ignore),
        txs_contracts: put_all::<TxContractRef>(
            t.txs_contracts,
            contract_refs(s.tx_data),
            ConflictPolicy::Ignore,
        ),
        proofs: put_all::<TxProofStore>(t.proofs, s.tx_data_proofs, ConflictPolicy::Ignore),
        transaction_state_events: t.transaction_state_events + s.transactions_events,
        contracts: without_keys::<TxContractStore>(
            put_all::<TxContractStore>(t.contracts, s.contracts, ConflictPolicy::Overwrite),
            s.deleted_contracts,
        ),
        contract_state: t.contract_state + s.contract_states,
        blob_proof_outputs: t.blob_proof_outputs + s.blob_proof_outputs,
    };
    assert(once == updated_all(arrived_tables, queue));
    lemma_updated_all(arrived_tables, queue);
    assert(once.transactions == patched_all::<TransactionRow>(arrived, queue));
    let again = put_all::<TransactionRow>(once.transactions, rows, policy);
    let again_tables = TablesView {
        blocks: put_all::<BlockRow>(
            once.blocks,
            block_rows(s.blocks, now),
            ConflictPolicy::Ignore,
        ),
        transactions: again,
        blobs: put_all::<TxDataStore>(once.blobs, s.tx_data, ConflictPolicy::Ignore),
        txs_contracts: put_all::<TxContractRef>(
            once.txs_contracts,
            contract_refs(s.tx_data),
            ConflictPolicy::Ignore,
        ),
        proofs: put_all::<TxProofStore>(once.proofs, s.tx_data_proofs, ConflictPolicy::Ignore),
        transaction_state_events: once.transaction_state_events + s.transactions_events,
        contracts: without_keys::<TxContractStore>(
            put_all::<TxContractStore>(once.contracts, s.contracts, ConflictPolicy::Overwrite),
            s.deleted_contracts,
        ),
        contract_state: once.contract_state + s.contract_states,
        blob_proof_outputs: once.blob_proof_outputs + s.blob_proof_outputs,
    };
    assert(twice == updated_all(again_tables, queue));
    lemma_updated_all(again_tables, queue);

    // The rows of the buffer have distinct keys and are past the pending
    // statuses.
    assert forall|a: int, b: int| 0 <= a < b < rows.len() implies TransactionRow::key(
        #[trigger] rows[a],
    ) != TransactionRow::key(#[trigger] rows[b]) by {
        assert(rows[a] == transaction_row(s.block_txs[a]));
        assert(rows[b] == transaction_row(s.block_txs[b]));
        assert(BufferedTx::key(s.block_txs[a]) != BufferedTx::key(s.block_txs[b]));
    }
    assert forall|j: int| 0 <= j < rows.len() implies !(
    #[trigger] rows[j]).transaction_status.is_pending() by {
        assert(rows[j] == transaction_row(s.block_txs[j]));
    }
    lemma_arrived_are_held(t.transactions, rows);
    lemma_put_all_unique::<TransactionRow>(t.transactions, rows, policy);
    lemma_transactions_after_updates(arrived, queue);

    // The queued changes keep keys and block columns, and leave no status
    // pending that was not: what was held is still held.
    assert forall|a: int, b: int|
        0 <= a < b < once.transactions.len() implies TransactionRow::key(
        #[trigger] once.transactions[a],
    ) != TransactionRow::key(#[trigger] once.transactions[b]) by {
        assert(TransactionRow::key(once.transactions[a]) == TransactionRow::key(arrived[a]));
        assert(TransactionRow::key(once.transactions[b]) == TransactionRow::key(arrived[b]));
    }
    assert forall|j: int| 0 <= j < rows.len() implies held(
        once.transactions,
        #[trigger] rows[j],
    ) by {
        assert(held(arrived, rows[j]));
        let w = choose|w: int| 0 <= w < arrived.len() && holds(#[trigger] arrived[w], rows[j]);
        lemma_settled_is_not_pending(arrived[w], queue);
        assert(once.transactions[w] == (TransactionRowView {
            transaction_status: settled_status(arrived[w], queue),
            ..arrived[w]
        }));
        assert(holds(once.transactions[w], rows[j]));
    }
    lemma_held_change_nothing(once.transactions, rows);
    assert(again == once.transactions);

    // The queued changes give, the second time, the status that they gave.
    lemma_transactions_after_updates(once.transactions, queue);
    assert forall|i: int| 0 <= i < once.transactions.len() implies twice.transactions[i]
        == once.transactions[i] by {
        lemma_settled_twice(arrived[i], once.transactions[i], queue);
    }
    assert(twice.transactions =~= once.transactions);
}

/// One row for a key. A buffer that holds no key twice writes no key twice
/// in the statements that rewrite stored rows: the transactions of its
/// blocks have distinct identities, its contracts distinct names.
pub proof fn lemma_batch_rewrites_each_key_once(s: StoreView)
    requires
        s.wf(),
    ensures
        unique_keys::<TransactionRow>(transaction_rows(s.block_txs)),
        unique_keys::<TxContractStore>(s.contracts),
{
    let rows = transaction_rows(s.block_txs);
    assert forall|a: int, b: int| 0 <= a < b < rows.len() implies TransactionRow::key(
        #[trigger] rows[a],
    ) != TransactionRow::key(#[trigger] rows[b]) by {
        assert(rows[a] == transaction_row(s.block_txs[a]));
        assert(rows[b] == transaction_row(s.block_txs[b]));
        assert(BufferedTx::key(s.block_txs[a]) != BufferedTx::key(s.block_txs[b]));
    }
}

/// The same block twice. A block that is indexed and flushed, and
/// then indexed and flushed once more, leaves `blocks`, `blobs`,
/// `txs_contracts` and `proofs` after the second time as they were after
/// the first, and `transactions` too where the table held no transaction
/// twice.
pub proof fn lemma_same_block_twice(t: TablesView, block: BlockView, now: chrono::NaiveDateTime)
    ensures
        ({
            let s = with_block(StoreView::empty(), block);
            let once = flushed(t, s, now);
            let twice = flushed(once, s, now);
            &&& t.run(batch(s, now)) == Ok::<TablesView, StorageError>(once)
            &&& once.run(batch(s, now)) == Ok::<TablesView, StorageError>(twice)
            &&& twice.blocks == once.blocks
            &&& twice.blobs == once.blobs
            &&& twice.txs_contracts == once.txs_contracts
            &&& twice.proofs == once.proofs
            &&& unique_keys::<TransactionRow>(t.transactions) ==> twice.transactions
                == once.transactions
        }),
{
    let s = with_block(StoreView::empty(), block);
    lemma_flush(t, s, now);
    lemma_flush(flushed(t, s, now), s, now);
    lemma_replay_changes_nothing(t, s, now);
    if unique_keys::<TransactionRow>(t.transactions) {
        lemma_with_block_keeps_keys_unique(StoreView::empty(), block);
        lemma_replay_keeps_transactions(t, s, now);
    }
}

} // verus!
