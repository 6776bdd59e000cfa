use crate::keyed::{duplicate_rows, ConflictPolicy, Row};
use crate::narrow::{narrowed_i32, narrowed_i64, u32_to_i32, u64_to_i64, usize_to_i64};
use crate::rows::{
    BlockRow, BlockRowView, TransactionRow, TransactionRowView, TxContractRef, TxContractRefView,
    TxDataStore, TxDataStoreView,
};
use crate::seqs::{clone_bytes, clone_text_opt, views};
use crate::statement::{DeferredUpdate, DeferredUpdateView, Statement, StatementView};
use crate::store::{
    BufferedBlock, BufferedBlockView, BufferedTx, BufferedTxView, IndexerHandlerStore, StoreView,
};
use crate::time::{into_utc_date_time, stored_time, timestamp_or, utc_date_time};
use vstd::prelude::*;

verus! {

/// The row of `blocks` for a buffered block. A height or a count that does
/// not fit its column is stored as 0; a timestamp that is no date is stored
/// as `now`.
pub open spec fn block_row(b: BufferedBlockView, now: chrono::NaiveDateTime) -> BlockRowView {
    BlockRowView {
        hash: b.hash,
        parent_hash: b.parent_hash,
        height: narrowed_i64(b.block_height as int),
        timestamp: stored_time(utc_date_time(b.block_timestamp), now),
        total_txs: narrowed_i64(b.total_txs as int),
    }
}

/// The lane of a buffered transaction: the empty lane where the block named
/// none.
pub open spec fn lane_or_default(lane_id: Option<Seq<u8>>) -> Seq<u8> {
    match lane_id {
        Some(lane) => lane,
        None => Seq::empty(),
    }
}

/// The row of `transactions` for a transaction that a block held. Its status
/// is the one that its kind has in a block.
pub open spec fn transaction_row(t: BufferedTxView) -> TransactionRowView {
    TransactionRowView {
        tx_hash: t.tx_hash,
        parent_dp_hash: t.parent_dp_hash,
        version: narrowed_i32(t.version as int),
        transaction_type: t.kind.stored_type(),
        transaction_status: t.kind.status_in_block(),
        block_hash: Some(t.block_hash),
        block_height: Some(narrowed_i64(t.block_height as int)),
        index: Some(t.index),
        lane_id: Some(lane_or_default(t.lane_id)),
        identity: t.identity,
    }
}

/// The rows of `blocks` for the buffered blocks, in order.
pub open spec fn block_rows(blocks: Seq<BufferedBlockView>, now: chrono::NaiveDateTime) -> Seq<
    BlockRowView,
> {
    blocks.map_values(|b: BufferedBlockView| block_row(b, now))
}

/// The rows of `transactions` for the buffered transactions, in order.
pub open spec fn transaction_rows(txs: Seq<BufferedTxView>) -> Seq<TransactionRowView> {
    txs.map_values(|t: BufferedTxView| transaction_row(t))
}

/// The rows of `txs_contracts` for the buffered blobs, in order.
pub open spec fn contract_refs(blobs: Seq<TxDataStoreView>) -> Seq<TxContractRefView> {
    blobs.map_values(|b: TxDataStoreView| TxDataStore::contract_ref(b))
}

/// One deletion for each name, in order.
pub open spec fn deletions(names: Seq<Seq<char>>) -> Seq<StatementView> {
    names.map_values(|name: Seq<char>| StatementView::DeleteContract(name))
}

/// The queued changes as statements, in order.
pub open spec fn updates(queue: Seq<DeferredUpdateView>) -> Seq<StatementView> {
    queue.map_values(|update: DeferredUpdateView| StatementView::Update(update))
}

/// The statement, where it has rows; nothing, where it has none.
pub open spec fn when_any(rows: nat, statement: StatementView) -> Seq<StatementView> {
    if rows > 0 {
        seq![statement]
    } else {
        Seq::empty()
    }
}

/// The statements that hand the buffer to the backend, in the order in
/// which they must run. There are none while no block is buffered.
///
/// Blocks come first, then the transactions that the blocks hold, then what
/// hangs on transactions (blobs, their contracts, proofs, events), then
/// contracts with their snapshots and their deletions, then the claims of
/// proofs, and last the queued changes, which speak of rows that the
/// statements before them have stored.
pub open spec fn batch(s: StoreView, now: chrono::NaiveDateTime) -> Seq<StatementView> {
    if s.blocks.len() == 0 {
        Seq::empty()
    } else {
        seq![StatementView::InsertBlocks(block_rows(s.blocks, now))] + when_any(
            s.block_txs.len(),
            StatementView::InsertTransactions {
                rows: transaction_rows(s.block_txs),
                on_conflict: ConflictPolicy::AdvanceFromPending,
            },
        ) + when_any(s.tx_data.len(), StatementView::InsertBlobs(s.tx_data)) + when_any(
            s.tx_data.len(),
            StatementView::InsertTxsContracts(contract_refs(s.tx_data)),
        ) + when_any(s.tx_data_proofs.len(), StatementView::InsertProofs(s.tx_data_proofs))
            + when_any(
            s.transactions_events.len(),
            StatementView::InsertTransactionEvents(s.transactions_events),
        ) + when_any(s.contracts.len(), StatementView::InsertContracts(s.contracts)) + when_any(
            s.contract_states.len(),
            StatementView::InsertContractStates(s.contract_states),
        ) + deletions(s.deleted_contracts) + when_any(
            s.blob_proof_outputs.len(),
            StatementView::InsertBlobProofOutputs(s.blob_proof_outputs),
        ) + updates(s.sql_updates)
    }
}

/// The row of `blocks` for a buffered block; `now` stands in for a timestamp
/// that is no date.
pub fn to_block_row(b: &BufferedBlock, now: chrono::NaiveDateTime) -> (r: BlockRow)
    ensures
        r@ == block_row(b@, now),
{
    BlockRow {
        hash: b.hash.clone(),
        parent_hash: b.parent_hash.clone(),
        height: u64_to_i64(b.block_height),
        timestamp: timestamp_or(into_utc_date_time(&b.block_timestamp), now),
        total_txs: usize_to_i64(b.total_txs),
    }
}

/// The row of `transactions` for a transaction that a block held.
pub fn to_transaction_row(t: &BufferedTx) -> (r: TransactionRow)
    ensures
        r@ == transaction_row(t@),
{
    let lane_id = match &t.lane_id {
        Some(lane) => clone_bytes(lane),
        None => Vec::new(),
    };
    TransactionRow {
        tx_hash: t.tx_hash.clone(),
        parent_dp_hash: t.parent_dp_hash.clone(),
        version: u32_to_i32(t.version),
        transaction_type: t.kind.to_stored_type(),
        transaction_status: t.kind.to_status_in_block(),
        block_hash: Some(t.block_hash.clone()),
        block_height: Some(u64_to_i64(t.block_height)),
        index: Some(t.index),
        lane_id: Some(lane_id),
        identity: clone_text_opt(&t.identity),
    }
}

fn to_block_rows(blocks: &Vec<BufferedBlock>, now: chrono::NaiveDateTime) -> (r: Vec<BlockRow>)
    ensures
        views(r@) == block_rows(views(blocks@), now),
{
    let mut r: Vec<BlockRow> = Vec::new();
    let mut i: usize = 0;
    while i < blocks.len()
        invariant
            0 <= i <= blocks.len(),
            views(r@) == block_rows(views(blocks@).take(i as int), now),
        decreases blocks.len() - i,
    {
        let ghost before = views(r@);
        r.push(to_block_row(&blocks[i], now));
        proof {
            assert(views(r@) =~= before.push(block_row(blocks@[i as int]@, now)));
            assert(views(r@) =~= block_rows(views(blocks@).take(i + 1), now));
        }
        i = i + 1;
    }
    assert(views(blocks@).take(blocks.len() as int) =~= views(blocks@));
    r
}

fn to_transaction_rows(txs: &Vec<BufferedTx>) -> (r: Vec<TransactionRow>)
    ensures
        views(r@) == transaction_rows(views(txs@)),
{
    let mut r: Vec<TransactionRow> = Vec::new();
    let mut i: usize = 0;
    while i < txs.len()
        invariant
            0 <= i <= txs.len(),
            views(r@) == transaction_rows(views(txs@).take(i as int)),
        decreases txs.len() - i,
    {
        let ghost before = views(r@);
        r.push(to_transaction_row(&txs[i]));
        proof {
            assert(views(r@) =~= before.push(transaction_row(txs@[i as int]@)));
            assert(views(r@) =~= transaction_rows(views(txs@).take(i + 1)));
        }
        i = i + 1;
    }
    assert(views(txs@).take(txs.len() as int) =~= views(txs@));
    r
}

fn to_contract_refs(blobs: &Vec<TxDataStore>) -> (r: Vec<TxContractRef>)
    ensures
        views(r@) == contract_refs(views(blobs@)),
{
    let mut r: Vec<TxContractRef> = Vec::new();
    let mut i: usize = 0;
    while i < blobs.len()
        invariant
            0 <= i <= blobs.len(),
            views(r@) == contract_refs(views(blobs@).take(i as int)),
        decreases blobs.len() - i,
    {
        let ghost before = views(r@);
        r.push(blobs[i].to_contract_ref());
        proof {
            assert(views(r@) =~= before.push(TxDataStore::contract_ref(blobs@[i as int]@)));
            assert(views(r@) =~= contract_refs(views(blobs@).take(i + 1)));
        }
        i = i + 1;
    }
    assert(views(blobs@).take(blobs.len() as int) =~= views(blobs@));
    r
}

fn push_deletions(out: &mut Vec<Statement>, names: &Vec<String>)
    ensures
        views(final(out)@) == views(old(out)@) + deletions(views(names@)),
{
    let mut i: usize = 0;
    while i < names.len()
        invariant
            0 <= i <= names.len(),
            views(out@) == views(old(out)@) + deletions(views(names@).take(i as int)),
        decreases names.len() - i,
    {
        let ghost before = views(out@);
        out.push(Statement::DeleteContract(names[i].clone()));
        proof {
            assert(views(out@) =~= before.push(StatementView::DeleteContract(names@[i as int]@)));
            assert(views(out@) =~= views(old(out)@) + deletions(views(names@).take(i + 1)));
        }
        i = i + 1;
    }
    assert(views(names@).take(names.len() as int) =~= views(names@));
}

fn push_updates(out: &mut Vec<Statement>, queue: &Vec<DeferredUpdate>)
    ensures
        views(final(out)@) == views(old(out)@) + updates(views(queue@)),
{
    let mut i: usize = 0;
    while i < queue.len()
        invariant
            0 <= i <= queue.len(),
            views(out@) == views(old(out)@) + updates(views(queue@).take(i as int)),
        decreases queue.len() - i,
    {
        let ghost before = views(out@);
        out.push(Statement::Update(queue[i].duplicate()));
        proof {
            assert(views(out@) =~= before.push(StatementView::Update(queue@[i as int]@)));
            assert(views(out@) =~= views(old(out)@) + updates(views(queue@).take(i + 1)));
        }
        i = i + 1;
    }
    assert(views(queue@).take(queue.len() as int) =~= views(queue@));
}

fn push_when_any(out: &mut Vec<Statement>, rows: usize, statement: Statement)
    ensures
        views(final(out)@) == views(old(out)@) + when_any(rows as nat, statement@),
{
    if rows > 0 {
        out.push(statement);
        assert(views(out@) =~= views(old(out)@) + when_any(rows as nat, statement@));
    } else {
        assert(views(out@) =~= views(old(out)@) + when_any(rows as nat, statement@));
    }
}

impl IndexerHandlerStore {
    /// The statements that hand the buffer to the backend, in order; `now`
    /// stands in for the timestamp of a block that has none that can be
    /// stored. The buffer itself stays as it is: it is cleared once the
    /// statements have been committed.
    pub fn dump_store_to_db(&self, now: chrono::NaiveDateTime) -> (r: Vec<Statement>)
        ensures
            views(r@) == batch(self@, now),
    {
        let mut out: Vec<Statement> = Vec::new();
        if self.blocks.len() == 0 {
            assert(views(out@) =~= batch(self@, now));
            return out;
        }
        out.push(Statement::InsertBlocks(to_block_rows(&self.blocks, now)));
        assert(views(out@) =~= seq![StatementView::InsertBlocks(block_rows(self@.blocks, now))]);
        push_when_any(
            &mut out,
            self.block_txs.len(),
            Statement::InsertTransactions {
                rows: to_transaction_rows(&self.block_txs),
                on_conflict: ConflictPolicy::AdvanceFromPending,
            },
        );
        push_when_any(
            &mut out,
            self.tx_data.len(),
            Statement::InsertBlobs(duplicate_rows(&self.tx_data)),
        );
        push_when_any(
            &mut out,
            self.tx_data.len(),
            Statement::InsertTxsContracts(to_contract_refs(&self.tx_data)),
        );
        push_when_any(
            &mut out,
            self.tx_data_proofs.len(),
            Statement::InsertProofs(duplicate_rows(&self.tx_data_proofs)),
        );
        push_when_any(
            &mut out,
            self.transactions_events.len(),
            Statement::InsertTransactionEvents(duplicate_rows(&self.transactions_events)),
        );
        push_when_any(
            &mut out,
            self.contracts.len(),
            Statement::InsertContracts(duplicate_rows(&self.contracts)),
        );
        push_when_any(
            &mut out,
            self.contract_states.len(),
            Statement::InsertContractStates(duplicate_rows(&self.contract_states)),
        );
        push_deletions(&mut out, &self.deleted_contracts);
        push_when_any(
            &mut out,
            self.blob_proof_outputs.len(),
            Statement::InsertBlobProofOutputs(duplicate_rows(&self.blob_proof_outputs)),
        );
        push_updates(&mut out, &self.sql_updates);
        assert(views(out@) =~= batch(self@, now));
        out
    }
}

} // verus!
