use crate::keyed::{
    all_keys_distinct, append_rows, duplicate_rows, put_all, put_rows, remove_key, unique_keys,
    without_key,
    ConflictPolicy, Keyed, Row,
};
use crate::mempool::{reparent_blobs, reparented_blobs};
use crate::rows::{
    BlockRow, BlockRowView, TransactionRow, TransactionRowView, TxBlobProofOutputStore,
    TxBlobProofOutputStoreView, TxContractRef, TxContractRefView, TxContractStateStore,
    TxContractStateStoreView, TxContractStore, TxContractStoreView, TxDataStore, TxDataStoreView,
    TxEventStore, TxEventStoreView, TxHashDb, TxProofStore, TxProofStoreView,
};
use crate::seqs::{clone_bytes, views};
use crate::statement::{DeferredUpdate, DeferredUpdateView, Statement, StatementView};
use crate::status::TransactionStatusDb;
use vstd::prelude::*;

verus! {

/// The tables that the indexer fills, held in memory: a model of the
/// relational backend that runs the indexer's statements as the backend is
/// to run them.
///
/// `blocks`, `transactions`, `blobs`, `txs_contracts`, `proofs` and
/// `contracts` hold a key once; the other tables are lists in the order of
/// arrival.
#[derive(Clone, Debug, PartialEq, Eq)]
pub struct Tables {
    pub blocks: Vec<BlockRow>,
    pub transactions: Vec<TransactionRow>,
    pub blobs: Vec<TxDataStore>,
    pub txs_contracts: Vec<TxContractRef>,
    pub proofs: Vec<TxProofStore>,
    pub transaction_state_events: Vec<TxEventStore>,
    pub contracts: Vec<TxContractStore>,
    pub contract_state: Vec<TxContractStateStore>,
    pub blob_proof_outputs: Vec<TxBlobProofOutputStore>,
}

/// What a `Tables` holds, as the contracts read it.
#[verifier::ext_equal]
pub struct TablesView {
    pub blocks: Seq<BlockRowView>,
    pub transactions: Seq<TransactionRowView>,
    pub blobs: Seq<TxDataStoreView>,
    pub txs_contracts: Seq<TxContractRefView>,
    pub proofs: Seq<TxProofStoreView>,
    pub transaction_state_events: Seq<TxEventStoreView>,
    pub contracts: Seq<TxContractStoreView>,
    pub contract_state: Seq<TxContractStateStoreView>,
    pub blob_proof_outputs: Seq<TxBlobProofOutputStoreView>,
}

impl View for Tables {
    type V = TablesView;

    open spec fn view(&self) -> TablesView {
        TablesView {
            blocks: views(self.blocks@),
            transactions: views(self.transactions@),
            blobs: views(self.blobs@),
            txs_contracts: views(self.txs_contracts@),
            proofs: views(self.proofs@),
            transaction_state_events: views(self.transaction_state_events@),
            contracts: views(self.contracts@),
            contract_state: views(self.contract_state@),
            blob_proof_outputs: views(self.blob_proof_outputs@),
        }
    }
}

impl Row for Tables {
    fn duplicate(&self) -> (r: Self) {
        Tables {
            blocks: duplicate_rows(&self.blocks),
            transactions: duplicate_rows(&self.transactions),
            blobs: duplicate_rows(&self.blobs),
            txs_contracts: duplicate_rows(&self.txs_contracts),
            proofs: duplicate_rows(&self.proofs),
            transaction_state_events: duplicate_rows(&self.transaction_state_events),
            contracts: duplicate_rows(&self.contracts),
            contract_state: duplicate_rows(&self.contract_state),
            blob_proof_outputs: duplicate_rows(&self.blob_proof_outputs),
        }
    }
}
/// Why the backend refused a statement.
#[derive(Clone, Copy, Debug, PartialEq, Eq, Structural)]
pub enum StorageError {
    /// The statement would store a key twice.
    KeyConflict,
}

/// What a statement does: the tables after it, and the transaction hashes
/// that it hands back.
pub struct Effect {
    pub tables: TablesView,
    pub returned: Seq<Seq<char>>,
}

/// A row that a queued change may rewrite.
pub trait Patched: Row {
    /// The row after the change: itself, unless the change names it.
    spec fn patched(v: Self::V, update: DeferredUpdateView) -> Self::V;

    /// The rewritten row, where the change names this one.
    fn patch(&self, update: &DeferredUpdate) -> (r: Option<Self>)
        ensures
            match r {
                Some(rewritten) => rewritten@ == Self::patched(self@, update@),
                None => self@ == Self::patched(self@, update@),
            },
    ;
}

impl Patched for TransactionRow {
    open spec fn patched(v: TransactionRowView, update: DeferredUpdateView) -> TransactionRowView {
        match update {
            DeferredUpdateView::SetTransactionStatus { settlement, tx_hash, parent_dp_hash } => {
                if v.tx_hash == tx_hash && v.parent_dp_hash == parent_dp_hash {
                    TransactionRowView { transaction_status: settlement.status(), ..v }
                } else {
                    v
                }
            },
            _ => v,
        }
    }

    fn patch(&self, update: &DeferredUpdate) -> (r: Option<Self>) {
        match update {
            DeferredUpdate::SetTransactionStatus { settlement, tx_hash, parent_dp_hash } => {
                if self.tx_hash == *tx_hash && self.parent_dp_hash == *parent_dp_hash {
                    let mut rewritten = self.duplicate();
                    rewritten.transaction_status = settlement.to_status();
                    Some(rewritten)
                } else {
                    None
                }
            },
            _ => None,
        }
    }
}

impl Patched for TxDataStore {
    open spec fn patched(v: TxDataStoreView, update: DeferredUpdateView) -> TxDataStoreView {
        match update {
            DeferredUpdateView::SetBlobVerified { tx_hash, parent_dp_hash, blob_index } => {
                if v.tx_hash == tx_hash && v.parent_data_proposal_hash == parent_dp_hash
                    && v.blob_index == blob_index {
                    TxDataStoreView { verified: true, ..v }
                } else {
                    v
                }
            },
            _ => v,
        }
    }

    fn patch(&self, update: &DeferredUpdate) -> (r: Option<Self>) {
        match update {
            DeferredUpdate::SetBlobVerified { tx_hash, parent_dp_hash, blob_index } => {
                if self.tx_hash == *tx_hash && self.parent_data_proposal_hash == *parent_dp_hash
                    && self.blob_index == *blob_index {
                    let mut rewritten = self.duplicate();
                    rewritten.verified = true;
                    Some(rewritten)
                } else {
                    None
                }
            },
            _ => None,
        }
    }
}

impl Patched for TxBlobProofOutputStore {
    open spec fn patched(v: TxBlobProofOutputStoreView, update: DeferredUpdateView)
        -> TxBlobProofOutputStoreView {
        match update {
            DeferredUpdateView::SetProofOutputSettled {
                blob_tx_hash,
                blob_parent_dp_hash,
                blob_index,
                blob_proof_output_index,
            } => {
                if v.blob_tx_hash == blob_tx_hash && v.blob_parent_dp_hash == blob_parent_dp_hash
                    && v.blob_index == blob_index && v.blob_proof_output_index
                    == blob_proof_output_index {
                    TxBlobProofOutputStoreView { settled: true, ..v }
                } else {
                    v
                }
            },
            _ => v,
        }
    }

    fn patch(&self, update: &DeferredUpdate) -> (r: Option<Self>) {
        match update {
            DeferredUpdate::SetProofOutputSettled {
                blob_tx_hash,
                blob_parent_dp_hash,
                blob_index,
                blob_proof_output_index,
            } => {
                if self.blob_tx_hash == *blob_tx_hash && self.blob_parent_dp_hash
                    == *blob_parent_dp_hash && self.blob_index == *blob_index
                    && self.blob_proof_output_index == *blob_proof_output_index {
                    let mut rewritten = self.duplicate();
                    rewritten.settled = true;
                    Some(rewritten)
                } else {
                    None
                }
            },
            _ => None,
        }
    }
}

impl Patched for TxContractStateStore {
    open spec fn patched(v: TxContractStateStoreView, update: DeferredUpdateView)
        -> TxContractStateStoreView {
        match update {
            DeferredUpdateView::SetContractStateAtBlock {
                state_commitment,
                contract_name,
                block_hash,
            } => {
                if v.contract_name == contract_name && v.block_hash == block_hash {
                    TxContractStateStoreView { state_commitment, ..v }
                } else {
                    v
                }
            },
            _ => v,
        }
    }

    fn patch(&self, update: &DeferredUpdate) -> (r: Option<Self>) {
        match update {
            DeferredUpdate::SetContractStateAtBlock {
                state_commitment,
                contract_name,
                block_hash,
            } => {
                if self.contract_name == *contract_name && self.block_hash == *block_hash {
                    let mut rewritten = self.duplicate();
                    rewritten.state_commitment = clone_bytes(state_commitment);
                    Some(rewritten)
                } else {
                    None
                }
            },
            _ => None,
        }
    }
}

impl Patched for TxContractStore {
    open spec fn patched(v: TxContractStoreView, update: DeferredUpdateView)
        -> TxContractStoreView {
        match update {
            DeferredUpdateView::SetContractState { state_commitment, contract_name } => {
                if v.contract_name == contract_name {
                    TxContractStoreView { state_commitment, ..v }
                } else {
                    v
                }
            },
            _ => v,
        }
    }

    fn patch(&self, update: &DeferredUpdate) -> (r: Option<Self>) {
        match update {
            DeferredUpdate::SetContractState { state_commitment, contract_name } => {
                if self.contract_name == *contract_name {
                    let mut rewritten = self.duplicate();
                    rewritten.state_commitment = clone_bytes(state_commitment);
                    Some(rewritten)
                } else {
                    None
                }
            },
            _ => None,
        }
    }
}

/// The rows of a table after a queued change.
pub open spec fn patched_rows<R: Patched>(rows: Seq<R::V>, update: DeferredUpdateView) -> Seq<
    R::V,
> {
    rows.map_values(|v: R::V| R::patched(v, update))
}

/// A row of `transactions` once the transactions that wait under the data
/// proposal `from` are counted under `to`.
pub open spec fn reparented_transaction(v: TransactionRowView, from: Seq<char>, to: Seq<char>)
    -> TransactionRowView {
    if v.parent_dp_hash == from && v.transaction_status
        == TransactionStatusDb::WaitingDissemination {
        TransactionRowView { parent_dp_hash: to, ..v }
    } else {
        v
    }
}

/// The rows of `transactions` once the transactions that wait under the data
/// proposal `from` are counted under `to`.
pub open spec fn reparented_transactions(
    rows: Seq<TransactionRowView>,
    from: Seq<char>,
    to: Seq<char>,
) -> Seq<TransactionRowView> {
    rows.map_values(|v: TransactionRowView| reparented_transaction(v, from, to))
}

/// The hashes of the transactions that wait under the data proposal `from`,
/// in the order of the table.
pub open spec fn waiting_under(rows: Seq<TransactionRowView>, from: Seq<char>) -> Seq<Seq<char>>
    decreases rows.len(),
{
    if rows.len() == 0 {
        Seq::empty()
    } else if rows.last().parent_dp_hash == from && rows.last().transaction_status
        == TransactionStatusDb::WaitingDissemination {
        waiting_under(rows.drop_last(), from).push(rows.last().tx_hash)
    } else {
        waiting_under(rows.drop_last(), from)
    }
}

impl TablesView {
    /// The tables that hold nothing.
    pub open spec fn empty() -> TablesView {
        TablesView {
            blocks: Seq::empty(),
            transactions: Seq::empty(),
            blobs: Seq::empty(),
            txs_contracts: Seq::empty(),
            proofs: Seq::empty(),
            transaction_state_events: Seq::empty(),
            contracts: Seq::empty(),
            contract_state: Seq::empty(),
            blob_proof_outputs: Seq::empty(),
        }
    }

    /// No table stores a key twice.
    pub open spec fn wf(self) -> bool {
        &&& unique_keys::<BlockRow>(self.blocks)
        &&& unique_keys::<TransactionRow>(self.transactions)
        &&& unique_keys::<TxDataStore>(self.blobs)
        &&& unique_keys::<TxContractRef>(self.txs_contracts)
        &&& unique_keys::<TxProofStore>(self.proofs)
        &&& unique_keys::<TxContractStore>(self.contracts)
    }

    /// The tables after a queued change.
    pub open spec fn updated(self, update: DeferredUpdateView) -> TablesView {
        TablesView {
            transactions: patched_rows::<TransactionRow>(self.transactions, update),
            blobs: patched_rows::<TxDataStore>(self.blobs, update),
            blob_proof_outputs: patched_rows::<TxBlobProofOutputStore>(
                self.blob_proof_outputs,
                update,
            ),
            contract_state: patched_rows::<TxContractStateStore>(self.contract_state, update),
            contracts: patched_rows::<TxContractStore>(self.contracts, update),
            ..self
        }
    }

    /// What a statement does to the tables, or why the backend refuses it.
    /// A refused statement changes nothing.
    pub open spec fn step(self, statement: StatementView) -> Result<Effect, StorageError> {
        match statement {
            StatementView::InsertBlocks(rows) => Ok(
                Effect {
                    tables: TablesView {
                        blocks: put_all::<BlockRow>(self.blocks, rows, ConflictPolicy::Ignore),
                        ..self
                    },
                    returned: Seq::empty(),
                },
            ),
            StatementView::InsertTransactions { rows, on_conflict } => Ok(
                Effect {
                    tables: TablesView {
                        transactions: put_all::<TransactionRow>(
                            self.transactions,
                            rows,
                            on_conflict,
                        ),
                        ..self
                    },
                    returned: Seq::empty(),
                },
            ),
            StatementView::InsertBlobs(rows) => Ok(
                Effect {
                    tables: TablesView {
                        blobs: put_all::<TxDataStore>(self.blobs, rows, ConflictPolicy::Ignore),
                        ..self
                    },
                    returned: Seq::empty(),
                },
            ),
            StatementView::InsertTxsContracts(rows) => Ok(
                Effect {
                    tables: TablesView {
                        txs_contracts: put_all::<TxContractRef>(
                            self.txs_contracts,
                            rows,
                            ConflictPolicy::Ignore,
                        ),
                        ..self
                    },
                    returned: Seq::empty(),
                },
            ),
            StatementView::InsertProofs(rows) => Ok(
                Effect {
                    tables: TablesView {
                        proofs: put_all::<TxProofStore>(self.proofs, rows, ConflictPolicy::Ignore),
                        ..self
                    },
                    returned: Seq::empty(),
                },
            ),
            StatementView::InsertTransactionEvents(rows) => Ok(
                Effect {
                    tables: TablesView {
                        transaction_state_events: self.transaction_state_events + rows,
                        ..self
                    },
                    returned: Seq::empty(),
                },
            ),
            StatementView::InsertContracts(rows) => Ok(
                Effect {
                    tables: TablesView {
                        contracts: put_all::<TxContractStore>(
                            self.contracts,
                            rows,
                            ConflictPolicy::Overwrite,
                        ),
                        ..self
                    },
                    returned: Seq::empty(),
                },
            ),
            StatementView::InsertContractStates(rows) => Ok(
                Effect {
                    tables: TablesView { contract_state: self.contract_state + rows, ..self },
                    returned: Seq::empty(),
                },
            ),
            StatementView::DeleteContract(name) => Ok(
                Effect {
                    tables: TablesView {
                        contracts: without_key::<TxContractStore>(self.contracts, name),
                        ..self
                    },
                    returned: Seq::empty(),
                },
            ),
            StatementView::InsertBlobProofOutputs(rows) => Ok(
                Effect {
                    tables: TablesView {
                        blob_proof_outputs: self.blob_proof_outputs + rows,
                        ..self
                    },
                    returned: Seq::empty(),
                },
            ),
            StatementView::Update(update) => Ok(
                Effect { tables: self.updated(update), returned: Seq::empty() },
            ),
            StatementView::ReparentTransactions { from, to } => {
                let moved = reparented_transactions(self.transactions, from, to);
                if unique_keys::<TransactionRow>(moved) {
                    Ok(
                        Effect {
                            tables: TablesView { transactions: moved, ..self },
                            returned: waiting_under(self.transactions, from),
                        },
                    )
                } else {
                    Err(StorageError::KeyConflict)
                }
            },
            StatementView::ReparentBlobs { from, to, tx_hashes } => {
                let moved = reparented_blobs(self.blobs, from, to, tx_hashes);
                if unique_keys::<TxDataStore>(moved) {
                    Ok(
                        Effect {
                            tables: TablesView { blobs: moved, ..self },
                            returned: Seq::empty(),
                        },
                    )
                } else {
                    Err(StorageError::KeyConflict)
                }
            },
        }
    }

    /// The tables after the statements have run one after the other, or the
    /// first refusal.
    pub open spec fn run(self, statements: Seq<StatementView>) -> Result<TablesView, StorageError>
        decreases statements.len(),
    {
        if statements.len() == 0 {
            Ok(self)
        } else {
            match self.run(statements.drop_last()) {
                Ok(before) => match before.step(statements.last()) {
                    Ok(effect) => Ok(effect.tables),
                    Err(e) => Err(e),
                },
                Err(e) => Err(e),
            }
        }
    }
}

/// Rewrites the rows that a queued change names.
pub fn patch_rows<R: Patched>(rows: &mut Vec<R>, update: &DeferredUpdate)
    ensures
        views(final(rows)@) == patched_rows::<R>(views(old(rows)@), update@),
{
    let mut i: usize = 0;
    while i < rows.len()
        invariant
            0 <= i <= rows.len(),
            rows.len() == old(rows).len(),
            forall|j: int|
                0 <= j < i ==> (#[trigger] rows@[j])@ == R::patched(old(rows)@[j]@, update@),
            forall|j: int| i <= j < rows.len() ==> (#[trigger] rows@[j])@ == old(rows)@[j]@,
        decreases rows.len() - i,
    {
        match rows[i].patch(update) {
            Some(rewritten) => {
                rows.set(i, rewritten);
            },
            None => {},
        }
        i = i + 1;
    }
    assert(views(rows@) =~= patched_rows::<R>(views(old(rows)@), update@));
}

/// The rows of `transactions` once those that wait under `from` are counted
/// under `to`, and the hashes of the rows that moved.
pub fn reparent_transactions(rows: &Vec<TransactionRow>, from: &String, to: &String) -> (r: (
    Vec<TransactionRow>,
    Vec<TxHashDb>,
))
    ensures
        views(r.0@) == reparented_transactions(views(rows@), from@, to@),
        views(r.1@) == waiting_under(views(rows@), from@),
{
    let mut moved: Vec<TransactionRow> = Vec::new();
    let mut hashes: Vec<TxHashDb> = Vec::new();
    let mut i: usize = 0;
    assert(views(moved@) =~= reparented_transactions(views(rows@).take(0), from@, to@));
    assert(views(hashes@) =~= waiting_under(views(rows@).take(0), from@));
    while i < rows.len()
        invariant
            0 <= i <= rows.len(),
            views(moved@) == reparented_transactions(views(rows@).take(i as int), from@, to@),
            views(hashes@) == waiting_under(views(rows@).take(i as int), from@),
        decreases rows.len() - i,
    {
        let row = &rows[i];
        let waits = match row.transaction_status {
            TransactionStatusDb::WaitingDissemination => true,
            _ => false,
        };
        let ghost moved_before = views(moved@);
        let ghost hashes_before = views(hashes@);
        proof {
            let next = views(rows@).take(i + 1);
            assert(next.drop_last() =~= views(rows@).take(i as int));
            assert(next.last() == row@);
        }
        if row.parent_dp_hash == *from && waits {
            let mut changed = row.duplicate();
            changed.parent_dp_hash = to.clone();
            moved.push(changed);
            hashes.push(row.tx_hash.clone());
            assert(views(hashes@) =~= hashes_before.push(row@.tx_hash));
        } else {
            moved.push(row.duplicate());
        }
        proof {
            assert(views(moved@) =~= moved_before.push(reparented_transaction(row@, from@, to@)));
            assert(views(moved@) =~= reparented_transactions(
                views(rows@).take(i + 1),
                from@,
                to@,
            ));
        }
        i = i + 1;
    }
    assert(views(rows@).take(rows.len() as int) =~= views(rows@));
    (moved, hashes)
}

impl Tables {
    /// Empty tables.
    pub fn new() -> (r: Self)
        ensures
            r@ == TablesView::empty(),
    {
        let r = Tables {
            blocks: Vec::new(),
            transactions: Vec::new(),
            blobs: Vec::new(),
            txs_contracts: Vec::new(),
            proofs: Vec::new(),
            transaction_state_events: Vec::new(),
            contracts: Vec::new(),
            contract_state: Vec::new(),
            blob_proof_outputs: Vec::new(),
        };
        assert(r@ =~~= TablesView::empty());
        r
    }

    fn update(&mut self, update: &DeferredUpdate)
        ensures
            final(self)@ == old(self)@.updated(update@),
    {
        match update {
            DeferredUpdate::SetTransactionStatus { .. } => {
                patch_rows(&mut self.transactions, update);
            },
            DeferredUpdate::SetBlobVerified { .. } => {
                patch_rows(&mut self.blobs, update);
            },
            DeferredUpdate::SetProofOutputSettled { .. } => {
                patch_rows(&mut self.blob_proof_outputs, update);
            },
            DeferredUpdate::SetContractStateAtBlock { .. } => {
                patch_rows(&mut self.contract_state, update);
            },
            DeferredUpdate::SetContractState { .. } => {
                patch_rows(&mut self.contracts, update);
            },
        }
        assert(self@ =~~= old(self)@.updated(update@));
    }

    /// Runs one statement. A refused statement leaves the tables as they were.
    pub fn execute(&mut self, statement: &Statement) -> (r: Result<Vec<TxHashDb>, StorageError>)
        ensures
            match old(self)@.step(statement@) {
                Ok(effect) => r is Ok && views(r.unwrap()@) == effect.returned && final(self)@
                    == effect.tables,
                Err(e) => r == Err::<Vec<TxHashDb>, StorageError>(e) && final(self)@ == old(self)@,
            },
    {
        let mut returned: Vec<TxHashDb> = Vec::new();
        assert(views(returned@) =~= Seq::<Seq<char>>::empty());
        match statement {
            Statement::InsertBlocks(rows) => {
                put_rows(&mut self.blocks, rows, ConflictPolicy::Ignore);
            },
            Statement::InsertTransactions { rows, on_conflict } => {
                put_rows(&mut self.transactions, rows, *on_conflict);
            },
            Statement::InsertBlobs(rows) => {
                put_rows(&mut self.blobs, rows, ConflictPolicy::Ignore);
            },
            Statement::InsertTxsContracts(rows) => {
                put_rows(&mut self.txs_contracts, rows, ConflictPolicy::Ignore);
            },
            Statement::InsertProofs(rows) => {
                put_rows(&mut self.proofs, rows, ConflictPolicy::Ignore);
            },
            Statement::InsertTransactionEvents(rows) => {
                append_rows(&mut self.transaction_state_events, rows);
            },
            Statement::InsertContracts(rows) => {
                put_rows(&mut self.contracts, rows, ConflictPolicy::Overwrite);
            },
            Statement::InsertContractStates(rows) => {
                append_rows(&mut self.contract_state, rows);
            },
            Statement::DeleteContract(name) => {
                let probe = TxContractStore {
                    tx_hash: String::new(),
                    parent_data_proposal_hash: String::new(),
                    verifier: String::new(),
                    program_id: Vec::new(),
                    state_commitment: Vec::new(),
                    contract_name: name.clone(),
                };
                remove_key(&mut self.contracts, &probe);
            },
            Statement::InsertBlobProofOutputs(rows) => {
                append_rows(&mut self.blob_proof_outputs, rows);
            },
            Statement::Update(update) => {
                self.update(update);
            },
            Statement::ReparentTransactions { from, to } => {
                let (moved, hashes) = reparent_transactions(&self.transactions, from, to);
                if !all_keys_distinct(&moved) {
                    return Err(StorageError::KeyConflict);
                }
                self.transactions = moved;
                returned = hashes;
            },
            Statement::ReparentBlobs { from, to, tx_hashes } => {
                let mut moved = duplicate_rows(&self.blobs);
                reparent_blobs(&mut moved, from, to, tx_hashes);
                if !all_keys_distinct(&moved) {
                    return Err(StorageError::KeyConflict);
                }
                self.blobs = moved;
            },
        }
        assert(self@ =~~= old(self)@.step(statement@).unwrap().tables);
        Ok(returned)
    }

    /// Runs the statements as one transaction: all of them, or, where the
    /// backend refuses one, none.
    pub fn execute_all(&mut self, statements: &Vec<Statement>) -> (r: Result<(), StorageError>)
        ensures
            match old(self)@.run(views(statements@)) {
                Ok(after) => r is Ok && final(self)@ == after,
                Err(e) => r == Err::<(), StorageError>(e) && final(self)@ == old(self)@,
            },
    {
        let mut work = self.duplicate();
        let mut i: usize = 0;
        while i < statements.len()
            invariant
                0 <= i <= statements.len(),
                self@ == old(self)@,
                old(self)@.run(views(statements@).take(i as int)) == Ok::<
                    TablesView,
                    StorageError,
                >(work@),
            decreases statements.len() - i,
        {
            proof {
                let next = views(statements@).take(i + 1);
                assert(next.drop_last() =~= views(statements@).take(i as int));
                assert(next.last() == statements@[i as int]@);
            }
            match work.execute(&statements[i]) {
                Ok(_) => {},
                Err(e) => {
                    proof {
                        lemma_run_refused(old(self)@, views(statements@), i + 1);
                    }
                    return Err(e);
                },
            }
            i = i + 1;
        }
        assert(views(statements@).take(statements.len() as int) =~= views(statements@));
        *self = work;
        Ok(())
    }
}

/// Once a run of the first `n` statements is refused, the whole run is.
pub proof fn lemma_run_refused(t: TablesView, statements: Seq<StatementView>, n: int)
    requires
        0 <= n <= statements.len(),
        t.run(statements.take(n)) is Err,
    ensures
        t.run(statements) == t.run(statements.take(n)),
    decreases statements.len() - n,
{
    if n == statements.len() {
        assert(statements.take(n) =~= statements);
    } else {
        let next = statements.take(n + 1);
        assert(next.drop_last() =~= statements.take(n));
        lemma_run_refused(t, statements, n + 1);
    }
}

} // verus!
