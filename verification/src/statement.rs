use crate::keyed::{duplicate_rows, ConflictPolicy, Row};
use crate::rows::{
    BlockRow, BlockRowView, ConsensusProposalHash, DataProposalHashDb, TransactionRow,
    TransactionRowView, TxBlobProofOutputStore, TxBlobProofOutputStoreView, TxContractRef,
    TxContractRefView, TxContractStateStore, TxContractStateStoreView, TxContractStore,
    TxContractStoreView, TxDataStore, TxDataStoreView, TxEventStore, TxEventStoreView, TxHashDb,
    TxProofStore, TxProofStoreView,
};
use crate::seqs::{clone_bytes, views};
use crate::status::Settlement;
use vstd::prelude::*;

verus! {

/// A change to rows that are already stored: it names the rows by their key
/// columns and sets one column. Such changes are queued while a block is read
/// and run, in the order of the queue, after the rows of the batch are in.
#[derive(Clone, Debug, PartialEq, Eq)]
pub enum DeferredUpdate {
    /// The ledger settled a transaction.
    SetTransactionStatus {
        settlement: Settlement,
        tx_hash: TxHashDb,
        parent_dp_hash: DataProposalHashDb,
    },
    /// The ledger confirmed a blob.
    SetBlobVerified { tx_hash: TxHashDb, parent_dp_hash: DataProposalHashDb, blob_index: i32 },
    /// The ledger confirmed a blob through one proof output: the claims with
    /// exactly these four columns are settled.
    SetProofOutputSettled {
        blob_tx_hash: TxHashDb,
        blob_parent_dp_hash: DataProposalHashDb,
        blob_index: i32,
        blob_proof_output_index: i32,
    },
    /// The state of a contract changed in a block: the snapshot of that block
    /// is rewritten.
    SetContractStateAtBlock {
        state_commitment: Vec<u8>,
        contract_name: String,
        block_hash: ConsensusProposalHash,
    },
    /// The state of a contract changed: its registered state is rewritten.
    SetContractState { state_commitment: Vec<u8>, contract_name: String },
}

/// What a `DeferredUpdate` holds, as the contracts read it.
pub enum DeferredUpdateView {
    SetTransactionStatus { settlement: Settlement, tx_hash: Seq<char>, parent_dp_hash: Seq<char> },
    SetBlobVerified { tx_hash: Seq<char>, parent_dp_hash: Seq<char>, blob_index: i32 },
    SetProofOutputSettled {
        blob_tx_hash: Seq<char>,
        blob_parent_dp_hash: Seq<char>,
        blob_index: i32,
        blob_proof_output_index: i32,
    },
    SetContractStateAtBlock {
        state_commitment: Seq<u8>,
        contract_name: Seq<char>,
        block_hash: Seq<char>,
    },
    SetContractState { state_commitment: Seq<u8>, contract_name: Seq<char> },
}

impl View for DeferredUpdate {
    type V = DeferredUpdateView;

    open spec fn view(&self) -> DeferredUpdateView {
        match self {
            DeferredUpdate::SetTransactionStatus { settlement, tx_hash, parent_dp_hash } => {
                DeferredUpdateView::SetTransactionStatus {
                    settlement: *settlement,
                    tx_hash: tx_hash@,
                    parent_dp_hash: parent_dp_hash@,
                }
            },
            DeferredUpdate::SetBlobVerified { tx_hash, parent_dp_hash, blob_index } => {
                DeferredUpdateView::SetBlobVerified {
                    tx_hash: tx_hash@,
                    parent_dp_hash: parent_dp_hash@,
                    blob_index: *blob_index,
                }
            },
            DeferredUpdate::SetProofOutputSettled {
                blob_tx_hash,
                blob_parent_dp_hash,
                blob_index,
                blob_proof_output_index,
            } => DeferredUpdateView::SetProofOutputSettled {
                blob_tx_hash: blob_tx_hash@,
                blob_parent_dp_hash: blob_parent_dp_hash@,
                blob_index: *blob_index,
                blob_proof_output_index: *blob_proof_output_index,
            },
            DeferredUpdate::SetContractStateAtBlock {
                state_commitment,
                contract_name,
                block_hash,
            } => DeferredUpdateView::SetContractStateAtBlock {
                state_commitment: state_commitment@,
                contract_name: contract_name@,
                block_hash: block_hash@,
            },
            DeferredUpdate::SetContractState { state_commitment, contract_name } => {
                DeferredUpdateView::SetContractState {
                    state_commitment: state_commitment@,
                    contract_name: contract_name@,
                }
            },
        }
    }
}

impl Row for DeferredUpdate {
    fn duplicate(&self) -> (r: Self) {
        match self {
            DeferredUpdate::SetTransactionStatus { settlement, tx_hash, parent_dp_hash } => {
                DeferredUpdate::SetTransactionStatus {
                    settlement: *settlement,
                    tx_hash: tx_hash.clone(),
                    parent_dp_hash: parent_dp_hash.clone(),
                }
            },
            DeferredUpdate::SetBlobVerified { tx_hash, parent_dp_hash, blob_index } => {
                DeferredUpdate::SetBlobVerified {
                    tx_hash: tx_hash.clone(),
                    parent_dp_hash: parent_dp_hash.clone(),
                    blob_index: *blob_index,
                }
            },
            DeferredUpdate::SetProofOutputSettled {
                blob_tx_hash,
                blob_parent_dp_hash,
                blob_index,
                blob_proof_output_index,
            } => DeferredUpdate::SetProofOutputSettled {
                blob_tx_hash: blob_tx_hash.clone(),
                blob_parent_dp_hash: blob_parent_dp_hash.clone(),
                blob_index: *blob_index,
                blob_proof_output_index: *blob_proof_output_index,
            },
            DeferredUpdate::SetContractStateAtBlock {
                state_commitment,
                contract_name,
                block_hash,
            } => DeferredUpdate::SetContractStateAtBlock {
                state_commitment: clone_bytes(state_commitment),
                contract_name: contract_name.clone(),
                block_hash: block_hash.clone(),
            },
            DeferredUpdate::SetContractState { state_commitment, contract_name } => {
                DeferredUpdate::SetContractState {
                    state_commitment: clone_bytes(state_commitment),
                    contract_name: contract_name.clone(),
                }
            },
        }
    }
}

/// One statement for the relational backend: the table, the rows, and what
/// happens where a row's key is already stored.
#[derive(Clone, Debug, PartialEq, Eq)]
pub enum Statement {
    /// Into `blocks`; a stored hash is left alone.
    InsertBlocks(Vec<BlockRow>),
    /// Into `transactions`, under the given policy.
    InsertTransactions { rows: Vec<TransactionRow>, on_conflict: ConflictPolicy },
    /// Into `blobs`; a stored key is left alone.
    InsertBlobs(Vec<TxDataStore>),
    /// Into `txs_contracts`; a stored key is left alone.
    InsertTxsContracts(Vec<TxContractRef>),
    /// Into `proofs`; a stored key is left alone.
    InsertProofs(Vec<TxProofStore>),
    /// At the end of `transaction_state_events`.
    InsertTransactionEvents(Vec<TxEventStore>),
    /// Into `contracts`; a stored name is overwritten.
    InsertContracts(Vec<TxContractStore>),
    /// At the end of `contract_state`.
    InsertContractStates(Vec<TxContractStateStore>),
    /// Out of `contracts`, by name.
    DeleteContract(String),
    /// At the end of `blob_proof_outputs`.
    InsertBlobProofOutputs(Vec<TxBlobProofOutputStore>),
    /// A change to stored rows.
    Update(DeferredUpdate),
    /// The transactions that still wait for dissemination under the data
    /// proposal `from` are counted under `to`; the statement hands back their
    /// hashes.
    ReparentTransactions { from: DataProposalHashDb, to: DataProposalHashDb },
    /// The blobs of the named transactions that are stored under the data
    /// proposal `from` are counted under `to`.
    ReparentBlobs { from: DataProposalHashDb, to: DataProposalHashDb, tx_hashes: Vec<TxHashDb> },
}

/// What a `Statement` holds, as the contracts read it.
pub enum StatementView {
    InsertBlocks(Seq<BlockRowView>),
    InsertTransactions { rows: Seq<TransactionRowView>, on_conflict: ConflictPolicy },
    InsertBlobs(Seq<TxDataStoreView>),
    InsertTxsContracts(Seq<TxContractRefView>),
    InsertProofs(Seq<TxProofStoreView>),
    InsertTransactionEvents(Seq<TxEventStoreView>),
    InsertContracts(Seq<TxContractStoreView>),
    InsertContractStates(Seq<TxContractStateStoreView>),
    DeleteContract(Seq<char>),
    InsertBlobProofOutputs(Seq<TxBlobProofOutputStoreView>),
    Update(DeferredUpdateView),
    ReparentTransactions { from: Seq<char>, to: Seq<char> },
    ReparentBlobs { from: Seq<char>, to: Seq<char>, tx_hashes: Seq<Seq<char>> },
}

impl View for Statement {
    type V = StatementView;

    open spec fn view(&self) -> StatementView {
        match self {
            Statement::InsertBlocks(rows) => StatementView::InsertBlocks(views(rows@)),
            Statement::InsertTransactions { rows, on_conflict } => {
                StatementView::InsertTransactions { rows: views(rows@), on_conflict: *on_conflict }
            },
            Statement::InsertBlobs(rows) => StatementView::InsertBlobs(views(rows@)),
            Statement::InsertTxsContracts(rows) => StatementView::InsertTxsContracts(views(rows@)),
            Statement::InsertProofs(rows) => StatementView::InsertProofs(views(rows@)),
            Statement::InsertTransactionEvents(rows) => StatementView::InsertTransactionEvents(
                views(rows@),
            ),
            Statement::InsertContracts(rows) => StatementView::InsertContracts(views(rows@)),
            Statement::InsertContractStates(rows) => StatementView::InsertContractStates(
                views(rows@),
            ),
            Statement::DeleteContract(name) => StatementView::DeleteContract(name@),
            Statement::InsertBlobProofOutputs(rows) => StatementView::InsertBlobProofOutputs(
                views(rows@),
            ),
            Statement::Update(update) => StatementView::Update(update@),
            Statement::ReparentTransactions { from, to } => StatementView::ReparentTransactions {
                from: from@,
                to: to@,
            },
            Statement::ReparentBlobs { from, to, tx_hashes } => StatementView::ReparentBlobs {
                from: from@,
                to: to@,
                tx_hashes: views(tx_hashes@),
            },
        }
    }
}

impl Row for Statement {
    fn duplicate(&self) -> (r: Self) {
        match self {
            Statement::InsertBlocks(rows) => Statement::InsertBlocks(duplicate_rows(rows)),
            Statement::InsertTransactions { rows, on_conflict } => Statement::InsertTransactions {
                rows: duplicate_rows(rows),
                on_conflict: *on_conflict,
            },
            Statement::InsertBlobs(rows) => Statement::InsertBlobs(duplicate_rows(rows)),
            Statement::InsertTxsContracts(rows) => Statement::InsertTxsContracts(
                duplicate_rows(rows),
            ),
            Statement::InsertProofs(rows) => Statement::InsertProofs(duplicate_rows(rows)),
            Statement::InsertTransactionEvents(rows) => Statement::InsertTransactionEvents(
                duplicate_rows(rows),
            ),
            Statement::InsertContracts(rows) => Statement::InsertContracts(duplicate_rows(rows)),
            Statement::InsertContractStates(rows) => Statement::InsertContractStates(
                duplicate_rows(rows),
            ),
            Statement::DeleteContract(name) => Statement::DeleteContract(name.clone()),
            Statement::InsertBlobProofOutputs(rows) => Statement::InsertBlobProofOutputs(
                duplicate_rows(rows),
            ),
            Statement::Update(update) => Statement::Update(update.duplicate()),
            Statement::ReparentTransactions { from, to } => Statement::ReparentTransactions {
                from: from.clone(),
                to: to.clone(),
            },
            Statement::ReparentBlobs { from, to, tx_hashes } => Statement::ReparentBlobs {
                from: from.clone(),
                to: to.clone(),
                tx_hashes: duplicate_rows(tx_hashes),
            },
        }
    }
}

} // verus!
