use crate::keyed::{duplicate_rows, unique_keys, ConflictPolicy, Keyed, Row};
use crate::model::{DataProposalHash, LaneId, TimestampMs, TxHash};
use crate::rows::{
    ConsensusProposalHash, TxBlobProofOutputStore, TxBlobProofOutputStoreView,
    TxContractStateStore, TxContractStateStoreView, TxContractStore, TxContractStoreView,
    TxDataStore, TxDataStoreView, TxEventStore, TxEventStoreView, TxProofStore, TxProofStoreView,
};
use crate::seqs::{bytes_opt, clone_bytes_opt, clone_text_opt, text_opt, views};
use crate::statement::{DeferredUpdate, DeferredUpdateView};
use crate::status::TransactionKind;
use vstd::prelude::*;

verus! {

/// What the indexer keeps of a block until the next flush.
#[derive(Clone, Debug, PartialEq, Eq)]
pub struct BufferedBlock {
    pub hash: ConsensusProposalHash,
    pub parent_hash: ConsensusProposalHash,
    pub block_height: u64,
    pub block_timestamp: TimestampMs,
    pub total_txs: usize,
}

/// What a `BufferedBlock` holds, as the contracts read it.
pub struct BufferedBlockView {
    pub hash: Seq<char>,
    pub parent_hash: Seq<char>,
    pub block_height: u64,
    pub block_timestamp: TimestampMs,
    pub total_txs: usize,
}

impl View for BufferedBlock {
    type V = BufferedBlockView;

    open spec fn view(&self) -> BufferedBlockView {
        BufferedBlockView {
            hash: self.hash@,
            parent_hash: self.parent_hash@,
            block_height: self.block_height,
            block_timestamp: self.block_timestamp,
            total_txs: self.total_txs,
        }
    }
}

impl Row for BufferedBlock {
    fn duplicate(&self) -> (r: Self) {
        BufferedBlock {
            hash: self.hash.clone(),
            parent_hash: self.parent_hash.clone(),
            block_height: self.block_height,
            block_timestamp: self.block_timestamp,
            total_txs: self.total_txs,
        }
    }
}

/// What the indexer keeps of a transaction that a block held, until the next
/// flush. It is found again by `parent_dp_hash` and `tx_hash`; `lane_id` is
/// empty where the block names no lane for the transaction.
#[derive(Clone, Debug, PartialEq, Eq)]
pub struct BufferedTx {
    pub parent_dp_hash: DataProposalHash,
    pub tx_hash: TxHash,
    pub index: i32,
    pub block_hash: ConsensusProposalHash,
    pub block_height: u64,
    pub lane_id: Option<LaneId>,
    pub version: u32,
    pub kind: TransactionKind,
    pub identity: Option<String>,
}

/// What a `BufferedTx` holds, as the contracts read it.
pub struct BufferedTxView {
    pub parent_dp_hash: Seq<char>,
    pub tx_hash: Seq<char>,
    pub index: i32,
    pub block_hash: Seq<char>,
    pub block_height: u64,
    pub lane_id: Option<Seq<u8>>,
    pub version: u32,
    pub kind: TransactionKind,
    pub identity: Option<Seq<char>>,
}

impl View for BufferedTx {
    type V = BufferedTxView;

    open spec fn view(&self) -> BufferedTxView {
        BufferedTxView {
            parent_dp_hash: self.parent_dp_hash@,
            tx_hash: self.tx_hash@,
            index: self.index,
            block_hash: self.block_hash@,
            block_height: self.block_height,
            lane_id: bytes_opt(self.lane_id),
            version: self.version,
            kind: self.kind,
            identity: text_opt(self.identity),
        }
    }
}

impl Row for BufferedTx {
    fn duplicate(&self) -> (r: Self) {
        BufferedTx {
            parent_dp_hash: self.parent_dp_hash.clone(),
            tx_hash: self.tx_hash.clone(),
            index: self.index,
            block_hash: self.block_hash.clone(),
            block_height: self.block_height,
            lane_id: clone_bytes_opt(&self.lane_id),
            version: self.version,
            kind: self.kind,
            identity: clone_text_opt(&self.identity),
        }
    }
}

impl Keyed for BufferedTx {
    type Key = (Seq<char>, Seq<char>);

    open spec fn key(v: BufferedTxView) -> (Seq<char>, Seq<char>) {
        (v.parent_dp_hash, v.tx_hash)
    }

    open spec fn merged(stored: BufferedTxView, arriving: BufferedTxView, policy: ConflictPolicy)
        -> BufferedTxView {
        match policy {
            ConflictPolicy::Ignore => stored,
            _ => arriving,
        }
    }

    proof fn lemma_merged_keeps_key(
        stored: BufferedTxView,
        arriving: BufferedTxView,
        policy: ConflictPolicy,
    ) {
    }

    fn same_key(&self, other: &Self) -> (r: bool) {
        self.parent_dp_hash == other.parent_dp_hash && self.tx_hash == other.tx_hash
    }

    fn merge(&self, arriving: &Self, policy: ConflictPolicy) -> (r: Self) {
        match policy {
            ConflictPolicy::Ignore => self.duplicate(),
            _ => arriving.duplicate(),
        }
    }
}

/// The write buffer: what the indexer has read and not yet handed to the
/// backend.
///
/// `block_txs` and `contracts` hold one entry for a key, the last that came;
/// `deleted_contracts` holds a name once. The other fields are lists in the
/// order of arrival.
#[derive(Clone, Debug, PartialEq, Eq)]
pub struct IndexerHandlerStore {
    pub blocks: Vec<BufferedBlock>,
    pub block_txs: Vec<BufferedTx>,
    pub tx_data: Vec<TxDataStore>,
    pub tx_data_proofs: Vec<TxProofStore>,
    pub transactions_events: Vec<TxEventStore>,
    pub sql_updates: Vec<DeferredUpdate>,
    pub contracts: Vec<TxContractStore>,
    pub contract_states: Vec<TxContractStateStore>,
    pub deleted_contracts: Vec<String>,
    pub blob_proof_outputs: Vec<TxBlobProofOutputStore>,
}

/// What a `IndexerHandlerStore` holds, as the contracts read it.
#[verifier::ext_equal]
pub struct StoreView {
    pub blocks: Seq<BufferedBlockView>,
    pub block_txs: Seq<BufferedTxView>,
    pub tx_data: Seq<TxDataStoreView>,
    pub tx_data_proofs: Seq<TxProofStoreView>,
    pub transactions_events: Seq<TxEventStoreView>,
    pub sql_updates: Seq<DeferredUpdateView>,
    pub contracts: Seq<TxContractStoreView>,
    pub contract_states: Seq<TxContractStateStoreView>,
    pub deleted_contracts: Seq<Seq<char>>,
    pub blob_proof_outputs: Seq<TxBlobProofOutputStoreView>,
}

impl View for IndexerHandlerStore {
    type V = StoreView;

    open spec fn view(&self) -> StoreView {
        StoreView {
            blocks: views(self.blocks@),
            block_txs: views(self.block_txs@),
            tx_data: views(self.tx_data@),
            tx_data_proofs: views(self.tx_data_proofs@),
            transactions_events: views(self.transactions_events@),
            sql_updates: views(self.sql_updates@),
            contracts: views(self.contracts@),
            contract_states: views(self.contract_states@),
            deleted_contracts: views(self.deleted_contracts@),
            blob_proof_outputs: views(self.blob_proof_outputs@),
        }
    }
}

impl Row for IndexerHandlerStore {
    fn duplicate(&self) -> (r: Self) {
        IndexerHandlerStore {
            blocks: duplicate_rows(&self.blocks),
            block_txs: duplicate_rows(&self.block_txs),
            tx_data: duplicate_rows(&self.tx_data),
            tx_data_proofs: duplicate_rows(&self.tx_data_proofs),
            transactions_events: duplicate_rows(&self.transactions_events),
            sql_updates: duplicate_rows(&self.sql_updates),
            contracts: duplicate_rows(&self.contracts),
            contract_states: duplicate_rows(&self.contract_states),
            deleted_contracts: duplicate_rows(&self.deleted_contracts),
            blob_proof_outputs: duplicate_rows(&self.blob_proof_outputs),
        }
    }
}

impl StoreView {
    /// The buffer that holds nothing.
    pub open spec fn empty() -> StoreView {
        StoreView {
            blocks: Seq::empty(),
            block_txs: Seq::empty(),
            tx_data: Seq::empty(),
            tx_data_proofs: Seq::empty(),
            transactions_events: Seq::empty(),
            sql_updates: Seq::empty(),
            contracts: Seq::empty(),
            contract_states: Seq::empty(),
            deleted_contracts: Seq::empty(),
            blob_proof_outputs: Seq::empty(),
        }
    }

    /// No key is buffered twice.
    pub open spec fn wf(self) -> bool {
        &&& unique_keys::<BufferedTx>(self.block_txs)
        &&& unique_keys::<TxContractStore>(self.contracts)
        &&& unique_keys::<String>(self.deleted_contracts)
    }
}

/// How many entries of each kind the buffer holds.
#[derive(Clone, Copy, Debug, PartialEq, Eq, Structural)]
pub struct StoreCounts {
    pub blocks: usize,
    pub block_txs: usize,
    pub tx_data: usize,
    pub tx_data_proofs: usize,
    pub transactions_events: usize,
    pub sql_updates: usize,
    pub contracts: usize,
    pub contract_states: usize,
    pub blob_proof_outputs: usize,
}

impl IndexerHandlerStore {
    /// An empty buffer.
    pub fn new() -> (r: Self)
        ensures
            r@ == StoreView::empty(),
            r@.wf(),
    {
        let r = IndexerHandlerStore {
            blocks: Vec::new(),
            block_txs: Vec::new(),
            tx_data: Vec::new(),
            tx_data_proofs: Vec::new(),
            transactions_events: Vec::new(),
            sql_updates: Vec::new(),
            contracts: Vec::new(),
            contract_states: Vec::new(),
            deleted_contracts: Vec::new(),
            blob_proof_outputs: Vec::new(),
        };
        assert(r@ =~~= StoreView::empty());
        r
    }

    /// Empties the buffer: what it held has been committed.
    pub fn clear(&mut self)
        ensures
            final(self)@ == StoreView::empty(),
            final(self)@.wf(),
    {
        *self = IndexerHandlerStore::new();
    }

    /// How many entries of each kind the buffer holds.
    pub fn counts(&self) -> (r: StoreCounts)
        ensures
            r.blocks == self@.blocks.len(),
            r.block_txs == self@.block_txs.len(),
            r.tx_data == self@.tx_data.len(),
            r.tx_data_proofs == self@.tx_data_proofs.len(),
            r.transactions_events == self@.transactions_events.len(),
            r.sql_updates == self@.sql_updates.len(),
            r.contracts == self@.contracts.len(),
            r.contract_states == self@.contract_states.len(),
            r.blob_proof_outputs == self@.blob_proof_outputs.len(),
    {
        StoreCounts {
            blocks: self.blocks.len(),
            block_txs: self.block_txs.len(),
            tx_data: self.tx_data.len(),
            tx_data_proofs: self.tx_data_proofs.len(),
            transactions_events: self.transactions_events.len(),
            sql_updates: self.sql_updates.len(),
            contracts: self.contracts.len(),
            contract_states: self.contract_states.len(),
            blob_proof_outputs: self.blob_proof_outputs.len(),
        }
    }
}

} // verus!
