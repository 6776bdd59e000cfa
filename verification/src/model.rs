use crate::keyed::{duplicate_rows, ConflictPolicy, Keyed, Row};
use crate::rows::ConsensusProposalHash;
use crate::seqs::{bytes_opt, clone_bytes, clone_bytes_opt, views};
use crate::status::TransactionKind;
use vstd::prelude::*;

verus! {

/// Hash of a transaction.
pub type TxHash = String;

/// Hash of a data proposal.
pub type DataProposalHash = String;

/// Name of a contract.
pub type ContractName = String;

/// The dissemination shard through which a transaction came.
pub type LaneId = Vec<u8>;

/// Milliseconds since the Unix epoch.
pub type TimestampMs = u64;

/// The identity of a transaction: the data proposal it is counted under, and
/// its own hash. The first part can be superseded while the transaction waits
/// for dissemination.
#[derive(Clone, Debug, PartialEq, Eq)]
pub struct TxId(pub DataProposalHash, pub TxHash);

impl View for TxId {
    type V = (Seq<char>, Seq<char>);

    open spec fn view(&self) -> (Seq<char>, Seq<char>) {
        (self.0@, self.1@)
    }
}

impl Row for TxId {
    fn duplicate(&self) -> (r: Self) {
        TxId(self.0.clone(), self.1.clone())
    }
}

/// A payload addressed to a contract.
#[derive(Clone, Debug, PartialEq, Eq)]
pub struct Blob {
    pub contract_name: ContractName,
    pub data: Vec<u8>,
}

/// What a `Blob` holds, as the contracts read it.
pub struct BlobView {
    pub contract_name: Seq<char>,
    pub data: Seq<u8>,
}

impl View for Blob {
    type V = BlobView;

    open spec fn view(&self) -> BlobView {
        BlobView {
            contract_name: self.contract_name@,
            data: self.data@,
        }
    }
}

impl Row for Blob {
    fn duplicate(&self) -> (r: Self) {
        Blob {
            contract_name: self.contract_name.clone(),
            data: clone_bytes(&self.data),
        }
    }
}

/// A transaction that carries blobs, submitted under an identity.
#[derive(Clone, Debug, PartialEq, Eq)]
pub struct BlobTransaction {
    pub identity: String,
    pub blobs: Vec<Blob>,
}

/// What a `BlobTransaction` holds, as the contracts read it.
pub struct BlobTransactionView {
    pub identity: Seq<char>,
    pub blobs: Seq<BlobView>,
}

impl View for BlobTransaction {
    type V = BlobTransactionView;

    open spec fn view(&self) -> BlobTransactionView {
        BlobTransactionView {
            identity: self.identity@,
            blobs: views(self.blobs@),
        }
    }
}

impl Row for BlobTransaction {
    fn duplicate(&self) -> (r: Self) {
        BlobTransaction {
            identity: self.identity.clone(),
            blobs: duplicate_rows(&self.blobs),
        }
    }
}

/// What a transaction carries, as far as the indexer reads it.
#[derive(Clone, Debug, PartialEq, Eq)]
pub enum TransactionData {
    Blob(BlobTransaction),
    Proof,
    VerifiedProof { proof: Option<Vec<u8>> },
}

/// What a `TransactionData` holds, as the contracts read it.
pub enum TransactionDataView {
    Blob(BlobTransactionView),
    Proof,
    VerifiedProof { proof: Option<Seq<u8>> },
}

impl View for TransactionData {
    type V = TransactionDataView;

    open spec fn view(&self) -> TransactionDataView {
        match self {
            TransactionData::Blob(blob_tx) => TransactionDataView::Blob(blob_tx@),
            TransactionData::Proof => TransactionDataView::Proof,
            TransactionData::VerifiedProof { proof } => TransactionDataView::VerifiedProof {
                proof: bytes_opt(*proof),
            },
        }
    }
}

impl Row for TransactionData {
    fn duplicate(&self) -> (r: Self) {
        match self {
            TransactionData::Blob(blob_tx) => TransactionData::Blob(blob_tx.duplicate()),
            TransactionData::Proof => TransactionData::Proof,
            TransactionData::VerifiedProof { proof } => TransactionData::VerifiedProof {
                proof: clone_bytes_opt(proof),
            },
        }
    }
}

impl TransactionDataView {
    /// The kind of the transaction.
    pub open spec fn kind(self) -> TransactionKind {
        match self {
            TransactionDataView::Blob(_) => TransactionKind::Blob,
            TransactionDataView::Proof => TransactionKind::Proof,
            TransactionDataView::VerifiedProof { .. } => TransactionKind::VerifiedProof,
        }
    }
}

impl TransactionData {
    /// The kind of the transaction.
    pub fn kind(&self) -> (r: TransactionKind)
        ensures
            r == self@.kind(),
    {
        match self {
            TransactionData::Blob(_) => TransactionKind::Blob,
            TransactionData::Proof => TransactionKind::Proof,
            TransactionData::VerifiedProof { .. } => TransactionKind::VerifiedProof,
        }
    }
}

/// A transaction of the ledger.
#[derive(Clone, Debug, PartialEq, Eq)]
pub struct Transaction {
    pub version: u32,
    pub transaction_data: TransactionData,
}

/// What a `Transaction` holds, as the contracts read it.
pub struct TransactionView {
    pub version: u32,
    pub transaction_data: TransactionDataView,
}

impl View for Transaction {
    type V = TransactionView;

    open spec fn view(&self) -> TransactionView {
        TransactionView {
            version: self.version,
            transaction_data: self.transaction_data@,
        }
    }
}

impl Row for Transaction {
    fn duplicate(&self) -> (r: Self) {
        Transaction {
            version: self.version,
            transaction_data: self.transaction_data.duplicate(),
        }
    }
}

/// What the mempool tells of a transaction that it sealed into a data proposal.
#[derive(Clone, Debug, PartialEq, Eq)]
pub struct TransactionMetadata {
    pub version: u32,
    pub transaction_kind: TransactionKind,
    pub id: TxId,
}

/// What a `TransactionMetadata` holds, as the contracts read it.
pub struct TransactionMetadataView {
    pub version: u32,
    pub transaction_kind: TransactionKind,
    pub id: (Seq<char>, Seq<char>),
}

impl View for TransactionMetadata {
    type V = TransactionMetadataView;

    open spec fn view(&self) -> TransactionMetadataView {
        TransactionMetadataView {
            version: self.version,
            transaction_kind: self.transaction_kind,
            id: self.id@,
        }
    }
}

impl Row for TransactionMetadata {
    fn duplicate(&self) -> (r: Self) {
        TransactionMetadata {
            version: self.version,
            transaction_kind: self.transaction_kind,
            id: self.id.duplicate(),
        }
    }
}

/// A transaction in a block, with its identity.
#[derive(Clone, Debug, PartialEq, Eq)]
pub struct IncludedTransaction {
    pub id: TxId,
    pub tx: Transaction,
}

/// What a `IncludedTransaction` holds, as the contracts read it.
pub struct IncludedTransactionView {
    pub id: (Seq<char>, Seq<char>),
    pub tx: TransactionView,
}

impl View for IncludedTransaction {
    type V = IncludedTransactionView;

    open spec fn view(&self) -> IncludedTransactionView {
        IncludedTransactionView {
            id: self.id@,
            tx: self.tx@,
        }
    }
}

impl Row for IncludedTransaction {
    fn duplicate(&self) -> (r: Self) {
        IncludedTransaction {
            id: self.id.duplicate(),
            tx: self.tx.duplicate(),
        }
    }
}

/// Which data proposal a transaction of a block is counted under.
#[derive(Clone, Debug, PartialEq, Eq)]
pub struct DataProposalParent {
    pub tx_hash: TxHash,
    pub data_proposal_hash: DataProposalHash,
}

/// What a `DataProposalParent` holds, as the contracts read it.
pub struct DataProposalParentView {
    pub tx_hash: Seq<char>,
    pub data_proposal_hash: Seq<char>,
}

impl View for DataProposalParent {
    type V = DataProposalParentView;

    open spec fn view(&self) -> DataProposalParentView {
        DataProposalParentView {
            tx_hash: self.tx_hash@,
            data_proposal_hash: self.data_proposal_hash@,
        }
    }
}

impl Row for DataProposalParent {
    fn duplicate(&self) -> (r: Self) {
        DataProposalParent {
            tx_hash: self.tx_hash.clone(),
            data_proposal_hash: self.data_proposal_hash.clone(),
        }
    }
}

impl Keyed for DataProposalParent {
    type Key = Seq<char>;

    open spec fn key(v: DataProposalParentView) -> Seq<char> {
        v.tx_hash
    }

    open spec fn merged(
        stored: DataProposalParentView,
        arriving: DataProposalParentView,
        policy: ConflictPolicy,
    ) -> DataProposalParentView {
        match policy {
            ConflictPolicy::Ignore => stored,
            _ => arriving,
        }
    }

    proof fn lemma_merged_keeps_key(
        stored: DataProposalParentView,
        arriving: DataProposalParentView,
        policy: ConflictPolicy,
    ) {
    }

    fn same_key(&self, other: &Self) -> (r: bool) {
        self.tx_hash == other.tx_hash
    }

    fn merge(&self, arriving: &Self, policy: ConflictPolicy) -> (r: Self) {
        match policy {
            ConflictPolicy::Ignore => self.duplicate(),
            _ => arriving.duplicate(),
        }
    }
}

/// Through which lane a transaction of a block came.
#[derive(Clone, Debug, PartialEq, Eq)]
pub struct LaneEntry {
    pub tx_hash: TxHash,
    pub lane_id: LaneId,
}

/// What a `LaneEntry` holds, as the contracts read it.
pub struct LaneEntryView {
    pub tx_hash: Seq<char>,
    pub lane_id: Seq<u8>,
}

impl View for LaneEntry {
    type V = LaneEntryView;

    open spec fn view(&self) -> LaneEntryView {
        LaneEntryView {
            tx_hash: self.tx_hash@,
            lane_id: self.lane_id@,
        }
    }
}

impl Row for LaneEntry {
    fn duplicate(&self) -> (r: Self) {
        LaneEntry {
            tx_hash: self.tx_hash.clone(),
            lane_id: clone_bytes(&self.lane_id),
        }
    }
}

impl Keyed for LaneEntry {
    type Key = Seq<char>;

    open spec fn key(v: LaneEntryView) -> Seq<char> {
        v.tx_hash
    }

    open spec fn merged(stored: LaneEntryView, arriving: LaneEntryView, policy: ConflictPolicy)
        -> LaneEntryView {
        match policy {
            ConflictPolicy::Ignore => stored,
            _ => arriving,
        }
    }

    proof fn lemma_merged_keeps_key(
        stored: LaneEntryView,
        arriving: LaneEntryView,
        policy: ConflictPolicy,
    ) {
    }

    fn same_key(&self, other: &Self) -> (r: bool) {
        self.tx_hash == other.tx_hash
    }

    fn merge(&self, arriving: &Self, policy: ConflictPolicy) -> (r: Self) {
        match policy {
            ConflictPolicy::Ignore => self.duplicate(),
            _ => arriving.duplicate(),
        }
    }
}

/// A proof that claims to settle one blob. `hyle_output` is the proof's output,
/// as a structured payload that the library carries and does not read.
#[derive(Clone, Debug, PartialEq, Eq)]
pub struct HandledBlobProofOutput {
    pub proof_tx_hash: TxHash,
    pub blob_tx_hash: TxHash,
    pub blob_index: usize,
    pub blob_proof_output_index: usize,
    pub contract_name: ContractName,
    pub hyle_output: String,
}

/// What a `HandledBlobProofOutput` holds, as the contracts read it.
pub struct HandledBlobProofOutputView {
    pub proof_tx_hash: Seq<char>,
    pub blob_tx_hash: Seq<char>,
    pub blob_index: usize,
    pub blob_proof_output_index: usize,
    pub contract_name: Seq<char>,
    pub hyle_output: Seq<char>,
}

impl View for HandledBlobProofOutput {
    type V = HandledBlobProofOutputView;

    open spec fn view(&self) -> HandledBlobProofOutputView {
        HandledBlobProofOutputView {
            proof_tx_hash: self.proof_tx_hash@,
            blob_tx_hash: self.blob_tx_hash@,
            blob_index: self.blob_index,
            blob_proof_output_index: self.blob_proof_output_index,
            contract_name: self.contract_name@,
            hyle_output: self.hyle_output@,
        }
    }
}

impl Row for HandledBlobProofOutput {
    fn duplicate(&self) -> (r: Self) {
        HandledBlobProofOutput {
            proof_tx_hash: self.proof_tx_hash.clone(),
            blob_tx_hash: self.blob_tx_hash.clone(),
            blob_index: self.blob_index,
            blob_proof_output_index: self.blob_proof_output_index,
            contract_name: self.contract_name.clone(),
            hyle_output: self.hyle_output.clone(),
        }
    }
}

/// The ledger confirmed a blob, and names the proof output that settled it
/// where there is one.
#[derive(Clone, Debug, PartialEq, Eq)]
pub struct VerifiedBlob {
    pub blob_tx_hash: TxHash,
    pub blob_index: usize,
    pub blob_proof_output_index: Option<usize>,
}

/// What a `VerifiedBlob` holds, as the contracts read it.
pub struct VerifiedBlobView {
    pub blob_tx_hash: Seq<char>,
    pub blob_index: usize,
    pub blob_proof_output_index: Option<usize>,
}

impl View for VerifiedBlob {
    type V = VerifiedBlobView;

    open spec fn view(&self) -> VerifiedBlobView {
        VerifiedBlobView {
            blob_tx_hash: self.blob_tx_hash@,
            blob_index: self.blob_index,
            blob_proof_output_index: self.blob_proof_output_index,
        }
    }
}

impl Row for VerifiedBlob {
    fn duplicate(&self) -> (r: Self) {
        VerifiedBlob {
            blob_tx_hash: self.blob_tx_hash.clone(),
            blob_index: self.blob_index,
            blob_proof_output_index: self.blob_proof_output_index,
        }
    }
}

/// A contract that a transaction of the block registered.
#[derive(Clone, Debug, PartialEq, Eq)]
pub struct RegisteredContract {
    pub tx_hash: TxHash,
    pub verifier: String,
    pub program_id: Vec<u8>,
    pub state_commitment: Vec<u8>,
    pub contract_name: ContractName,
}

/// What a `RegisteredContract` holds, as the contracts read it.
pub struct RegisteredContractView {
    pub tx_hash: Seq<char>,
    pub verifier: Seq<char>,
    pub program_id: Seq<u8>,
    pub state_commitment: Seq<u8>,
    pub contract_name: Seq<char>,
}

impl View for RegisteredContract {
    type V = RegisteredContractView;

    open spec fn view(&self) -> RegisteredContractView {
        RegisteredContractView {
            tx_hash: self.tx_hash@,
            verifier: self.verifier@,
            program_id: self.program_id@,
            state_commitment: self.state_commitment@,
            contract_name: self.contract_name@,
        }
    }
}

impl Row for RegisteredContract {
    fn duplicate(&self) -> (r: Self) {
        RegisteredContract {
            tx_hash: self.tx_hash.clone(),
            verifier: self.verifier.clone(),
            program_id: clone_bytes(&self.program_id),
            state_commitment: clone_bytes(&self.state_commitment),
            contract_name: self.contract_name.clone(),
        }
    }
}

/// The state commitment of a contract after the block.
#[derive(Clone, Debug, PartialEq, Eq)]
pub struct UpdatedState {
    pub contract_name: ContractName,
    pub state_commitment: Vec<u8>,
}

/// What a `UpdatedState` holds, as the contracts read it.
pub struct UpdatedStateView {
    pub contract_name: Seq<char>,
    pub state_commitment: Seq<u8>,
}

impl View for UpdatedState {
    type V = UpdatedStateView;

    open spec fn view(&self) -> UpdatedStateView {
        UpdatedStateView {
            contract_name: self.contract_name@,
            state_commitment: self.state_commitment@,
        }
    }
}

impl Row for UpdatedState {
    fn duplicate(&self) -> (r: Self) {
        UpdatedState {
            contract_name: self.contract_name.clone(),
            state_commitment: clone_bytes(&self.state_commitment),
        }
    }
}

/// The events of one transaction in a block, as a structured payload that the
/// library carries and does not read.
#[derive(Clone, Debug, PartialEq, Eq)]
pub struct TransactionEvents {
    pub tx_hash: TxHash,
    pub events: String,
}

/// What a `TransactionEvents` holds, as the contracts read it.
pub struct TransactionEventsView {
    pub tx_hash: Seq<char>,
    pub events: Seq<char>,
}

impl View for TransactionEvents {
    type V = TransactionEventsView;

    open spec fn view(&self) -> TransactionEventsView {
        TransactionEventsView {
            tx_hash: self.tx_hash@,
            events: self.events@,
        }
    }
}

impl Row for TransactionEvents {
    fn duplicate(&self) -> (r: Self) {
        TransactionEvents {
            tx_hash: self.tx_hash.clone(),
            events: self.events.clone(),
        }
    }
}

/// A block that the ledger confirmed, with all that it settled.
#[derive(Clone, Debug, PartialEq, Eq)]
pub struct Block {
    pub hash: ConsensusProposalHash,
    pub parent_hash: ConsensusProposalHash,
    pub block_height: u64,
    pub block_timestamp: TimestampMs,
    pub txs: Vec<IncludedTransaction>,
    pub dp_parent_hashes: Vec<DataProposalParent>,
    pub lane_ids: Vec<LaneEntry>,
    pub successful_txs: Vec<TxHash>,
    pub failed_txs: Vec<TxHash>,
    pub timed_out_txs: Vec<TxHash>,
    pub blob_proof_outputs: Vec<HandledBlobProofOutput>,
    pub verified_blobs: Vec<VerifiedBlob>,
    pub registered_contracts: Vec<RegisteredContract>,
    pub deleted_contracts: Vec<ContractName>,
    pub updated_states: Vec<UpdatedState>,
    pub transactions_events: Vec<TransactionEvents>,
}

/// What a `Block` holds, as the contracts read it.
pub struct BlockView {
    pub hash: Seq<char>,
    pub parent_hash: Seq<char>,
    pub block_height: u64,
    pub block_timestamp: TimestampMs,
    pub txs: Seq<IncludedTransactionView>,
    pub dp_parent_hashes: Seq<DataProposalParentView>,
    pub lane_ids: Seq<LaneEntryView>,
    pub successful_txs: Seq<Seq<char>>,
    pub failed_txs: Seq<Seq<char>>,
    pub timed_out_txs: Seq<Seq<char>>,
    pub blob_proof_outputs: Seq<HandledBlobProofOutputView>,
    pub verified_blobs: Seq<VerifiedBlobView>,
    pub registered_contracts: Seq<RegisteredContractView>,
    pub deleted_contracts: Seq<Seq<char>>,
    pub updated_states: Seq<UpdatedStateView>,
    pub transactions_events: Seq<TransactionEventsView>,
}

impl View for Block {
    type V = BlockView;

    open spec fn view(&self) -> BlockView {
        BlockView {
            hash: self.hash@,
            parent_hash: self.parent_hash@,
            block_height: self.block_height,
            block_timestamp: self.block_timestamp,
            txs: views(self.txs@),
            dp_parent_hashes: views(self.dp_parent_hashes@),
            lane_ids: views(self.lane_ids@),
            successful_txs: views(self.successful_txs@),
            failed_txs: views(self.failed_txs@),
            timed_out_txs: views(self.timed_out_txs@),
            blob_proof_outputs: views(self.blob_proof_outputs@),
            verified_blobs: views(self.verified_blobs@),
            registered_contracts: views(self.registered_contracts@),
            deleted_contracts: views(self.deleted_contracts@),
            updated_states: views(self.updated_states@),
            transactions_events: views(self.transactions_events@),
        }
    }
}

impl Row for Block {
    fn duplicate(&self) -> (r: Self) {
        Block {
            hash: self.hash.clone(),
            parent_hash: self.parent_hash.clone(),
            block_height: self.block_height,
            block_timestamp: self.block_timestamp,
            txs: duplicate_rows(&self.txs),
            dp_parent_hashes: duplicate_rows(&self.dp_parent_hashes),
            lane_ids: duplicate_rows(&self.lane_ids),
            successful_txs: duplicate_rows(&self.successful_txs),
            failed_txs: duplicate_rows(&self.failed_txs),
            timed_out_txs: duplicate_rows(&self.timed_out_txs),
            blob_proof_outputs: duplicate_rows(&self.blob_proof_outputs),
            verified_blobs: duplicate_rows(&self.verified_blobs),
            registered_contracts: duplicate_rows(&self.registered_contracts),
            deleted_contracts: duplicate_rows(&self.deleted_contracts),
            updated_states: duplicate_rows(&self.updated_states),
            transactions_events: duplicate_rows(&self.transactions_events),
        }
    }
}

/// What the ledger tells the indexer.
#[derive(Clone, Debug, PartialEq, Eq)]
pub enum NodeStateEvent {
    NewBlock(Block),
}

/// What the mempool tells the indexer of transactions that no block holds yet.
#[derive(Clone, Debug, PartialEq, Eq)]
pub enum MempoolStatusEvent {
    /// A transaction entered the dissemination pipeline.
    WaitingDissemination {
        parent_data_proposal_hash: DataProposalHash,
        tx_hash: TxHash,
        tx: Transaction,
    },
    /// Transactions were sealed into the data proposal `data_proposal_hash`,
    /// whose parent is `parent_data_proposal_hash`.
    DataProposalCreated {
        parent_data_proposal_hash: DataProposalHash,
        data_proposal_hash: DataProposalHash,
        txs_metadatas: Vec<TransactionMetadata>,
    },
}

/// What a `MempoolStatusEvent` holds, as the contracts read it.
pub enum MempoolStatusEventView {
    WaitingDissemination {
        parent_data_proposal_hash: Seq<char>,
        tx_hash: Seq<char>,
        tx: TransactionView,
    },
    DataProposalCreated {
        parent_data_proposal_hash: Seq<char>,
        data_proposal_hash: Seq<char>,
        txs_metadatas: Seq<TransactionMetadataView>,
    },
}

impl View for MempoolStatusEvent {
    type V = MempoolStatusEventView;

    open spec fn view(&self) -> MempoolStatusEventView {
        match self {
            MempoolStatusEvent::WaitingDissemination { parent_data_proposal_hash, tx_hash, tx } => {
                MempoolStatusEventView::WaitingDissemination {
                    parent_data_proposal_hash: parent_data_proposal_hash@,
                    tx_hash: tx_hash@,
                    tx: tx@,
                }
            },
            MempoolStatusEvent::DataProposalCreated {
                parent_data_proposal_hash,
                data_proposal_hash,
                txs_metadatas,
            } => MempoolStatusEventView::DataProposalCreated {
                parent_data_proposal_hash: parent_data_proposal_hash@,
                data_proposal_hash: data_proposal_hash@,
                txs_metadatas: views(txs_metadatas@),
            },
        }
    }
}

} // verus!
