use crate::keyed::{ConflictPolicy, Keyed, Row};
use crate::seqs::{bytes_opt, clone_bytes, clone_bytes_opt, clone_text_opt, text_opt};
use crate::status::{TransactionStatusDb, TransactionTypeDb};
use vstd::prelude::*;

verus! {

/// Hash of a transaction, as stored.
pub type TxHashDb = String;

/// Hash of a data proposal, as stored.
pub type DataProposalHashDb = String;

/// Hash of a consensus proposal: the identity of a block.
pub type ConsensusProposalHash = String;

/// The dissemination shard through which a transaction came, as stored.
pub type LaneIdDb = Vec<u8>;

/// A row of the `blocks` table, found again by `hash`.
#[derive(Debug, PartialEq, Eq)]
pub struct BlockRow {
    pub hash: ConsensusProposalHash,
    pub parent_hash: ConsensusProposalHash,
    pub height: i64,
    pub timestamp: chrono::NaiveDateTime,
    pub total_txs: i64,
}

/// What a `BlockRow` holds, as the contracts read it.
pub struct BlockRowView {
    pub hash: Seq<char>,
    pub parent_hash: Seq<char>,
    pub height: i64,
    pub timestamp: chrono::NaiveDateTime,
    pub total_txs: i64,
}

impl View for BlockRow {
    type V = BlockRowView;

    open spec fn view(&self) -> BlockRowView {
        BlockRowView {
            hash: self.hash@,
            parent_hash: self.parent_hash@,
            height: self.height,
            timestamp: self.timestamp,
            total_txs: self.total_txs,
        }
    }
}

impl Row for BlockRow {
    fn duplicate(&self) -> (r: Self) {
        BlockRow {
            hash: self.hash.clone(),
            parent_hash: self.parent_hash.clone(),
            height: self.height,
            timestamp: self.timestamp,
            total_txs: self.total_txs,
        }
    }
}

/// A row of the `transactions` table, found again by `tx_hash` and
/// `parent_dp_hash`. The block columns are empty until a block holds the
/// transaction.
#[derive(Clone, Debug, PartialEq, Eq)]
pub struct TransactionRow {
    pub tx_hash: TxHashDb,
    pub parent_dp_hash: DataProposalHashDb,
    pub version: i32,
    pub transaction_type: TransactionTypeDb,
    pub transaction_status: TransactionStatusDb,
    pub block_hash: Option<ConsensusProposalHash>,
    pub block_height: Option<i64>,
    pub index: Option<i32>,
    pub lane_id: Option<LaneIdDb>,
    pub identity: Option<String>,
}

/// What a `TransactionRow` holds, as the contracts read it.
pub struct TransactionRowView {
    pub tx_hash: Seq<char>,
    pub parent_dp_hash: Seq<char>,
    pub version: i32,
    pub transaction_type: TransactionTypeDb,
    pub transaction_status: TransactionStatusDb,
    pub block_hash: Option<Seq<char>>,
    pub block_height: Option<i64>,
    pub index: Option<i32>,
    pub lane_id: Option<Seq<u8>>,
    pub identity: Option<Seq<char>>,
}

impl View for TransactionRow {
    type V = TransactionRowView;

    open spec fn view(&self) -> TransactionRowView {
        TransactionRowView {
            tx_hash: self.tx_hash@,
            parent_dp_hash: self.parent_dp_hash@,
            version: self.version,
            transaction_type: self.transaction_type,
            transaction_status: self.transaction_status,
            block_hash: text_opt(self.block_hash),
            block_height: self.block_height,
            index: self.index,
            lane_id: bytes_opt(self.lane_id),
            identity: text_opt(self.identity),
        }
    }
}

impl Row for TransactionRow {
    fn duplicate(&self) -> (r: Self) {
        TransactionRow {
            tx_hash: self.tx_hash.clone(),
            parent_dp_hash: self.parent_dp_hash.clone(),
            version: self.version,
            transaction_type: self.transaction_type,
            transaction_status: self.transaction_status,
            block_hash: clone_text_opt(&self.block_hash),
            block_height: self.block_height,
            index: self.index,
            lane_id: clone_bytes_opt(&self.lane_id),
            identity: clone_text_opt(&self.identity),
        }
    }
}

/// One blob of a blob transaction: a row of the `blobs` table, found again by
/// `tx_hash`, `parent_data_proposal_hash` and `blob_index`.
#[derive(Clone, Debug, PartialEq, Eq)]
pub struct TxDataStore {
    pub tx_hash: TxHashDb,
    pub parent_data_proposal_hash: DataProposalHashDb,
    pub blob_index: i32,
    pub identity: String,
    pub contract_name: String,
    pub blob_data: Vec<u8>,
    pub verified: bool,
}

/// What a `TxDataStore` holds, as the contracts read it.
pub struct TxDataStoreView {
    pub tx_hash: Seq<char>,
    pub parent_data_proposal_hash: Seq<char>,
    pub blob_index: i32,
    pub identity: Seq<char>,
    pub contract_name: Seq<char>,
    pub blob_data: Seq<u8>,
    pub verified: bool,
}

impl View for TxDataStore {
    type V = TxDataStoreView;

    open spec fn view(&self) -> TxDataStoreView {
        TxDataStoreView {
            tx_hash: self.tx_hash@,
            parent_data_proposal_hash: self.parent_data_proposal_hash@,
            blob_index: self.blob_index,
            identity: self.identity@,
            contract_name: self.contract_name@,
            blob_data: self.blob_data@,
            verified: self.verified,
        }
    }
}

impl Row for TxDataStore {
    fn duplicate(&self) -> (r: Self) {
        TxDataStore {
            tx_hash: self.tx_hash.clone(),
            parent_data_proposal_hash: self.parent_data_proposal_hash.clone(),
            blob_index: self.blob_index,
            identity: self.identity.clone(),
            contract_name: self.contract_name.clone(),
            blob_data: clone_bytes(&self.blob_data),
            verified: self.verified,
        }
    }
}

/// A row of the `txs_contracts` table: a transaction addressed a contract.
/// All three columns make its key.
#[derive(Clone, Debug, PartialEq, Eq)]
pub struct TxContractRef {
    pub tx_hash: TxHashDb,
    pub parent_data_proposal_hash: DataProposalHashDb,
    pub contract_name: String,
}

/// What a `TxContractRef` holds, as the contracts read it.
pub struct TxContractRefView {
    pub tx_hash: Seq<char>,
    pub parent_data_proposal_hash: Seq<char>,
    pub contract_name: Seq<char>,
}

impl View for TxContractRef {
    type V = TxContractRefView;

    open spec fn view(&self) -> TxContractRefView {
        TxContractRefView {
            tx_hash: self.tx_hash@,
            parent_data_proposal_hash: self.parent_data_proposal_hash@,
            contract_name: self.contract_name@,
        }
    }
}

impl Row for TxContractRef {
    fn duplicate(&self) -> (r: Self) {
        TxContractRef {
            tx_hash: self.tx_hash.clone(),
            parent_data_proposal_hash: self.parent_data_proposal_hash.clone(),
            contract_name: self.contract_name.clone(),
        }
    }
}

/// The proof of a verified-proof transaction: a row of the `proofs` table,
/// found again by `parent_data_proposal_hash` and `tx_hash`.
#[derive(Clone, Debug, PartialEq, Eq)]
pub struct TxProofStore {
    pub tx_hash: TxHashDb,
    pub parent_data_proposal_hash: DataProposalHashDb,
    pub proof: Vec<u8>,
}

/// What a `TxProofStore` holds, as the contracts read it.
pub struct TxProofStoreView {
    pub tx_hash: Seq<char>,
    pub parent_data_proposal_hash: Seq<char>,
    pub proof: Seq<u8>,
}

impl View for TxProofStore {
    type V = TxProofStoreView;

    open spec fn view(&self) -> TxProofStoreView {
        TxProofStoreView {
            tx_hash: self.tx_hash@,
            parent_data_proposal_hash: self.parent_data_proposal_hash@,
            proof: self.proof@,
        }
    }
}

impl Row for TxProofStore {
    fn duplicate(&self) -> (r: Self) {
        TxProofStore {
            tx_hash: self.tx_hash.clone(),
            parent_data_proposal_hash: self.parent_data_proposal_hash.clone(),
            proof: clone_bytes(&self.proof),
        }
    }
}

/// The events of one transaction in one block: a row of the
/// `transaction_state_events` table. `events` is a structured payload that
/// the library carries and does not read.
#[derive(Clone, Debug, PartialEq, Eq)]
pub struct TxEventStore {
    pub block_hash: ConsensusProposalHash,
    pub block_height: i64,
    pub index: i32,
    pub tx_hash: TxHashDb,
    pub parent_data_proposal_hash: DataProposalHashDb,
    pub events: String,
}

/// What a `TxEventStore` holds, as the contracts read it.
pub struct TxEventStoreView {
    pub block_hash: Seq<char>,
    pub block_height: i64,
    pub index: i32,
    pub tx_hash: Seq<char>,
    pub parent_data_proposal_hash: Seq<char>,
    pub events: Seq<char>,
}

impl View for TxEventStore {
    type V = TxEventStoreView;

    open spec fn view(&self) -> TxEventStoreView {
        TxEventStoreView {
            block_hash: self.block_hash@,
            block_height: self.block_height,
            index: self.index,
            tx_hash: self.tx_hash@,
            parent_data_proposal_hash: self.parent_data_proposal_hash@,
            events: self.events@,
        }
    }
}

impl Row for TxEventStore {
    fn duplicate(&self) -> (r: Self) {
        TxEventStore {
            block_hash: self.block_hash.clone(),
            block_height: self.block_height,
            index: self.index,
            tx_hash: self.tx_hash.clone(),
            parent_data_proposal_hash: self.parent_data_proposal_hash.clone(),
            events: self.events.clone(),
        }
    }
}

/// The registered state of a contract: a row of the `contracts` table, found
/// again by `contract_name`.
#[derive(Clone, Debug, PartialEq, Eq)]
pub struct TxContractStore {
    pub tx_hash: TxHashDb,
    pub parent_data_proposal_hash: DataProposalHashDb,
    pub verifier: String,
    pub program_id: Vec<u8>,
    pub state_commitment: Vec<u8>,
    pub contract_name: String,
}

/// What a `TxContractStore` holds, as the contracts read it.
pub struct TxContractStoreView {
    pub tx_hash: Seq<char>,
    pub parent_data_proposal_hash: Seq<char>,
    pub verifier: Seq<char>,
    pub program_id: Seq<u8>,
    pub state_commitment: Seq<u8>,
    pub contract_name: Seq<char>,
}

impl View for TxContractStore {
    type V = TxContractStoreView;

    open spec fn view(&self) -> TxContractStoreView {
        TxContractStoreView {
            tx_hash: self.tx_hash@,
            parent_data_proposal_hash: self.parent_data_proposal_hash@,
            verifier: self.verifier@,
            program_id: self.program_id@,
            state_commitment: self.state_commitment@,
            contract_name: self.contract_name@,
        }
    }
}

impl Row for TxContractStore {
    fn duplicate(&self) -> (r: Self) {
        TxContractStore {
            tx_hash: self.tx_hash.clone(),
            parent_data_proposal_hash: self.parent_data_proposal_hash.clone(),
            verifier: self.verifier.clone(),
            program_id: clone_bytes(&self.program_id),
            state_commitment: clone_bytes(&self.state_commitment),
            contract_name: self.contract_name.clone(),
        }
    }
}

/// The state commitment of a contract at one block: a row of the
/// `contract_state` table.
#[derive(Clone, Debug, PartialEq, Eq)]
pub struct TxContractStateStore {
    pub contract_name: String,
    pub block_hash: ConsensusProposalHash,
    pub state_commitment: Vec<u8>,
}

/// What a `TxContractStateStore` holds, as the contracts read it.
pub struct TxContractStateStoreView {
    pub contract_name: Seq<char>,
    pub block_hash: Seq<char>,
    pub state_commitment: Seq<u8>,
}

impl View for TxContractStateStore {
    type V = TxContractStateStoreView;

    open spec fn view(&self) -> TxContractStateStoreView {
        TxContractStateStoreView {
            contract_name: self.contract_name@,
            block_hash: self.block_hash@,
            state_commitment: self.state_commitment@,
        }
    }
}

impl Row for TxContractStateStore {
    fn duplicate(&self) -> (r: Self) {
        TxContractStateStore {
            contract_name: self.contract_name.clone(),
            block_hash: self.block_hash.clone(),
            state_commitment: clone_bytes(&self.state_commitment),
        }
    }
}

/// The claim of a proof to settle one blob: a row of the
/// `blob_proof_outputs` table. Several proofs may claim the same blob.
#[derive(Clone, Debug, PartialEq, Eq)]
pub struct TxBlobProofOutputStore {
    pub proof_tx_hash: TxHashDb,
    pub proof_parent_dp_hash: DataProposalHashDb,
    pub blob_tx_hash: TxHashDb,
    pub blob_parent_dp_hash: DataProposalHashDb,
    pub blob_index: i32,
    pub blob_proof_output_index: i32,
    pub contract_name: String,
    pub hyle_output: String,
    pub settled: bool,
}

/// What a `TxBlobProofOutputStore` holds, as the contracts read it.
pub struct TxBlobProofOutputStoreView {
    pub proof_tx_hash: Seq<char>,
    pub proof_parent_dp_hash: Seq<char>,
    pub blob_tx_hash: Seq<char>,
    pub blob_parent_dp_hash: Seq<char>,
    pub blob_index: i32,
    pub blob_proof_output_index: i32,
    pub contract_name: Seq<char>,
    pub hyle_output: Seq<char>,
    pub settled: bool,
}

impl View for TxBlobProofOutputStore {
    type V = TxBlobProofOutputStoreView;

    open spec fn view(&self) -> TxBlobProofOutputStoreView {
        TxBlobProofOutputStoreView {
            proof_tx_hash: self.proof_tx_hash@,
            proof_parent_dp_hash: self.proof_parent_dp_hash@,
            blob_tx_hash: self.blob_tx_hash@,
            blob_parent_dp_hash: self.blob_parent_dp_hash@,
            blob_index: self.blob_index,
            blob_proof_output_index: self.blob_proof_output_index,
            contract_name: self.contract_name@,
            hyle_output: self.hyle_output@,
            settled: self.settled,
        }
    }
}

impl Row for TxBlobProofOutputStore {
    fn duplicate(&self) -> (r: Self) {
        TxBlobProofOutputStore {
            proof_tx_hash: self.proof_tx_hash.clone(),
            proof_parent_dp_hash: self.proof_parent_dp_hash.clone(),
            blob_tx_hash: self.blob_tx_hash.clone(),
            blob_parent_dp_hash: self.blob_parent_dp_hash.clone(),
            blob_index: self.blob_index,
            blob_proof_output_index: self.blob_proof_output_index,
            contract_name: self.contract_name.clone(),
            hyle_output: self.hyle_output.clone(),
            settled: self.settled,
        }
    }
}
impl Clone for BlockRow {
    fn clone(&self) -> (r: Self)
        ensures
            r@ == self@,
    {
        self.duplicate()
    }
}

impl Keyed for BlockRow {
    type Key = Seq<char>;

    open spec fn key(v: BlockRowView) -> Seq<char> {
        v.hash
    }

    open spec fn merged(stored: BlockRowView, arriving: BlockRowView, policy: ConflictPolicy)
        -> BlockRowView {
        match policy {
            ConflictPolicy::Ignore => stored,
            _ => arriving,
        }
    }

    proof fn lemma_merged_keeps_key(
        stored: BlockRowView,
        arriving: BlockRowView,
        policy: ConflictPolicy,
    ) {
    }

    fn same_key(&self, other: &Self) -> (r: bool) {
        self.hash == other.hash
    }

    fn merge(&self, arriving: &Self, policy: ConflictPolicy) -> (r: Self) {
        match policy {
            ConflictPolicy::Ignore => self.duplicate(),
            _ => arriving.duplicate(),
        }
    }
}

impl Keyed for TransactionRow {
    type Key = (Seq<char>, Seq<char>);

    open spec fn key(v: TransactionRowView) -> (Seq<char>, Seq<char>) {
        (v.tx_hash, v.parent_dp_hash)
    }

    open spec fn merged(
        stored: TransactionRowView,
        arriving: TransactionRowView,
        policy: ConflictPolicy,
    ) -> TransactionRowView {
        match policy {
            ConflictPolicy::Ignore => stored,
            ConflictPolicy::Overwrite => arriving,
            ConflictPolicy::AdvanceFromPending => TransactionRowView {
                transaction_status: stored.transaction_status.advanced_from_pending(
                    arriving.transaction_status,
                ),
                block_hash: arriving.block_hash,
                block_height: arriving.block_height,
                index: arriving.index,
                lane_id: arriving.lane_id,
                identity: arriving.identity,
                ..stored
            },
            ConflictPolicy::AdvanceFromWaiting => TransactionRowView {
                transaction_status: stored.transaction_status.advanced_from_waiting(
                    arriving.transaction_status,
                ),
                ..stored
            },
        }
    }

    proof fn lemma_merged_keeps_key(
        stored: TransactionRowView,
        arriving: TransactionRowView,
        policy: ConflictPolicy,
    ) {
    }

    fn same_key(&self, other: &Self) -> (r: bool) {
        self.tx_hash == other.tx_hash && self.parent_dp_hash == other.parent_dp_hash
    }

    fn merge(&self, arriving: &Self, policy: ConflictPolicy) -> (r: Self) {
        match policy {
            ConflictPolicy::Ignore => self.duplicate(),
            ConflictPolicy::Overwrite => arriving.duplicate(),
            ConflictPolicy::AdvanceFromPending => TransactionRow {
                tx_hash: self.tx_hash.clone(),
                parent_dp_hash: self.parent_dp_hash.clone(),
                version: self.version,
                transaction_type: self.transaction_type,
                transaction_status: self.transaction_status.advance_from_pending(
                    arriving.transaction_status,
                ),
                block_hash: clone_text_opt(&arriving.block_hash),
                block_height: arriving.block_height,
                index: arriving.index,
                lane_id: clone_bytes_opt(&arriving.lane_id),
                identity: clone_text_opt(&arriving.identity),
            },
            ConflictPolicy::AdvanceFromWaiting => {
                let mut r = self.duplicate();
                r.transaction_status = self.transaction_status.advance_from_waiting(
                    arriving.transaction_status,
                );
                r
            },
        }
    }
}

impl Keyed for TxDataStore {
    type Key = (Seq<char>, Seq<char>, i32);

    open spec fn key(v: TxDataStoreView) -> (Seq<char>, Seq<char>, i32) {
        (v.tx_hash, v.parent_data_proposal_hash, v.blob_index)
    }

    open spec fn merged(stored: TxDataStoreView, arriving: TxDataStoreView, policy: ConflictPolicy)
        -> TxDataStoreView {
        match policy {
            ConflictPolicy::Ignore => stored,
            _ => arriving,
        }
    }

    proof fn lemma_merged_keeps_key(
        stored: TxDataStoreView,
        arriving: TxDataStoreView,
        policy: ConflictPolicy,
    ) {
    }

    fn same_key(&self, other: &Self) -> (r: bool) {
        self.tx_hash == other.tx_hash && self.parent_data_proposal_hash
            == other.parent_data_proposal_hash && self.blob_index == other.blob_index
    }

    fn merge(&self, arriving: &Self, policy: ConflictPolicy) -> (r: Self) {
        match policy {
            ConflictPolicy::Ignore => self.duplicate(),
            _ => arriving.duplicate(),
        }
    }
}

impl TxDataStore {
    /// The contract that the blob addresses, as a row of `txs_contracts`.
    pub open spec fn contract_ref(v: TxDataStoreView) -> TxContractRefView {
        TxContractRefView {
            tx_hash: v.tx_hash,
            parent_data_proposal_hash: v.parent_data_proposal_hash,
            contract_name: v.contract_name,
        }
    }

    /// The contract that the blob addresses, as a row of `txs_contracts`.
    pub fn to_contract_ref(&self) -> (r: TxContractRef)
        ensures
            r@ == Self::contract_ref(self@),
    {
        TxContractRef {
            tx_hash: self.tx_hash.clone(),
            parent_data_proposal_hash: self.parent_data_proposal_hash.clone(),
            contract_name: self.contract_name.clone(),
        }
    }
}

impl Keyed for TxContractRef {
    type Key = (Seq<char>, Seq<char>, Seq<char>);

    open spec fn key(v: TxContractRefView) -> (Seq<char>, Seq<char>, Seq<char>) {
        (v.tx_hash, v.parent_data_proposal_hash, v.contract_name)
    }

    open spec fn merged(
        stored: TxContractRefView,
        arriving: TxContractRefView,
        policy: ConflictPolicy,
    ) -> TxContractRefView {
        match policy {
            ConflictPolicy::Ignore => stored,
            _ => arriving,
        }
    }

    proof fn lemma_merged_keeps_key(
        stored: TxContractRefView,
        arriving: TxContractRefView,
        policy: ConflictPolicy,
    ) {
    }

    fn same_key(&self, other: &Self) -> (r: bool) {
        self.tx_hash == other.tx_hash && self.parent_data_proposal_hash
            == other.parent_data_proposal_hash && self.contract_name == other.contract_name
    }

    fn merge(&self, arriving: &Self, policy: ConflictPolicy) -> (r: Self) {
        match policy {
            ConflictPolicy::Ignore => self.duplicate(),
            _ => arriving.duplicate(),
        }
    }
}

impl Keyed for TxProofStore {
    type Key = (Seq<char>, Seq<char>);

    open spec fn key(v: TxProofStoreView) -> (Seq<char>, Seq<char>) {
        (v.parent_data_proposal_hash, v.tx_hash)
    }

    open spec fn merged(
        stored: TxProofStoreView,
        arriving: TxProofStoreView,
        policy: ConflictPolicy,
    ) -> TxProofStoreView {
        match policy {
            ConflictPolicy::Ignore => stored,
            _ => arriving,
        }
    }

    proof fn lemma_merged_keeps_key(
        stored: TxProofStoreView,
        arriving: TxProofStoreView,
        policy: ConflictPolicy,
    ) {
    }

    fn same_key(&self, other: &Self) -> (r: bool) {
        self.parent_data_proposal_hash == other.parent_data_proposal_hash && self.tx_hash
            == other.tx_hash
    }

    fn merge(&self, arriving: &Self, policy: ConflictPolicy) -> (r: Self) {
        match policy {
            ConflictPolicy::Ignore => self.duplicate(),
            _ => arriving.duplicate(),
        }
    }
}

impl Keyed for TxContractStore {
    type Key = Seq<char>;

    open spec fn key(v: TxContractStoreView) -> Seq<char> {
        v.contract_name
    }

    open spec fn merged(
        stored: TxContractStoreView,
        arriving: TxContractStoreView,
        policy: ConflictPolicy,
    ) -> TxContractStoreView {
        match policy {
            ConflictPolicy::Ignore => stored,
            _ => arriving,
        }
    }

    proof fn lemma_merged_keeps_key(
        stored: TxContractStoreView,
        arriving: TxContractStoreView,
        policy: ConflictPolicy,
    ) {
    }

    fn same_key(&self, other: &Self) -> (r: bool) {
        self.contract_name == other.contract_name
    }

    fn merge(&self, arriving: &Self, policy: ConflictPolicy) -> (r: Self) {
        match policy {
            ConflictPolicy::Ignore => self.duplicate(),
            _ => arriving.duplicate(),
        }
    }
}

/// A name in a set of names.
impl Row for String {
    fn duplicate(&self) -> (r: Self) {
        self.clone()
    }
}

impl Keyed for String {
    type Key = Seq<char>;

    open spec fn key(v: Seq<char>) -> Seq<char> {
        v
    }

    open spec fn merged(stored: Seq<char>, arriving: Seq<char>, policy: ConflictPolicy) -> Seq<
        char,
    > {
        stored
    }

    proof fn lemma_merged_keeps_key(
        stored: Seq<char>,
        arriving: Seq<char>,
        policy: ConflictPolicy,
    ) {
    }

    fn same_key(&self, other: &Self) -> (r: bool) {
        *self == *other
    }

    fn merge(&self, arriving: &Self, policy: ConflictPolicy) -> (r: Self) {
        self.clone()
    }
}

} // verus!
