use crate::keyed::{
    duplicate_rows, first_match, lemma_put_all_unique, lemma_without_key, position, put_all,
    put_row, put_rows, remove_key, unique_keys, without_key, ConflictPolicy, Row,
};
use crate::model::{
    Blob, BlobTransaction, BlobTransactionView, BlobView, Block, BlockView, DataProposalParent,
    DataProposalParentView, HandledBlobProofOutputView, LaneEntry, LaneEntryView, LaneId,
    RegisteredContractView, TimestampMs, Transaction, TransactionData, TransactionDataView,
    TransactionView, UpdatedStateView, VerifiedBlobView,
};
use crate::narrow::{narrowed_i32, narrowed_i64, u64_to_i64, usize_to_i32};
use crate::rows::{
    ConsensusProposalHash, DataProposalHashDb, TxBlobProofOutputStore, TxBlobProofOutputStoreView,
    TxContractStateStore, TxContractStateStoreView, TxContractStore, TxContractStoreView,
    TxDataStore, TxDataStoreView, TxEventStore, TxEventStoreView, TxHashDb, TxProofStore,
    TxProofStoreView,
};
use crate::seqs::{bytes_opt, clone_bytes, views};
use crate::statement::{DeferredUpdate, DeferredUpdateView};
use crate::status::Settlement;
use crate::store::{
    BufferedBlock, BufferedBlockView, BufferedTx, BufferedTxView, IndexerHandlerStore, StoreView,
};
use vstd::prelude::*;

verus! {

/// The detail of a transaction of this kind cannot be buffered: a proof that
/// has not been verified carries nothing that the indexer stores.
#[derive(Clone, Copy, Debug, PartialEq, Eq, Structural)]
pub struct UnsupportedTransactionType;

/// What subscribers are told of a blob transaction that a block held.
#[derive(Clone, Debug, PartialEq, Eq)]
pub struct BlobTransactionNotification {
    pub tx_hash: TxHashDb,
    pub dp_hash: DataProposalHashDb,
    pub block_hash: ConsensusProposalHash,
    pub index: u32,
    pub version: u32,
    pub lane_id: Option<LaneId>,
    pub timestamp: Option<TimestampMs>,
    pub identity: String,
    pub blobs: Vec<Blob>,
}

/// What a `BlobTransactionNotification` holds, as the contracts read it.
pub struct BlobTransactionNotificationView {
    pub tx_hash: Seq<char>,
    pub dp_hash: Seq<char>,
    pub block_hash: Seq<char>,
    pub index: u32,
    pub version: u32,
    pub lane_id: Option<Seq<u8>>,
    pub timestamp: Option<TimestampMs>,
    pub identity: Seq<char>,
    pub blobs: Seq<BlobView>,
}

impl View for BlobTransactionNotification {
    type V = BlobTransactionNotificationView;

    open spec fn view(&self) -> BlobTransactionNotificationView {
        BlobTransactionNotificationView {
            tx_hash: self.tx_hash@,
            dp_hash: self.dp_hash@,
            block_hash: self.block_hash@,
            index: self.index,
            version: self.version,
            lane_id: bytes_opt(self.lane_id),
            timestamp: self.timestamp,
            identity: self.identity@,
            blobs: views(self.blobs@),
        }
    }
}

/// What came of reading a block, besides the buffer.
#[derive(Clone, Debug, PartialEq, Eq)]
pub struct BlockOutcome {
    /// One notification for each blob transaction of the block, in order.
    pub notifications: Vec<BlobTransactionNotification>,
    /// The places, in the block, of the transactions whose detail could not
    /// be buffered.
    pub unsupported: Vec<usize>,
}

/// The lane that a block names for a transaction.
pub open spec fn lane_of(lanes: Seq<LaneEntryView>, tx_hash: Seq<char>) -> Option<Seq<u8>> {
    match first_match::<LaneEntry>(lanes, tx_hash) {
        Some(i) => Some(lanes[i].lane_id),
        None => None,
    }
}

/// The data proposal under which a block counts a transaction: the empty
/// hash where the block names none.
pub open spec fn parent_of(parents: Seq<DataProposalParentView>, tx_hash: Seq<char>) -> Seq<char> {
    match first_match::<DataProposalParent>(parents, tx_hash) {
        Some(i) => parents[i].data_proposal_hash,
        None => Seq::empty(),
    }
}

/// The row of `blobs` for the blob at place `i` of a transaction.
pub open spec fn blob_row(
    tx_hash: Seq<char>,
    parent: Seq<char>,
    identity: Seq<char>,
    blob: BlobView,
    i: int,
) -> TxDataStoreView {
    TxDataStoreView {
        tx_hash,
        parent_data_proposal_hash: parent,
        blob_index: narrowed_i32(i),
        identity,
        contract_name: blob.contract_name,
        blob_data: blob.data,
        verified: false,
    }
}

/// The rows of `blobs` for a blob transaction: one for each blob, unverified.
pub open spec fn blob_rows(tx_hash: Seq<char>, parent: Seq<char>, blob_tx: BlobTransactionView)
    -> Seq<TxDataStoreView> {
    Seq::new(
        blob_tx.blobs.len(),
        |i: int| blob_row(tx_hash, parent, blob_tx.identity, blob_tx.blobs[i], i),
    )
}

/// The rows of `blobs` for a transaction: none unless it carries blobs.
pub open spec fn data_rows(tx_hash: Seq<char>, parent: Seq<char>, tx: TransactionView) -> Seq<
    TxDataStoreView,
> {
    match tx.transaction_data {
        TransactionDataView::Blob(blob_tx) => blob_rows(tx_hash, parent, blob_tx),
        _ => Seq::empty(),
    }
}

/// The rows of `proofs` for a transaction: one where it is a verified proof
/// that carries its proof.
pub open spec fn proof_rows(tx_hash: Seq<char>, parent: Seq<char>, tx: TransactionView) -> Seq<
    TxProofStoreView,
> {
    match tx.transaction_data {
        TransactionDataView::VerifiedProof { proof: Some(proof) } => seq![
            TxProofStoreView { tx_hash, parent_data_proposal_hash: parent, proof },
        ],
        _ => Seq::empty(),
    }
}

/// The buffer after the detail of one transaction has been added.
pub open spec fn with_tx_data(
    s: StoreView,
    tx_hash: Seq<char>,
    tx: TransactionView,
    parent: Seq<char>,
) -> StoreView {
    StoreView {
        tx_data: s.tx_data + data_rows(tx_hash, parent, tx),
        tx_data_proofs: s.tx_data_proofs + proof_rows(tx_hash, parent, tx),
        ..s
    }
}

/// What is kept of a block.
pub open spec fn buffered_block(b: BlockView) -> BufferedBlockView {
    BufferedBlockView {
        hash: b.hash,
        parent_hash: b.parent_hash,
        block_height: b.block_height,
        block_timestamp: b.block_timestamp,
        total_txs: b.txs.len() as usize,
    }
}

/// The identity under which a transaction was submitted, where it carries blobs.
pub open spec fn identity_of(data: TransactionDataView) -> Option<Seq<char>> {
    match data {
        TransactionDataView::Blob(blob_tx) => Some(blob_tx.identity),
        _ => None,
    }
}

/// What is kept of the transaction at place `i` of a block.
pub open spec fn buffered_tx(b: BlockView, i: int) -> BufferedTxView {
    let included = b.txs[i];
    BufferedTxView {
        parent_dp_hash: included.id.0,
        tx_hash: included.id.1,
        index: narrowed_i32(i),
        block_hash: b.hash,
        block_height: b.block_height,
        lane_id: lane_of(b.lane_ids, included.id.1),
        version: included.tx.version,
        kind: included.tx.transaction_data.kind(),
        identity: identity_of(included.tx.transaction_data),
    }
}

/// What is kept of the first `n` transactions of a block.
pub open spec fn buffered_txs(b: BlockView, n: int) -> Seq<BufferedTxView> {
    Seq::new(n as nat, |i: int| buffered_tx(b, i))
}

/// The rows of `blobs` for the first `n` transactions of a block.
pub open spec fn block_data_rows(b: BlockView, n: int) -> Seq<TxDataStoreView>
    decreases n,
{
    if n <= 0 {
        Seq::empty()
    } else {
        block_data_rows(b, n - 1) + data_rows(b.txs[n - 1].id.1, b.txs[n - 1].id.0, b.txs[n - 1].tx)
    }
}

/// The rows of `proofs` for the first `n` transactions of a block.
pub open spec fn block_proof_rows(b: BlockView, n: int) -> Seq<TxProofStoreView>
    decreases n,
{
    if n <= 0 {
        Seq::empty()
    } else {
        block_proof_rows(b, n - 1) + proof_rows(
            b.txs[n - 1].id.1,
            b.txs[n - 1].id.0,
            b.txs[n - 1].tx,
        )
    }
}

/// The notification for the transaction at place `i` of a block, where it
/// carries blobs. The lane and the timestamp are given where the block names
/// a lane for the transaction.
pub open spec fn notification_at(b: BlockView, i: int) -> Seq<BlobTransactionNotificationView> {
    let included = b.txs[i];
    match included.tx.transaction_data {
        TransactionDataView::Blob(blob_tx) => seq![
            BlobTransactionNotificationView {
                tx_hash: included.id.1,
                dp_hash: included.id.0,
                block_hash: b.hash,
                index: narrowed_i32(i) as u32,
                version: included.tx.version,
                lane_id: lane_of(b.lane_ids, included.id.1),
                timestamp: if lane_of(b.lane_ids, included.id.1) is Some {
                    Some(b.block_timestamp)
                } else {
                    None
                },
                identity: blob_tx.identity,
                blobs: blob_tx.blobs,
            },
        ],
        _ => Seq::empty(),
    }
}

/// The notifications for the first `n` transactions of a block.
pub open spec fn notifications(b: BlockView, n: int) -> Seq<BlobTransactionNotificationView>
    decreases n,
{
    if n <= 0 {
        Seq::empty()
    } else {
        notifications(b, n - 1) + notification_at(b, n - 1)
    }
}

/// The places, among the first `n` transactions of a block, of those whose
/// detail cannot be buffered.
pub open spec fn unsupported(b: BlockView, n: int) -> Seq<usize>
    decreases n,
{
    if n <= 0 {
        Seq::empty()
    } else if b.txs[n - 1].tx.transaction_data is Proof {
        unsupported(b, n - 1).push((n - 1) as usize)
    } else {
        unsupported(b, n - 1)
    }
}

/// The row of `transaction_state_events` for the entry at place `i` of a block.
pub open spec fn event_row(b: BlockView, i: int) -> TxEventStoreView {
    TxEventStoreView {
        block_hash: b.hash,
        block_height: narrowed_i64(b.block_height as int),
        index: narrowed_i32(i),
        tx_hash: b.transactions_events[i].tx_hash,
        parent_data_proposal_hash: parent_of(b.dp_parent_hashes, b.transactions_events[i].tx_hash),
        events: b.transactions_events[i].events,
    }
}

/// The rows of `transaction_state_events` for the first `n` entries of a block.
pub open spec fn event_rows(b: BlockView, n: int) -> Seq<TxEventStoreView> {
    Seq::new(n as nat, |i: int| event_row(b, i))
}

/// The queued change that settles one transaction.
pub open spec fn settlement_of(
    parents: Seq<DataProposalParentView>,
    tx_hash: Seq<char>,
    settlement: Settlement,
) -> DeferredUpdateView {
    DeferredUpdateView::SetTransactionStatus {
        settlement,
        tx_hash,
        parent_dp_hash: parent_of(parents, tx_hash),
    }
}

/// The queued changes that settle the named transactions.
pub open spec fn settlements(
    parents: Seq<DataProposalParentView>,
    hashes: Seq<Seq<char>>,
    settlement: Settlement,
) -> Seq<DeferredUpdateView> {
    hashes.map_values(|tx_hash: Seq<char>| settlement_of(parents, tx_hash, settlement))
}

/// The row of `blob_proof_outputs` for one claim.
pub open spec fn proof_output_row(b: BlockView, o: HandledBlobProofOutputView)
    -> TxBlobProofOutputStoreView {
    TxBlobProofOutputStoreView {
        proof_tx_hash: o.proof_tx_hash,
        proof_parent_dp_hash: parent_of(b.dp_parent_hashes, o.proof_tx_hash),
        blob_tx_hash: o.blob_tx_hash,
        blob_parent_dp_hash: parent_of(b.dp_parent_hashes, o.blob_tx_hash),
        blob_index: narrowed_i32(o.blob_index as int),
        blob_proof_output_index: narrowed_i32(o.blob_proof_output_index as int),
        contract_name: o.contract_name,
        hyle_output: o.hyle_output,
        settled: false,
    }
}

/// The rows of `blob_proof_outputs` for a block: one for each claim, unsettled.
pub open spec fn proof_output_rows(b: BlockView) -> Seq<TxBlobProofOutputStoreView> {
    b.blob_proof_outputs.map_values(|o: HandledBlobProofOutputView| proof_output_row(b, o))
}

/// The queued changes for one confirmed blob: the blob is verified, and the
/// claim that the ledger names, if it names one, is settled.
pub open spec fn verification_of(parents: Seq<DataProposalParentView>, v: VerifiedBlobView) -> Seq<
    DeferredUpdateView,
> {
    let verified = DeferredUpdateView::SetBlobVerified {
        tx_hash: v.blob_tx_hash,
        parent_dp_hash: parent_of(parents, v.blob_tx_hash),
        blob_index: narrowed_i32(v.blob_index as int),
    };
    match v.blob_proof_output_index {
        Some(output) => seq![
            verified,
            DeferredUpdateView::SetProofOutputSettled {
                blob_tx_hash: v.blob_tx_hash,
                blob_parent_dp_hash: parent_of(parents, v.blob_tx_hash),
                blob_index: narrowed_i32(v.blob_index as int),
                blob_proof_output_index: narrowed_i32(output as int),
            },
        ],
        None => seq![verified],
    }
}

/// The queued changes for the first `n` confirmed blobs of a block.
pub open spec fn verifications(b: BlockView, n: int) -> Seq<DeferredUpdateView>
    decreases n,
{
    if n <= 0 {
        Seq::empty()
    } else {
        verifications(b, n - 1) + verification_of(b.dp_parent_hashes, b.verified_blobs[n - 1])
    }
}

/// The row of `contracts` for one registration.
pub open spec fn contract_row(b: BlockView, c: RegisteredContractView) -> TxContractStoreView {
    TxContractStoreView {
        tx_hash: c.tx_hash,
        parent_data_proposal_hash: parent_of(b.dp_parent_hashes, c.tx_hash),
        verifier: c.verifier,
        program_id: c.program_id,
        state_commitment: c.state_commitment,
        contract_name: c.contract_name,
    }
}

/// The rows of `contracts` for the registrations of a block, in order.
pub open spec fn contract_rows(b: BlockView) -> Seq<TxContractStoreView> {
    b.registered_contracts.map_values(|c: RegisteredContractView| contract_row(b, c))
}

/// The row of `contract_state` for one registration.
pub open spec fn contract_state_row(b: BlockView, c: RegisteredContractView)
    -> TxContractStateStoreView {
    TxContractStateStoreView {
        contract_name: c.contract_name,
        block_hash: b.hash,
        state_commitment: c.state_commitment,
    }
}

/// The rows of `contract_state` for the registrations of a block, in order.
pub open spec fn contract_state_rows(b: BlockView) -> Seq<TxContractStateStoreView> {
    b.registered_contracts.map_values(|c: RegisteredContractView| contract_state_row(b, c))
}

/// The names that are marked deleted, once the first `n` registrations of a
/// block have cleared theirs.
pub open spec fn cleared(deleted: Seq<Seq<char>>, b: BlockView, n: int) -> Seq<Seq<char>>
    decreases n,
{
    if n <= 0 {
        deleted
    } else {
        without_key::<String>(
            cleared(deleted, b, n - 1),
            b.registered_contracts[n - 1].contract_name,
        )
    }
}

/// The queued changes for one new contract state: the snapshot of the block
/// and the registered state are rewritten.
pub open spec fn state_update_of(block_hash: Seq<char>, u: UpdatedStateView) -> Seq<
    DeferredUpdateView,
> {
    seq![
        DeferredUpdateView::SetContractStateAtBlock {
            state_commitment: u.state_commitment,
            contract_name: u.contract_name,
            block_hash,
        },
        DeferredUpdateView::SetContractState {
            state_commitment: u.state_commitment,
            contract_name: u.contract_name,
        },
    ]
}

/// The queued changes for the first `n` new contract states of a block.
pub open spec fn state_updates(b: BlockView, n: int) -> Seq<DeferredUpdateView>
    decreases n,
{
    if n <= 0 {
        Seq::empty()
    } else {
        state_updates(b, n - 1) + state_update_of(b.hash, b.updated_states[n - 1])
    }
}

/// The changes that a block queues, in the order in which they will run:
/// settlements (successes, failures, timeouts), then verifications, then
/// contract states.
pub open spec fn queued(b: BlockView) -> Seq<DeferredUpdateView> {
    settlements(b.dp_parent_hashes, b.successful_txs, Settlement::Success) + settlements(
        b.dp_parent_hashes,
        b.failed_txs,
        Settlement::Failure,
    ) + settlements(b.dp_parent_hashes, b.timed_out_txs, Settlement::TimedOut) + verifications(
        b,
        b.verified_blobs.len() as int,
    ) + state_updates(b, b.updated_states.len() as int)
}

/// The buffer after a block has been read.
pub open spec fn with_block(s: StoreView, b: BlockView) -> StoreView {
    StoreView {
        blocks: s.blocks.push(buffered_block(b)),
        block_txs: put_all::<BufferedTx>(
            s.block_txs,
            buffered_txs(b, b.txs.len() as int),
            ConflictPolicy::Overwrite,
        ),
        tx_data: s.tx_data + block_data_rows(b, b.txs.len() as int),
        tx_data_proofs: s.tx_data_proofs + block_proof_rows(b, b.txs.len() as int),
        transactions_events: s.transactions_events + event_rows(
            b,
            b.transactions_events.len() as int,
        ),
        sql_updates: s.sql_updates + queued(b),
        contracts: put_all::<TxContractStore>(
            s.contracts,
            contract_rows(b),
            ConflictPolicy::Overwrite,
        ),
        contract_states: s.contract_states + contract_state_rows(b),
        deleted_contracts: put_all::<String>(
            cleared(s.deleted_contracts, b, b.registered_contracts.len() as int),
            b.deleted_contracts,
            ConflictPolicy::Ignore,
        ),
        blob_proof_outputs: s.blob_proof_outputs + proof_output_rows(b),
    }
}

/// The lane that the block names for a transaction.
pub fn lane_for(lanes: &Vec<LaneEntry>, tx_hash: &String) -> (r: Option<LaneId>)
    ensures
        bytes_opt(r) == lane_of(views(lanes@), tx_hash@),
{
    let probe = LaneEntry { tx_hash: tx_hash.clone(), lane_id: Vec::new() };
    match position(lanes, &probe) {
        Some(i) => {
            assert(views(lanes@)[i as int] == lanes@[i as int]@);
            Some(clone_bytes(&lanes[i].lane_id))
        },
        None => None,
    }
}

/// The data proposal under which the block counts a transaction.
pub fn parent_for(parents: &Vec<DataProposalParent>, tx_hash: &String) -> (r: DataProposalHashDb)
    ensures
        r@ == parent_of(views(parents@), tx_hash@),
{
    let probe = DataProposalParent { tx_hash: tx_hash.clone(), data_proposal_hash: String::new() };
    match position(parents, &probe) {
        Some(i) => {
            assert(views(parents@)[i as int] == parents@[i as int]@);
            parents[i].data_proposal_hash.clone()
        },
        None => String::new(),
    }
}

fn push_blob_rows(
    tx_data: &mut Vec<TxDataStore>,
    tx_hash: &TxHashDb,
    parent: &DataProposalHashDb,
    blob_tx: &BlobTransaction,
)
    ensures
        views(final(tx_data)@) == views(old(tx_data)@) + blob_rows(tx_hash@, parent@, blob_tx@),
{
    let mut i: usize = 0;
    while i < blob_tx.blobs.len()
        invariant
            0 <= i <= blob_tx.blobs.len(),
            views(tx_data@) == views(old(tx_data)@) + blob_rows(tx_hash@, parent@, blob_tx@).take(
                i as int,
            ),
        decreases blob_tx.blobs.len() - i,
    {
        let ghost before = views(tx_data@);
        let blob = &blob_tx.blobs[i];
        tx_data.push(
            TxDataStore {
                tx_hash: tx_hash.clone(),
                parent_data_proposal_hash: parent.clone(),
                blob_index: usize_to_i32(i),
                identity: blob_tx.identity.clone(),
                contract_name: blob.contract_name.clone(),
                blob_data: clone_bytes(&blob.data),
                verified: false,
            },
        );
        proof {
            assert(views(blob_tx.blobs@)[i as int] == blob_tx.blobs@[i as int]@);
            assert(views(tx_data@) =~= before.push(
                blob_row(tx_hash@, parent@, blob_tx@.identity, blob_tx@.blobs[i as int], i as int),
            ));
            assert(views(tx_data@) =~= views(old(tx_data)@) + blob_rows(
                tx_hash@,
                parent@,
                blob_tx@,
            ).take(i + 1));
        }
        i = i + 1;
    }
    assert(blob_rows(tx_hash@, parent@, blob_tx@).take(blob_tx.blobs.len() as int) =~= blob_rows(
        tx_hash@,
        parent@,
        blob_tx@,
    ));
}

fn add_tx_data(
    tx_data: &mut Vec<TxDataStore>,
    tx_data_proofs: &mut Vec<TxProofStore>,
    tx_hash: &TxHashDb,
    tx: &Transaction,
    parent: &DataProposalHashDb,
) -> (r: Result<(), UnsupportedTransactionType>)
    ensures
        views(final(tx_data)@) == views(old(tx_data)@) + data_rows(tx_hash@, parent@, tx@),
        views(final(tx_data_proofs)@) == views(old(tx_data_proofs)@) + proof_rows(
            tx_hash@,
            parent@,
            tx@,
        ),
        r is Err <==> tx@.transaction_data is Proof,
{
    match &tx.transaction_data {
        TransactionData::Blob(blob_tx) => {
            push_blob_rows(tx_data, tx_hash, parent, blob_tx);
            assert(views(tx_data_proofs@) =~= views(old(tx_data_proofs)@) + proof_rows(
                tx_hash@,
                parent@,
                tx@,
            ));
            Ok(())
        },
        TransactionData::VerifiedProof { proof: carried } => {
            match carried {
                Some(proof_data) => {
                    tx_data_proofs.push(
                        TxProofStore {
                            tx_hash: tx_hash.clone(),
                            parent_data_proposal_hash: parent.clone(),
                            proof: clone_bytes(proof_data),
                        },
                    );
                },
                None => {},
            }
            assert(views(tx_data@) =~= views(old(tx_data)@) + data_rows(tx_hash@, parent@, tx@));
            assert(views(tx_data_proofs@) =~= views(old(tx_data_proofs)@) + proof_rows(
                tx_hash@,
                parent@,
                tx@,
            ));
            Ok(())
        },
        TransactionData::Proof => {
            assert(views(tx_data@) =~= views(old(tx_data)@) + data_rows(tx_hash@, parent@, tx@));
            assert(views(tx_data_proofs@) =~= views(old(tx_data_proofs)@) + proof_rows(
                tx_hash@,
                parent@,
                tx@,
            ));
            Err(UnsupportedTransactionType)
        },
    }
}

fn to_buffered_tx(block: &Block, i: usize) -> (r: BufferedTx)
    requires
        i < block.txs.len(),
    ensures
        r@ == buffered_tx(block@, i as int),
{
    let included = &block.txs[i];
    assert(views(block.txs@)[i as int] == block.txs@[i as int]@);
    let identity = match &included.tx.transaction_data {
        TransactionData::Blob(blob_tx) => Some(blob_tx.identity.clone()),
        _ => None,
    };
    BufferedTx {
        parent_dp_hash: included.id.0.clone(),
        tx_hash: included.id.1.clone(),
        index: usize_to_i32(i),
        block_hash: block.hash.clone(),
        block_height: block.block_height,
        lane_id: lane_for(&block.lane_ids, &included.id.1),
        version: included.tx.version,
        kind: included.tx.transaction_data.kind(),
        identity,
    }
}

fn push_notification(
    out: &mut Vec<BlobTransactionNotification>,
    block: &Block,
    i: usize,
)
    requires
        i < block.txs.len(),
    ensures
        views(final(out)@) == views(old(out)@) + notification_at(block@, i as int),
{
    let included = &block.txs[i];
    assert(views(block.txs@)[i as int] == block.txs@[i as int]@);
    match &included.tx.transaction_data {
        TransactionData::Blob(blob_tx) => {
            let lane_id = lane_for(&block.lane_ids, &included.id.1);
            let timestamp = match &lane_id {
                Some(_) => Some(block.block_timestamp),
                None => None,
            };
            let index = usize_to_i32(i);
            out.push(
                BlobTransactionNotification {
                    tx_hash: included.id.1.clone(),
                    dp_hash: included.id.0.clone(),
                    block_hash: block.hash.clone(),
                    index: index as u32,
                    version: included.tx.version,
                    lane_id,
                    timestamp,
                    identity: blob_tx.identity.clone(),
                    blobs: duplicate_rows(&blob_tx.blobs),
                },
            );
            assert(views(out@) =~= views(old(out)@) + notification_at(block@, i as int));
        },
        _ => {
            assert(views(out@) =~= views(old(out)@) + notification_at(block@, i as int));
        },
    }
}

fn buffer_txs(
    block_txs: &mut Vec<BufferedTx>,
    tx_data: &mut Vec<TxDataStore>,
    tx_data_proofs: &mut Vec<TxProofStore>,
    block: &Block,
) -> (r: BlockOutcome)
    ensures
        views(final(block_txs)@) == put_all::<BufferedTx>(
            views(old(block_txs)@),
            buffered_txs(block@, block@.txs.len() as int),
            ConflictPolicy::Overwrite,
        ),
        views(final(tx_data)@) == views(old(tx_data)@) + block_data_rows(
            block@,
            block@.txs.len() as int,
        ),
        views(final(tx_data_proofs)@) == views(old(tx_data_proofs)@) + block_proof_rows(
            block@,
            block@.txs.len() as int,
        ),
        views(r.notifications@) == notifications(block@, block@.txs.len() as int),
        r.unsupported@ == unsupported(block@, block@.txs.len() as int),
{
    let mut notes: Vec<BlobTransactionNotification> = Vec::new();
    let mut skipped: Vec<usize> = Vec::new();
    let mut i: usize = 0;
    assert(views(tx_data@) =~= views(old(tx_data)@) + block_data_rows(block@, 0));
    assert(views(tx_data_proofs@) =~= views(old(tx_data_proofs)@) + block_proof_rows(block@, 0));
    assert(views(notes@) =~= notifications(block@, 0));
    while i < block.txs.len()
        invariant
            0 <= i <= block.txs.len(),
            block@.txs.len() == block.txs.len(),
            views(block_txs@) == put_all::<BufferedTx>(
                views(old(block_txs)@),
                buffered_txs(block@, i as int),
                ConflictPolicy::Overwrite,
            ),
            views(tx_data@) == views(old(tx_data)@) + block_data_rows(block@, i as int),
            views(tx_data_proofs@) == views(old(tx_data_proofs)@) + block_proof_rows(
                block@,
                i as int,
            ),
            views(notes@) == notifications(block@, i as int),
            skipped@ == unsupported(block@, i as int),
        decreases block.txs.len() - i,
    {
        let included = &block.txs[i];
        assert(views(block.txs@)[i as int] == block.txs@[i as int]@);
        let row = to_buffered_tx(block, i);
        put_row(block_txs, &row, ConflictPolicy::Overwrite);
        proof {
            let next = buffered_txs(block@, i + 1);
            assert(next.drop_last() =~= buffered_txs(block@, i as int));
            assert(next.last() == buffered_tx(block@, i as int));
        }
        let added = add_tx_data(
            tx_data,
            tx_data_proofs,
            &included.id.1,
            &included.tx,
            &included.id.0,
        );
        proof {
            assert(views(tx_data@) =~= views(old(tx_data)@) + block_data_rows(block@, i + 1));
            assert(views(tx_data_proofs@) =~= views(old(tx_data_proofs)@) + block_proof_rows(
                block@,
                i + 1,
            ));
        }
        match added {
            Ok(()) => {},
            Err(_) => {
                skipped.push(i);
            },
        }
        push_notification(&mut notes, block, i);
        assert(views(notes@) =~= notifications(block@, i + 1));
        i = i + 1;
    }
    BlockOutcome { notifications: notes, unsupported: skipped }
}

fn buffer_events(events: &mut Vec<TxEventStore>, block: &Block)
    ensures
        views(final(events)@) == views(old(events)@) + event_rows(
            block@,
            block@.transactions_events.len() as int,
        ),
{
    let height = u64_to_i64(block.block_height);
    let mut i: usize = 0;
    assert(views(events@) =~= views(old(events)@) + event_rows(block@, 0));
    while i < block.transactions_events.len()
        invariant
            0 <= i <= block.transactions_events.len(),
            block@.transactions_events.len() == block.transactions_events.len(),
            height == narrowed_i64(block.block_height as int),
            views(events@) == views(old(events)@) + event_rows(block@, i as int),
        decreases block.transactions_events.len() - i,
    {
        let entry = &block.transactions_events[i];
        assert(views(block.transactions_events@)[i as int] == entry@);
        let ghost before = views(events@);
        events.push(
            TxEventStore {
                block_hash: block.hash.clone(),
                block_height: height,
                index: usize_to_i32(i),
                tx_hash: entry.tx_hash.clone(),
                parent_data_proposal_hash: parent_for(&block.dp_parent_hashes, &entry.tx_hash),
                events: entry.events.clone(),
            },
        );
        proof {
            assert(views(events@) =~= before.push(event_row(block@, i as int)));
            assert(views(events@) =~= views(old(events)@) + event_rows(block@, i + 1));
        }
        i = i + 1;
    }
}

fn queue_settlements(
    queue: &mut Vec<DeferredUpdate>,
    parents: &Vec<DataProposalParent>,
    hashes: &Vec<String>,
    settlement: Settlement,
)
    ensures
        views(final(queue)@) == views(old(queue)@) + settlements(
            views(parents@),
            views(hashes@),
            settlement,
        ),
{
    let mut i: usize = 0;
    assert(views(queue@) =~= views(old(queue)@) + settlements(
        views(parents@),
        views(hashes@).take(0),
        settlement,
    ));
    while i < hashes.len()
        invariant
            0 <= i <= hashes.len(),
            views(queue@) == views(old(queue)@) + settlements(
                views(parents@),
                views(hashes@).take(i as int),
                settlement,
            ),
        decreases hashes.len() - i,
    {
        let ghost before = views(queue@);
        queue.push(
            DeferredUpdate::SetTransactionStatus {
                settlement,
                tx_hash: hashes[i].clone(),
                parent_dp_hash: parent_for(parents, &hashes[i]),
            },
        );
        proof {
            assert(views(queue@) =~= before.push(
                settlement_of(views(parents@), hashes@[i as int]@, settlement),
            ));
            assert(views(queue@) =~= views(old(queue)@) + settlements(
                views(parents@),
                views(hashes@).take(i + 1),
                settlement,
            ));
        }
        i = i + 1;
    }
    assert(views(hashes@).take(hashes.len() as int) =~= views(hashes@));
}

fn buffer_proof_outputs(rows: &mut Vec<TxBlobProofOutputStore>, block: &Block)
    ensures
        views(final(rows)@) == views(old(rows)@) + proof_output_rows(block@),
{
    let mut i: usize = 0;
    assert(views(rows@) =~= views(old(rows)@) + proof_output_rows(block@).take(0));
    while i < block.blob_proof_outputs.len()
        invariant
            0 <= i <= block.blob_proof_outputs.len(),
            block@.blob_proof_outputs.len() == block.blob_proof_outputs.len(),
            views(rows@) == views(old(rows)@) + proof_output_rows(block@).take(i as int),
        decreases block.blob_proof_outputs.len() - i,
    {
        let o = &block.blob_proof_outputs[i];
        assert(views(block.blob_proof_outputs@)[i as int] == block.blob_proof_outputs@[i as int]@);
        let ghost before = views(rows@);
        rows.push(
            TxBlobProofOutputStore {
                proof_tx_hash: o.proof_tx_hash.clone(),
                proof_parent_dp_hash: parent_for(&block.dp_parent_hashes, &o.proof_tx_hash),
                blob_tx_hash: o.blob_tx_hash.clone(),
                blob_parent_dp_hash: parent_for(&block.dp_parent_hashes, &o.blob_tx_hash),
                blob_index: usize_to_i32(o.blob_index),
                blob_proof_output_index: usize_to_i32(o.blob_proof_output_index),
                contract_name: o.contract_name.clone(),
                hyle_output: o.hyle_output.clone(),
                settled: false,
            },
        );
        proof {
            assert(views(rows@) =~= before.push(proof_output_row(block@, o@)));
            assert(views(rows@) =~= views(old(rows)@) + proof_output_rows(block@).take(i + 1));
        }
        i = i + 1;
    }
    assert(proof_output_rows(block@).take(block.blob_proof_outputs.len() as int)
        =~= proof_output_rows(block@));
}

fn queue_verifications(queue: &mut Vec<DeferredUpdate>, block: &Block)
    ensures
        views(final(queue)@) == views(old(queue)@) + verifications(
            block@,
            block@.verified_blobs.len() as int,
        ),
{
    let mut i: usize = 0;
    assert(views(queue@) =~= views(old(queue)@) + verifications(block@, 0));
    while i < block.verified_blobs.len()
        invariant
            0 <= i <= block.verified_blobs.len(),
            block@.verified_blobs.len() == block.verified_blobs.len(),
            views(queue@) == views(old(queue)@) + verifications(block@, i as int),
        decreases block.verified_blobs.len() - i,
    {
        let v = &block.verified_blobs[i];
        assert(views(block.verified_blobs@)[i as int] == block.verified_blobs@[i as int]@);
        let ghost before = views(queue@);
        let parent = parent_for(&block.dp_parent_hashes, &v.blob_tx_hash);
        let blob_index = usize_to_i32(v.blob_index);
        queue.push(
            DeferredUpdate::SetBlobVerified {
                tx_hash: v.blob_tx_hash.clone(),
                parent_dp_hash: parent.clone(),
                blob_index,
            },
        );
        match v.blob_proof_output_index {
            Some(output) => {
                queue.push(
                    DeferredUpdate::SetProofOutputSettled {
                        blob_tx_hash: v.blob_tx_hash.clone(),
                        blob_parent_dp_hash: parent,
                        blob_index,
                        blob_proof_output_index: usize_to_i32(output),
                    },
                );
            },
            None => {},
        }
        proof {
            assert(views(queue@) =~= before + verification_of(views(block.dp_parent_hashes@), v@));
            assert(views(queue@) =~= views(old(queue)@) + verifications(block@, i + 1));
        }
        i = i + 1;
    }
}

fn buffer_contracts(
    contracts: &mut Vec<TxContractStore>,
    contract_states: &mut Vec<TxContractStateStore>,
    deleted: &mut Vec<String>,
    block: &Block,
)
    ensures
        views(final(contracts)@) == put_all::<TxContractStore>(
            views(old(contracts)@),
            contract_rows(block@),
            ConflictPolicy::Overwrite,
        ),
        views(final(contract_states)@) == views(old(contract_states)@) + contract_state_rows(
            block@,
        ),
        views(final(deleted)@) == cleared(
            views(old(deleted)@),
            block@,
            block@.registered_contracts.len() as int,
        ),
{
    let mut i: usize = 0;
    assert(views(contract_states@) =~= views(old(contract_states)@) + contract_state_rows(
        block@,
    ).take(0));
    assert(contract_rows(block@).take(0) =~= Seq::empty());
    while i < block.registered_contracts.len()
        invariant
            0 <= i <= block.registered_contracts.len(),
            block@.registered_contracts.len() == block.registered_contracts.len(),
            views(contracts@) == put_all::<TxContractStore>(
                views(old(contracts)@),
                contract_rows(block@).take(i as int),
                ConflictPolicy::Overwrite,
            ),
            views(contract_states@) == views(old(contract_states)@) + contract_state_rows(
                block@,
            ).take(i as int),
            views(deleted@) == cleared(views(old(deleted)@), block@, i as int),
        decreases block.registered_contracts.len() - i,
    {
        let c = &block.registered_contracts[i];
        assert(views(block.registered_contracts@)[i as int] == c@);
        remove_key(deleted, &c.contract_name);
        let row = TxContractStore {
            tx_hash: c.tx_hash.clone(),
            parent_data_proposal_hash: parent_for(&block.dp_parent_hashes, &c.tx_hash),
            verifier: c.verifier.clone(),
            program_id: clone_bytes(&c.program_id),
            state_commitment: clone_bytes(&c.state_commitment),
            contract_name: c.contract_name.clone(),
        };
        put_row(contracts, &row, ConflictPolicy::Overwrite);
        proof {
            let next = contract_rows(block@).take(i + 1);
            assert(next.drop_last() =~= contract_rows(block@).take(i as int));
            assert(next.last() == contract_row(block@, c@));
        }
        let ghost before = views(contract_states@);
        contract_states.push(
            TxContractStateStore {
                contract_name: c.contract_name.clone(),
                block_hash: block.hash.clone(),
                state_commitment: clone_bytes(&c.state_commitment),
            },
        );
        proof {
            assert(views(contract_states@) =~= before.push(contract_state_row(block@, c@)));
            assert(views(contract_states@) =~= views(old(contract_states)@) + contract_state_rows(
                block@,
            ).take(i + 1));
        }
        i = i + 1;
    }
    assert(contract_rows(block@).take(block.registered_contracts.len() as int) =~= contract_rows(
        block@,
    ));
    assert(contract_state_rows(block@).take(block.registered_contracts.len() as int)
        =~= contract_state_rows(block@));
}

fn queue_state_updates(queue: &mut Vec<DeferredUpdate>, block: &Block)
    ensures
        views(final(queue)@) == views(old(queue)@) + state_updates(
            block@,
            block@.updated_states.len() as int,
        ),
{
    let mut i: usize = 0;
    assert(views(queue@) =~= views(old(queue)@) + state_updates(block@, 0));
    while i < block.updated_states.len()
        invariant
            0 <= i <= block.updated_states.len(),
            block@.updated_states.len() == block.updated_states.len(),
            views(queue@) == views(old(queue)@) + state_updates(block@, i as int),
        decreases block.updated_states.len() - i,
    {
        let u = &block.updated_states[i];
        assert(views(block.updated_states@)[i as int] == block.updated_states@[i as int]@);
        let ghost before = views(queue@);
        queue.push(
            DeferredUpdate::SetContractStateAtBlock {
                state_commitment: clone_bytes(&u.state_commitment),
                contract_name: u.contract_name.clone(),
                block_hash: block.hash.clone(),
            },
        );
        queue.push(
            DeferredUpdate::SetContractState {
                state_commitment: clone_bytes(&u.state_commitment),
                contract_name: u.contract_name.clone(),
            },
        );
        proof {
            assert(views(queue@) =~= before + state_update_of(block@.hash, u@));
            assert(views(queue@) =~= views(old(queue)@) + state_updates(block@, i + 1));
        }
        i = i + 1;
    }
}

proof fn lemma_cleared_unique(deleted: Seq<Seq<char>>, b: BlockView, n: int)
    requires
        unique_keys::<String>(deleted),
    ensures
        unique_keys::<String>(cleared(deleted, b, n)),
    decreases n,
{
    if n > 0 {
        lemma_cleared_unique(deleted, b, n - 1);
        lemma_without_key::<String>(
            cleared(deleted, b, n - 1),
            b.registered_contracts[n - 1].contract_name,
        );
    }
}

/// A buffer that holds no key twice still does so after a block has been
/// read.
pub proof fn lemma_with_block_keeps_keys_unique(s: StoreView, b: BlockView)
    requires
        s.wf(),
    ensures
        with_block(s, b).wf(),
{
    lemma_put_all_unique::<BufferedTx>(
        s.block_txs,
        buffered_txs(b, b.txs.len() as int),
        ConflictPolicy::Overwrite,
    );
    lemma_put_all_unique::<TxContractStore>(
        s.contracts,
        contract_rows(b),
        ConflictPolicy::Overwrite,
    );
    lemma_cleared_unique(s.deleted_contracts, b, b.registered_contracts.len() as int);
    lemma_put_all_unique::<String>(
        cleared(s.deleted_contracts, b, b.registered_contracts.len() as int),
        b.deleted_contracts,
        ConflictPolicy::Ignore,
    );
}

impl IndexerHandlerStore {
    /// Buffers the detail of a transaction: the blobs of a blob transaction,
    /// the proof of a verified proof. A proof that has not been verified has
    /// no detail to buffer: the buffer stays as it is and the call fails.
    pub fn insert_tx_data(
        &mut self,
        tx_hash: &TxHashDb,
        tx: &Transaction,
        parent_data_proposal_hash: DataProposalHashDb,
    ) -> (r: Result<(), UnsupportedTransactionType>)
        ensures
            final(self)@ == with_tx_data(old(self)@, tx_hash@, tx@, parent_data_proposal_hash@),
            old(self)@.wf() ==> final(self)@.wf(),
            r is Err <==> tx@.transaction_data is Proof,
    {
        let r = add_tx_data(
            &mut self.tx_data,
            &mut self.tx_data_proofs,
            tx_hash,
            tx,
            &parent_data_proposal_hash,
        );
        assert(self@ =~~= with_tx_data(old(self)@, tx_hash@, tx@, parent_data_proposal_hash@));
        r
    }

    /// Reads a block into the buffer, and says what subscribers are to be told.
    pub fn handle_processed_block(&mut self, block: &Block) -> (r: BlockOutcome)
        ensures
            final(self)@ == with_block(old(self)@, block@),
            old(self)@.wf() ==> final(self)@.wf(),
            views(r.notifications@) == notifications(block@, block@.txs.len() as int),
            r.unsupported@ == unsupported(block@, block@.txs.len() as int),
    {
        self.blocks.push(
            BufferedBlock {
                hash: block.hash.clone(),
                parent_hash: block.parent_hash.clone(),
                block_height: block.block_height,
                block_timestamp: block.block_timestamp,
                total_txs: block.txs.len(),
            },
        );
        assert(views(self.blocks@) =~= old(self)@.blocks.push(buffered_block(block@)));
        let outcome = buffer_txs(
            &mut self.block_txs,
            &mut self.tx_data,
            &mut self.tx_data_proofs,
            block,
        );
        buffer_events(&mut self.transactions_events, block);
        queue_settlements(
            &mut self.sql_updates,
            &block.dp_parent_hashes,
            &block.successful_txs,
            Settlement::Success,
        );
        queue_settlements(
            &mut self.sql_updates,
            &block.dp_parent_hashes,
            &block.failed_txs,
            Settlement::Failure,
        );
        queue_settlements(
            &mut self.sql_updates,
            &block.dp_parent_hashes,
            &block.timed_out_txs,
            Settlement::TimedOut,
        );
        buffer_proof_outputs(&mut self.blob_proof_outputs, block);
        queue_verifications(&mut self.sql_updates, block);
        buffer_contracts(
            &mut self.contracts,
            &mut self.contract_states,
            &mut self.deleted_contracts,
            block,
        );
        put_rows(
            &mut self.deleted_contracts,
            &block.deleted_contracts,
            ConflictPolicy::Ignore,
        );
        queue_state_updates(&mut self.sql_updates, block);
        assert(self@.sql_updates =~= old(self)@.sql_updates + queued(block@));
        assert(self@ =~~= with_block(old(self)@, block@));
        proof {
            if old(self)@.wf() {
                lemma_with_block_keeps_keys_unique(old(self)@, block@);
            }
        }
        outcome
    }
}

} // verus!
