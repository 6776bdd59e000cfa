use crate::ingest::{with_tx_data, UnsupportedTransactionType};
use crate::keyed::{duplicate_rows, put_all, put_rows, ConflictPolicy, Row};
use crate::model::{
    MempoolStatusEvent, MempoolStatusEventView, Transaction, TransactionMetadata,
    TransactionMetadataView, TransactionView,
};
use crate::narrow::{narrowed_i32, u32_to_i32};
use crate::rows::{TransactionRow, TransactionRowView, TxDataStore, TxDataStoreView, TxHashDb};
use crate::seqs::{contains_text, views};
use crate::statement::{Statement, StatementView};
use crate::status::TransactionStatusDb;
use crate::store::{IndexerHandlerStore, StoreView};
use crate::writer::when_any;
use vstd::prelude::*;

verus! {

/// The row of `transactions` for a transaction that entered the
/// dissemination pipeline under the data proposal `parent`.
pub open spec fn waiting_row(parent: Seq<char>, tx_hash: Seq<char>, tx: TransactionView)
    -> TransactionRowView {
    TransactionRowView {
        tx_hash,
        parent_dp_hash: parent,
        version: narrowed_i32(tx.version as int),
        transaction_type: tx.transaction_data.kind().stored_type(),
        transaction_status: TransactionStatusDb::WaitingDissemination,
        block_hash: None,
        block_height: None,
        index: None,
        lane_id: None,
        identity: None,
    }
}

/// The row of `transactions` for a transaction that was sealed into a data
/// proposal.
pub open spec fn sealed_row(m: TransactionMetadataView) -> TransactionRowView {
    TransactionRowView {
        tx_hash: m.id.1,
        parent_dp_hash: m.id.0,
        version: narrowed_i32(m.version as int),
        transaction_type: m.transaction_kind.stored_type(),
        transaction_status: TransactionStatusDb::DataProposalCreated,
        block_hash: None,
        block_height: None,
        index: None,
        lane_id: None,
        identity: None,
    }
}

/// The rows for the sealed transactions, one for a key: of two reports of
/// the same transaction under the same data proposal, the first counts.
pub open spec fn sealed_rows(ms: Seq<TransactionMetadataView>) -> Seq<TransactionRowView> {
    put_all::<TransactionRow>(
        Seq::empty(),
        ms.map_values(|m: TransactionMetadataView| sealed_row(m)),
        ConflictPolicy::Ignore,
    )
}

/// The statements that an event of the mempool opens with.
///
/// A waiting transaction is stored unless its key is stored already. Sealed
/// transactions are stored, or advanced where they are stored as waiting;
/// then the transactions that still wait under the parent of the new data
/// proposal, which the proposal passed over, are counted under the new one.
pub open spec fn opening(event: MempoolStatusEventView) -> Seq<StatementView> {
    match event {
        MempoolStatusEventView::WaitingDissemination { parent_data_proposal_hash, tx_hash, tx } => {
            seq![
                StatementView::InsertTransactions {
                    rows: seq![waiting_row(parent_data_proposal_hash, tx_hash, tx)],
                    on_conflict: ConflictPolicy::Ignore,
                },
            ]
        },
        MempoolStatusEventView::DataProposalCreated {
            parent_data_proposal_hash,
            data_proposal_hash,
            txs_metadatas,
        } => when_any(
            sealed_rows(txs_metadatas).len(),
            StatementView::InsertTransactions {
                rows: sealed_rows(txs_metadatas),
                on_conflict: ConflictPolicy::AdvanceFromWaiting,
            },
        ) + seq![
            StatementView::ReparentTransactions {
                from: parent_data_proposal_hash,
                to: data_proposal_hash,
            },
        ],
    }
}

/// A row of `blobs` once the named transactions have moved from the data
/// proposal `from` to `to`.
pub open spec fn reparented_blob(
    d: TxDataStoreView,
    from: Seq<char>,
    to: Seq<char>,
    tx_hashes: Seq<Seq<char>>,
) -> TxDataStoreView {
    if d.parent_data_proposal_hash == from && tx_hashes.contains(d.tx_hash) {
        TxDataStoreView { parent_data_proposal_hash: to, ..d }
    } else {
        d
    }
}

/// The rows of `blobs` once the named transactions have moved from the data
/// proposal `from` to `to`.
pub open spec fn reparented_blobs(
    rows: Seq<TxDataStoreView>,
    from: Seq<char>,
    to: Seq<char>,
    tx_hashes: Seq<Seq<char>>,
) -> Seq<TxDataStoreView> {
    rows.map_values(|d: TxDataStoreView| reparented_blob(d, from, to, tx_hashes))
}

/// The buffer once the backend has run the opening statements of an event
/// and handed back `moved`, the hashes of the transactions that it counted
/// under the new data proposal.
pub open spec fn closed(s: StoreView, event: MempoolStatusEventView, moved: Seq<Seq<char>>)
    -> StoreView {
    match event {
        MempoolStatusEventView::WaitingDissemination { parent_data_proposal_hash, tx_hash, tx } => {
            with_tx_data(s, tx_hash, tx, parent_data_proposal_hash)
        },
        MempoolStatusEventView::DataProposalCreated {
            parent_data_proposal_hash,
            data_proposal_hash,
            txs_metadatas,
        } => StoreView {
            tx_data: reparented_blobs(
                s.tx_data,
                parent_data_proposal_hash,
                data_proposal_hash,
                moved,
            ),
            ..s
        },
    }
}

/// The statements that an event of the mempool closes with: the stored blobs
/// of the moved transactions follow them.
pub open spec fn closing(event: MempoolStatusEventView, moved: Seq<Seq<char>>) -> Seq<
    StatementView,
> {
    match event {
        MempoolStatusEventView::WaitingDissemination { .. } => Seq::empty(),
        MempoolStatusEventView::DataProposalCreated {
            parent_data_proposal_hash,
            data_proposal_hash,
            txs_metadatas,
        } => when_any(
            moved.len(),
            StatementView::ReparentBlobs {
                from: parent_data_proposal_hash,
                to: data_proposal_hash,
                tx_hashes: moved,
            },
        ),
    }
}

/// Whether the event is that of a waiting transaction that has no detail to
/// buffer: a proof that has not been verified.
pub open spec fn waiting_proof(event: MempoolStatusEventView) -> bool {
    event matches MempoolStatusEventView::WaitingDissemination { tx, .. }
        && tx.transaction_data is Proof
}

/// What the indexer does once the opening statements of an event have run.
#[derive(Clone, Debug, PartialEq, Eq)]
pub struct MempoolFollowUp {
    /// The statements to run before the event is committed.
    pub statements: Vec<Statement>,
    /// The detail of the waiting transaction could not be buffered.
    pub unsupported: Option<UnsupportedTransactionType>,
}

/// The row of `transactions` for a transaction that entered the dissemination
/// pipeline.
pub fn to_waiting_row(parent: &String, tx_hash: &String, tx: &Transaction) -> (r: TransactionRow)
    ensures
        r@ == waiting_row(parent@, tx_hash@, tx@),
{
    TransactionRow {
        tx_hash: tx_hash.clone(),
        parent_dp_hash: parent.clone(),
        version: u32_to_i32(tx.version),
        transaction_type: tx.transaction_data.kind().to_stored_type(),
        transaction_status: TransactionStatusDb::WaitingDissemination,
        block_hash: None,
        block_height: None,
        index: None,
        lane_id: None,
        identity: None,
    }
}

/// The row of `transactions` for a transaction that was sealed into a data
/// proposal.
pub fn to_sealed_row(m: &TransactionMetadata) -> (r: TransactionRow)
    ensures
        r@ == sealed_row(m@),
{
    TransactionRow {
        tx_hash: m.id.1.clone(),
        parent_dp_hash: m.id.0.clone(),
        version: u32_to_i32(m.version),
        transaction_type: m.transaction_kind.to_stored_type(),
        transaction_status: TransactionStatusDb::DataProposalCreated,
        block_hash: None,
        block_height: None,
        index: None,
        lane_id: None,
        identity: None,
    }
}

fn to_sealed_rows(ms: &Vec<TransactionMetadata>) -> (r: Vec<TransactionRow>)
    ensures
        views(r@) == sealed_rows(views(ms@)),
{
    let mut all: Vec<TransactionRow> = Vec::new();
    let mut i: usize = 0;
    while i < ms.len()
        invariant
            0 <= i <= ms.len(),
            views(all@) == views(ms@).take(i as int).map_values(
                |m: TransactionMetadataView| sealed_row(m),
            ),
        decreases ms.len() - i,
    {
        let ghost before = views(all@);
        all.push(to_sealed_row(&ms[i]));
        proof {
            assert(views(all@) =~= before.push(sealed_row(ms@[i as int]@)));
            assert(views(all@) =~= views(ms@).take(i + 1).map_values(
                |m: TransactionMetadataView| sealed_row(m),
            ));
        }
        i = i + 1;
    }
    assert(views(ms@).take(ms.len() as int) =~= views(ms@));
    let mut r: Vec<TransactionRow> = Vec::new();
    assert(views(r@) =~= Seq::<TransactionRowView>::empty());
    put_rows(&mut r, &all, ConflictPolicy::Ignore);
    r
}

/// The statements that an event of the mempool opens with.
pub fn opening_statements(event: &MempoolStatusEvent) -> (r: Vec<Statement>)
    ensures
        views(r@) == opening(event@),
{
    let mut out: Vec<Statement> = Vec::new();
    match event {
        MempoolStatusEvent::WaitingDissemination { parent_data_proposal_hash, tx_hash, tx } => {
            let mut rows: Vec<TransactionRow> = Vec::new();
            rows.push(to_waiting_row(parent_data_proposal_hash, tx_hash, tx));
            assert(views(rows@) =~= seq![waiting_row(parent_data_proposal_hash@, tx_hash@, tx@)]);
            out.push(
                Statement::InsertTransactions { rows, on_conflict: ConflictPolicy::Ignore },
            );
            assert(views(out@) =~= opening(event@));
        },
        MempoolStatusEvent::DataProposalCreated {
            parent_data_proposal_hash,
            data_proposal_hash,
            txs_metadatas,
        } => {
            let rows = to_sealed_rows(txs_metadatas);
            if rows.len() > 0 {
                out.push(
                    Statement::InsertTransactions {
                        rows,
                        on_conflict: ConflictPolicy::AdvanceFromWaiting,
                    },
                );
            }
            out.push(
                Statement::ReparentTransactions {
                    from: parent_data_proposal_hash.clone(),
                    to: data_proposal_hash.clone(),
                },
            );
            assert(views(out@) =~= opening(event@));
        },
    }
    out
}

/// Counts the rows of the named transactions that stand under the data
/// proposal `from` under `to`.
pub fn reparent_blobs(
    rows: &mut Vec<TxDataStore>,
    from: &String,
    to: &String,
    tx_hashes: &Vec<TxHashDb>,
)
    ensures
        views(final(rows)@) == reparented_blobs(views(old(rows)@), from@, to@, views(tx_hashes@)),
{
    let mut i: usize = 0;
    while i < rows.len()
        invariant
            0 <= i <= rows.len(),
            rows.len() == old(rows).len(),
            forall|j: int|
                0 <= j < i ==> (#[trigger] rows@[j])@ == reparented_blob(
                    old(rows)@[j]@,
                    from@,
                    to@,
                    views(tx_hashes@),
                ),
            forall|j: int| i <= j < rows.len() ==> (#[trigger] rows@[j])@ == old(rows)@[j]@,
        decreases rows.len() - i,
    {
        let named = contains_text(tx_hashes, &rows[i].tx_hash);
        if rows[i].parent_data_proposal_hash == *from && named {
            let mut moved = rows[i].duplicate();
            moved.parent_data_proposal_hash = to.clone();
            rows.set(i, moved);
        }
        i = i + 1;
    }
    assert(views(rows@) =~= reparented_blobs(views(old(rows)@), from@, to@, views(tx_hashes@)));
}

impl IndexerHandlerStore {
    /// Brings the buffer in line with what the backend did for an event of
    /// the mempool, and gives the statements that close the event. `moved`
    /// is what the opening statements handed back.
    pub fn close_mempool_event(&mut self, event: &MempoolStatusEvent, moved: &Vec<TxHashDb>) -> (r:
        MempoolFollowUp)
        ensures
            final(self)@ == closed(old(self)@, event@, views(moved@)),
            old(self)@.wf() ==> final(self)@.wf(),
            views(r.statements@) == closing(event@, views(moved@)),
            r.unsupported is Some <==> waiting_proof(event@),
    {
        let mut out: Vec<Statement> = Vec::new();
        match event {
            MempoolStatusEvent::WaitingDissemination { parent_data_proposal_hash, tx_hash, tx } => {
                let added = self.insert_tx_data(tx_hash, tx, parent_data_proposal_hash.clone());
                assert(views(out@) =~= closing(event@, views(moved@)));
                let unsupported = match added {
                    Ok(()) => None,
                    Err(e) => Some(e),
                };
                MempoolFollowUp { statements: out, unsupported }
            },
            MempoolStatusEvent::DataProposalCreated {
                parent_data_proposal_hash,
                data_proposal_hash,
                txs_metadatas,
            } => {
                reparent_blobs(
                    &mut self.tx_data,
                    parent_data_proposal_hash,
                    data_proposal_hash,
                    moved,
                );
                if moved.len() > 0 {
                    out.push(
                        Statement::ReparentBlobs {
                            from: parent_data_proposal_hash.clone(),
                            to: data_proposal_hash.clone(),
                            tx_hashes: duplicate_rows(moved),
                        },
                    );
                }
                assert(views(out@) =~= closing(event@, views(moved@)));
                assert(self@ =~~= closed(old(self)@, event@, views(moved@)));
                MempoolFollowUp { statements: out, unsupported: None }
            },
        }
    }
}

} // verus!
