use crate::flushing::{lemma_run_concat, lemma_run_one, lemma_run_when_any};
use crate::keyed::{
    first_match, has_key, lemma_put, lemma_put_all_keeps_keys, lemma_put_all_keys_arrived,
    lemma_put_all_unique, lemma_put_all_untouched, put_all, unique_keys, ConflictPolicy, Keyed,
};
use crate::mempool::{
    closed, closing, opening, reparented_blob, reparented_blobs, sealed_row, sealed_rows,
    waiting_row,
};
use crate::model::{MempoolStatusEventView, TransactionMetadataView};
use crate::rows::{TransactionRow, TransactionRowView, TxDataStoreView};
use crate::statement::StatementView;
use crate::status::TransactionStatusDb;
use crate::store::StoreView;
use crate::tables::{
    reparented_transaction, reparented_transactions, waiting_under, Effect, StorageError,
    TablesView,
};
use crate::writer::when_any;
use vstd::prelude::*;

verus! {

/// What the opening statements of an event of the mempool do: the tables
/// after them, and what the last of them hands back.
pub open spec fn opened(t: TablesView, event: MempoolStatusEventView) -> Result<
    Effect,
    StorageError,
> {
    match event {
        MempoolStatusEventView::WaitingDissemination { parent_data_proposal_hash, tx_hash, tx } => {
            Ok(
                Effect {
                    tables: TablesView {
                        transactions: put_all::<TransactionRow>(
                            t.transactions,
                            seq![waiting_row(parent_data_proposal_hash, tx_hash, tx)],
                            ConflictPolicy::Ignore,
                        ),
                        ..t
                    },
                    returned: Seq::empty(),
                },
            )
        },
        MempoolStatusEventView::DataProposalCreated {
            parent_data_proposal_hash,
            data_proposal_hash,
            txs_metadatas,
        } => TablesView {
            transactions: put_all::<TransactionRow>(
                t.transactions,
                sealed_rows(txs_metadatas),
                ConflictPolicy::AdvanceFromWaiting,
            ),
            ..t
        }.step(
            StatementView::ReparentTransactions {
                from: parent_data_proposal_hash,
                to: data_proposal_hash,
            },
        ),
    }
}

/// The run of the opening statements of an event leaves the tables that
/// `opened` describes.
pub proof fn lemma_opening(t: TablesView, event: MempoolStatusEventView)
    ensures
        t.run(opening(event)) == match opened(t, event) {
            Ok(effect) => Ok::<TablesView, StorageError>(effect.tables),
            Err(e) => Err(e),
        },
{
    match event {
        MempoolStatusEventView::WaitingDissemination { parent_data_proposal_hash, tx_hash, tx } => {
            lemma_run_one(
                t,
                StatementView::InsertTransactions {
                    rows: seq![waiting_row(parent_data_proposal_hash, tx_hash, tx)],
                    on_conflict: ConflictPolicy::Ignore,
                },
            );
        },
        MempoolStatusEventView::DataProposalCreated {
            parent_data_proposal_hash,
            data_proposal_hash,
            txs_metadatas,
        } => {
            let rows = sealed_rows(txs_metadatas);
            let insert = StatementView::InsertTransactions {
                rows,
                on_conflict: ConflictPolicy::AdvanceFromWaiting,
            };
            let reparent = StatementView::ReparentTransactions {
                from: parent_data_proposal_hash,
                to: data_proposal_hash,
            };
            let mid = TablesView {
                transactions: put_all::<TransactionRow>(
                    t.transactions,
                    rows,
                    ConflictPolicy::AdvanceFromWaiting,
                ),
                ..t
            };
            lemma_run_when_any(t, rows.len(), insert);
            if rows.len() == 0 {
                assert(mid =~= t);
            }
            lemma_run_one(mid, reparent);
            lemma_run_concat(t, when_any(rows.len(), insert), seq![reparent]);
        },
    }
}

/// Whether a row of `transactions` waits for dissemination under a data
/// proposal.
pub open spec fn waits_under(v: TransactionRowView, parent: Seq<char>) -> bool {
    v.parent_dp_hash == parent && v.transaction_status == TransactionStatusDb::WaitingDissemination
}

/// The hashes that a reparenting hands back are those of the rows that wait
/// under the superseded data proposal.
pub proof fn lemma_waiting_under(rows: Seq<TransactionRowView>, from: Seq<char>)
    ensures
        forall|i: int|
            0 <= i < rows.len() && waits_under(#[trigger] rows[i], from) ==> waiting_under(
                rows,
                from,
            ).contains(rows[i].tx_hash),
        forall|h: Seq<char>|
            #[trigger] waiting_under(rows, from).contains(h) ==> exists|i: int|
                0 <= i < rows.len() && waits_under(#[trigger] rows[i], from) && rows[i].tx_hash
                    == h,
    decreases rows.len(),
{
    if rows.len() > 0 {
        let head = rows.drop_last();
        lemma_waiting_under(head, from);
        let all = waiting_under(rows, from);
        let before = waiting_under(head, from);
        assert forall|i: int| 0 <= i < rows.len() && waits_under(
            #[trigger] rows[i],
            from,
        ) implies all.contains(rows[i].tx_hash) by {
            if i < head.len() {
                assert(head[i] == rows[i]);
                assert(before.contains(head[i].tx_hash));
                let w = choose|w: int| 0 <= w < before.len() && before[w] == rows[i].tx_hash;
                assert(all[w] == rows[i].tx_hash);
            } else {
                assert(all[all.len() - 1] == rows[i].tx_hash);
            }
        }
        assert forall|h: Seq<char>| #[trigger] all.contains(h) implies exists|i: int|
            0 <= i < rows.len() && waits_under(#[trigger] rows[i], from) && rows[i].tx_hash
                == h by {
            let w = choose|w: int| 0 <= w < all.len() && all[w] == h;
            if w < before.len() {
                assert(before[w] == h);
                assert(before.contains(h));
                let i = choose|i: int|
                    0 <= i < head.len() && waits_under(#[trigger] head[i], from) && head[i].tx_hash
                        == h;
                assert(rows[i] == head[i]);
            } else {
                assert(waits_under(rows[rows.len() - 1], from));
            }
        }
    }
}

/// No row may reference a superseded hash. Once the transactions that wait
/// under `from` have been counted under another data proposal, none waits
/// under `from` any more; the rows that moved kept everything but the data
/// proposal, and the others are as they were.
pub proof fn lemma_no_transaction_waits_under_superseded(
    t: TablesView,
    from: Seq<char>,
    to: Seq<char>,
)
    requires
        from != to,
        t.step(StatementView::ReparentTransactions { from, to }) is Ok,
    ensures
        ({
            let after = t.step(StatementView::ReparentTransactions { from, to }).unwrap().tables;
            &&& after.transactions.len() == t.transactions.len()
            &&& forall|i: int|
                0 <= i < after.transactions.len() ==> !waits_under(
                    #[trigger] after.transactions[i],
                    from,
                )
            &&& forall|i: int|
                0 <= i < t.transactions.len() ==> #[trigger] after.transactions[i] == (if waits_under(
                    t.transactions[i],
                    from,
                ) {
                    TransactionRowView { parent_dp_hash: to, ..t.transactions[i] }
                } else {
                    t.transactions[i]
                })
        }),
{
    let after = t.step(StatementView::ReparentTransactions { from, to }).unwrap().tables;
    assert forall|i: int| 0 <= i < after.transactions.len() implies !waits_under(
        #[trigger] after.transactions[i],
        from,
    ) by {
        assert(after.transactions[i] == reparented_transaction(t.transactions[i], from, to));
    }
}

/// The blobs follow their transactions. Once the blobs of the named
/// transactions have been counted under another data proposal than `from`,
/// no blob of these transactions is left under `from`, in the tables as in
/// the buffer; the rows that moved kept everything but the data proposal.
pub proof fn lemma_no_blob_under_superseded(
    rows: Seq<TxDataStoreView>,
    from: Seq<char>,
    to: Seq<char>,
    tx_hashes: Seq<Seq<char>>,
)
    requires
        from != to,
    ensures
        reparented_blobs(rows, from, to, tx_hashes).len() == rows.len(),
        forall|i: int|
            0 <= i < rows.len() ==> !({
                let moved = #[trigger] reparented_blobs(rows, from, to, tx_hashes)[i];
                moved.parent_data_proposal_hash == from && tx_hashes.contains(moved.tx_hash)
            }),
        forall|i: int|
            0 <= i < rows.len() ==> #[trigger] reparented_blobs(rows, from, to, tx_hashes)[i] == (
            if rows[i].parent_data_proposal_hash == from && tx_hashes.contains(rows[i].tx_hash) {
                TxDataStoreView { parent_data_proposal_hash: to, ..rows[i] }
            } else {
                rows[i]
            }),
{
}

/// One row for a key. However often the mempool reports a sealed
/// transaction, the statement that stores the sealed transactions carries
/// its identity once.
pub proof fn lemma_sealed_rows_have_distinct_keys(ms: Seq<TransactionMetadataView>)
    ensures
        unique_keys::<TransactionRow>(sealed_rows(ms)),
{
    lemma_put_all_unique::<TransactionRow>(
        Seq::<TransactionRowView>::empty(),
        ms.map_values(|m: TransactionMetadataView| sealed_row(m)),
        ConflictPolicy::Ignore,
    );
}

/// The keys of the rows for sealed transactions are the identities that the
/// mempool reported.
proof fn lemma_sealed_keys(ms: Seq<TransactionMetadataView>)
    ensures
        forall|j: int|
            0 <= j < sealed_rows(ms).len() ==> exists|m: int|
                0 <= m < ms.len() && (#[trigger] ms[m]).id == (
                    (#[trigger] sealed_rows(ms)[j]).parent_dp_hash,
                    sealed_rows(ms)[j].tx_hash,
                ),
        forall|j: int|
            0 <= j < sealed_rows(ms).len() ==> (#[trigger] sealed_rows(ms)[j]).transaction_status
                == TransactionStatusDb::DataProposalCreated,
        forall|m: int|
            0 <= m < ms.len() ==> has_key::<TransactionRow>(
                sealed_rows(ms),
                ((#[trigger] ms[m]).id.1, ms[m].id.0),
            ),
{
    let mapped = ms.map_values(|m: TransactionMetadataView| sealed_row(m));
    let empty = Seq::<TransactionRowView>::empty();
    lemma_put_all_keys_arrived::<TransactionRow>(empty, mapped, ConflictPolicy::Ignore);
    lemma_put_all_keeps_keys::<TransactionRow>(empty, mapped, ConflictPolicy::Ignore);
    lemma_put_all_statuses(empty, mapped);
    let rows = sealed_rows(ms);
    assert forall|j: int| 0 <= j < rows.len() implies exists|m: int|
        0 <= m < ms.len() && (#[trigger] ms[m]).id == (
            (#[trigger] rows[j]).parent_dp_hash,
            rows[j].tx_hash,
        ) by {
        assert(has_key::<TransactionRow>(mapped, TransactionRow::key(rows[j])));
        let m = choose|m: int|
            0 <= m < mapped.len() && TransactionRow::key(#[trigger] mapped[m])
                == TransactionRow::key(rows[j]);
        assert(mapped[m] == sealed_row(ms[m]));
        assert(ms[m].id == (rows[j].parent_dp_hash, rows[j].tx_hash));
    }
    assert forall|m: int| 0 <= m < ms.len() implies has_key::<TransactionRow>(
        rows,
        ((#[trigger] ms[m]).id.1, ms[m].id.0),
    ) by {
        assert(mapped[m] == sealed_row(ms[m]));
        assert(has_key::<TransactionRow>(rows, TransactionRow::key(mapped[m])));
    }
}

/// Rows that arrive where stored rows are left alone keep the status that
/// they arrive with.
proof fn lemma_put_all_statuses(t: Seq<TransactionRowView>, rows: Seq<TransactionRowView>)
    requires
        forall|i: int|
            0 <= i < t.len() ==> (#[trigger] t[i]).transaction_status
                == TransactionStatusDb::DataProposalCreated,
        forall|j: int|
            0 <= j < rows.len() ==> (#[trigger] rows[j]).transaction_status
                == TransactionStatusDb::DataProposalCreated,
    ensures
        forall|i: int|
            0 <= i < put_all::<TransactionRow>(t, rows, ConflictPolicy::Ignore).len() ==> (
            #[trigger] put_all::<TransactionRow>(
                t,
                rows,
                ConflictPolicy::Ignore,
            )[i]).transaction_status == TransactionStatusDb::DataProposalCreated,
    decreases rows.len(),
{
    if rows.len() > 0 {
        let head = rows.drop_last();
        assert forall|j: int| 0 <= j < head.len() implies (#[trigger] head[j]).transaction_status
            == TransactionStatusDb::DataProposalCreated by {
            assert(head[j] == rows[j]);
        }
        lemma_put_all_statuses(t, head);
        let mid = put_all::<TransactionRow>(t, head, ConflictPolicy::Ignore);
        lemma_put::<TransactionRow>(mid, rows.last(), ConflictPolicy::Ignore);
        assert(rows[rows.len() - 1].transaction_status == TransactionStatusDb::DataProposalCreated);
    }
}

/// A stored row that waits, in a table that holds no key twice, after rows
/// of sealed transactions have arrived: it is sealed if its key arrived, and
/// as it was if not.
proof fn lemma_sealing(t: Seq<TransactionRowView>, rows: Seq<TransactionRowView>, i: int)
    requires
        unique_keys::<TransactionRow>(t),
        0 <= i < t.len(),
        t[i].transaction_status == TransactionStatusDb::WaitingDissemination,
        forall|j: int|
            0 <= j < rows.len() ==> (#[trigger] rows[j]).transaction_status
                == TransactionStatusDb::DataProposalCreated,
    ensures
        put_all::<TransactionRow>(t, rows, ConflictPolicy::AdvanceFromWaiting).len() >= t.len(),
        put_all::<TransactionRow>(t, rows, ConflictPolicy::AdvanceFromWaiting)[i] == (
        if has_key::<TransactionRow>(rows, TransactionRow::key(t[i])) {
            TransactionRowView {
                transaction_status: TransactionStatusDb::DataProposalCreated,
                ..t[i]
            }
        } else {
            t[i]
        }),
    decreases rows.len(),
{
    let policy = ConflictPolicy::AdvanceFromWaiting;
    let k = TransactionRow::key(t[i]);
    if rows.len() == 0 {
        assert(!has_key::<TransactionRow>(rows, k));
    } else {
        let head = rows.drop_last();
        assert forall|j: int| 0 <= j < head.len() implies (#[trigger] head[j]).transaction_status
            == TransactionStatusDb::DataProposalCreated by {
            assert(head[j] == rows[j]);
        }
        lemma_sealing(t, head, i);
        let mid = put_all::<TransactionRow>(t, head, policy);
        lemma_put_all_unique::<TransactionRow>(t, head, policy);
        lemma_put_all_keeps_keys::<TransactionRow>(t, head, policy);
        assert(TransactionRow::key(mid[i]) == k);
        let last = rows.last();
        assert(rows[rows.len() - 1] == last);
        lemma_put::<TransactionRow>(mid, last, policy);
        let after = put_all::<TransactionRow>(t, rows, policy);
        if has_key::<TransactionRow>(head, k) {
            let j = choose|j: int|
                0 <= j < head.len() && TransactionRow::key(#[trigger] head[j]) == k;
            assert(rows[j] == head[j]);
            assert(has_key::<TransactionRow>(rows, k));
        }
        if TransactionRow::key(last) == k {
            assert(has_key::<TransactionRow>(rows, k));
            assert(has_key::<TransactionRow>(mid, k));
            let f = first_match::<TransactionRow>(mid, k).unwrap();
            if f != i {
                if f < i {
                    assert(TransactionRow::key(mid[f]) != TransactionRow::key(mid[i]));
                } else {
                    assert(TransactionRow::key(mid[i]) != TransactionRow::key(mid[f]));
                }
            }
            assert(after[i] == TransactionRow::merged(mid[i], last, policy));
        } else {
            if has_key::<TransactionRow>(mid, TransactionRow::key(last)) {
                let f = first_match::<TransactionRow>(
                    mid,
                    TransactionRow::key(last),
                ).unwrap();
                assert(f != i);
            }
            assert(after[i] == mid[i]);
            if has_key::<TransactionRow>(rows, k) {
                let j = choose|j: int|
                    0 <= j < rows.len() && TransactionRow::key(#[trigger] rows[j]) == k;
                assert(j < head.len());
                assert(head[j] == rows[j]);
                assert(has_key::<TransactionRow>(head, k));
            }
        }
    }
}

/// A transaction that the new data proposal took in advances. A
/// stored transaction that waits for dissemination, and that the mempool
/// reports as sealed under its own identity, has the status
/// `DataProposalCreated` once the opening statements of the event have run;
/// it keeps its identity, the data proposal that it is counted under
/// included, and every other column.
pub proof fn lemma_sealed_transaction_advances(
    t: TablesView,
    parent_data_proposal_hash: Seq<char>,
    data_proposal_hash: Seq<char>,
    txs_metadatas: Seq<TransactionMetadataView>,
    i: int,
    m: int,
)
    requires
        unique_keys::<TransactionRow>(t.transactions),
        0 <= i < t.transactions.len(),
        t.transactions[i].transaction_status == TransactionStatusDb::WaitingDissemination,
        0 <= m < txs_metadatas.len(),
        txs_metadatas[m].id == (t.transactions[i].parent_dp_hash, t.transactions[i].tx_hash),
        opened(
            t,
            MempoolStatusEventView::DataProposalCreated {
                parent_data_proposal_hash,
                data_proposal_hash,
                txs_metadatas,
            },
        ) is Ok,
    ensures
        opened(
            t,
            MempoolStatusEventView::DataProposalCreated {
                parent_data_proposal_hash,
                data_proposal_hash,
                txs_metadatas,
            },
        ).unwrap().tables.transactions[i] == (TransactionRowView {
            transaction_status: TransactionStatusDb::DataProposalCreated,
            ..t.transactions[i]
        }),
{
    let rows = sealed_rows(txs_metadatas);
    lemma_sealed_keys(txs_metadatas);
    lemma_sealing(t.transactions, rows, i);
    assert(has_key::<TransactionRow>(rows, (txs_metadatas[m].id.1, txs_metadatas[m].id.0)));
    let mid = put_all::<TransactionRow>(t.transactions, rows, ConflictPolicy::AdvanceFromWaiting);
    let after = reparented_transactions(mid, parent_data_proposal_hash, data_proposal_hash);
    assert(after[i] == reparented_transaction(
        mid[i],
        parent_data_proposal_hash,
        data_proposal_hash,
    ));
}

/// A transaction that the new data proposal passed over moves to it.
/// A stored transaction that waits for dissemination under the parent of a
/// new data proposal, and is not among those that the proposal sealed, is
/// counted under the new proposal once the event has run, and still waits.
/// The backend hands its hash back, and with it the blobs of the
/// transaction follow, those that are stored and those that are still in
/// the buffer: none keeps the superseded data proposal.
pub proof fn lemma_passed_over_transaction_is_reparented(
    t: TablesView,
    s: StoreView,
    parent_data_proposal_hash: Seq<char>,
    data_proposal_hash: Seq<char>,
    txs_metadatas: Seq<TransactionMetadataView>,
    i: int,
)
    requires
        0 <= i < t.transactions.len(),
        waits_under(t.transactions[i], parent_data_proposal_hash),
        forall|m: int|
            0 <= m < txs_metadatas.len() ==> (#[trigger] txs_metadatas[m]).id != (
                parent_data_proposal_hash,
                t.transactions[i].tx_hash,
            ),
        opened(
            t,
            MempoolStatusEventView::DataProposalCreated {
                parent_data_proposal_hash,
                data_proposal_hash,
                txs_metadatas,
            },
        ) is Ok,
        opened(
            t,
            MempoolStatusEventView::DataProposalCreated {
                parent_data_proposal_hash,
                data_proposal_hash,
                txs_metadatas,
            },
        ).unwrap().tables.run(
            closing(
                MempoolStatusEventView::DataProposalCreated {
                    parent_data_proposal_hash,
                    data_proposal_hash,
                    txs_metadatas,
                },
                opened(
                    t,
                    MempoolStatusEventView::DataProposalCreated {
                        parent_data_proposal_hash,
                        data_proposal_hash,
                        txs_metadatas,
                    },
                ).unwrap().returned,
            ),
        ) is Ok,
    ensures
        ({
            let event = MempoolStatusEventView::DataProposalCreated {
                parent_data_proposal_hash,
                data_proposal_hash,
                txs_metadatas,
            };
            let effect = opened(t, event).unwrap();
            let done = effect.tables.run(closing(event, effect.returned)).unwrap();
            let tx_hash = t.transactions[i].tx_hash;
            &&& effect.returned.contains(tx_hash)
            &&& done.transactions.len() >= t.transactions.len()
            &&& done.transactions[i] == TransactionRowView {
                parent_dp_hash: data_proposal_hash,
                ..t.transactions[i]
            }
            &&& done.blobs.len() == t.blobs.len()
            &&& forall|b: int|
                0 <= b < t.blobs.len() && (#[trigger] t.blobs[b]).tx_hash == tx_hash
                    && t.blobs[b].parent_data_proposal_hash == parent_data_proposal_hash
                    ==> done.blobs[b] == TxDataStoreView {
                    parent_data_proposal_hash: data_proposal_hash,
                    ..t.blobs[b]
                }
            &&& closed(s, event, effect.returned).tx_data.len() == s.tx_data.len()
            &&& forall|b: int|
                0 <= b < s.tx_data.len() && (#[trigger] s.tx_data[b]).tx_hash == tx_hash
                    && s.tx_data[b].parent_data_proposal_hash == parent_data_proposal_hash ==> closed(
                    s,
                    event,
                    effect.returned,
                ).tx_data[b] == TxDataStoreView {
                    parent_data_proposal_hash: data_proposal_hash,
                    ..s.tx_data[b]
                }
        }),
{
    let from = parent_data_proposal_hash;
    let to = data_proposal_hash;
    let event = MempoolStatusEventView::DataProposalCreated {
        parent_data_proposal_hash,
        data_proposal_hash,
        txs_metadatas,
    };
    let rows = sealed_rows(txs_metadatas);
    let row = t.transactions[i];
    lemma_sealed_keys(txs_metadatas);
    assert forall|j: int| 0 <= j < rows.len() implies TransactionRow::key(#[trigger] rows[j])
        != TransactionRow::key(row) by {
        let m = choose|m: int|
            0 <= m < txs_metadatas.len() && (#[trigger] txs_metadatas[m]).id == (
                (#[trigger] rows[j]).parent_dp_hash,
                rows[j].tx_hash,
            );
        assert(txs_metadatas[m].id != (from, row.tx_hash));
    }
    lemma_put_all_untouched::<TransactionRow>(
        t.transactions,
        rows,
        ConflictPolicy::AdvanceFromWaiting,
        i,
    );
    let mid = put_all::<TransactionRow>(t.transactions, rows, ConflictPolicy::AdvanceFromWaiting);
    assert(mid[i] == row);
    let effect = opened(t, event).unwrap();
    assert(effect.tables.transactions[i] == reparented_transaction(mid[i], from, to));
    lemma_waiting_under(mid, from);
    assert(waits_under(mid[i], from));
    assert(effect.returned.contains(row.tx_hash));
    let reparent = StatementView::ReparentBlobs { from, to, tx_hashes: effect.returned };
    assert(effect.returned.len() > 0);
    lemma_run_when_any(effect.tables, effect.returned.len(), reparent);
    let done = effect.tables.run(closing(event, effect.returned)).unwrap();
    assert(done.blobs == reparented_blobs(t.blobs, from, to, effect.returned));
    assert forall|b: int|
        0 <= b < t.blobs.len() && (#[trigger] t.blobs[b]).tx_hash == row.tx_hash
            && t.blobs[b].parent_data_proposal_hash == from implies done.blobs[b]
        == (TxDataStoreView { parent_data_proposal_hash: to, ..t.blobs[b] }) by {
        assert(done.blobs[b] == reparented_blob(t.blobs[b], from, to, effect.returned));
    }
    let buffered = closed(s, event, effect.returned).tx_data;
    assert(buffered == reparented_blobs(s.tx_data, from, to, effect.returned));
    assert forall|b: int|
        0 <= b < s.tx_data.len() && (#[trigger] s.tx_data[b]).tx_hash == row.tx_hash
            && s.tx_data[b].parent_data_proposal_hash == from implies buffered[b]
        == (TxDataStoreView { parent_data_proposal_hash: to, ..s.tx_data[b] }) by {
        assert(buffered[b] == reparented_blob(s.tx_data[b], from, to, effect.returned));
    }
}

} // verus!
