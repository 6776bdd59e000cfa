use crate::keyed::{ConflictPolicy, Row};
use crate::rows::{
    BlockRow, BlockRowView, TransactionRow, TransactionRowView, TxBlobProofOutputStore,
    TxBlobProofOutputStoreView, TxContractRef, TxContractRefView, TxContractStateStore,
    TxContractStateStoreView, TxContractStore, TxContractStoreView, TxDataStore, TxDataStoreView,
    TxEventStore, TxEventStoreView, TxProofStore, TxProofStoreView,
};
use crate::seqs::{bytes_opt, clone_bytes, clone_bytes_opt, clone_text_opt, text_opt, views};
use crate::statement::{DeferredUpdate, DeferredUpdateView, Statement, StatementView};
use vstd::prelude::*;

verus! {

/// An insert into `blocks`, up to its rows.
pub const INSERT_BLOCKS: &'static str =
    "INSERT INTO blocks (hash, parent_hash, height, timestamp, total_txs) ";

/// An insert into `transactions`, up to its rows.
pub const INSERT_TRANSACTIONS: &'static str =
    "INSERT INTO transactions (tx_hash, parent_dp_hash, version, transaction_type, transaction_status, block_hash, block_height, index, lane_id, identity) ";

/// An insert into `blobs`, up to its rows.
pub const INSERT_BLOBS: &'static str =
    "INSERT INTO blobs (tx_hash, parent_dp_hash, blob_index, identity, contract_name, data, verified) ";

/// An insert into `txs_contracts`, up to its rows.
pub const INSERT_TXS_CONTRACTS: &'static str =
    "INSERT INTO txs_contracts (tx_hash, parent_dp_hash, contract_name) ";

/// An insert into `proofs`, up to its rows.
pub const INSERT_PROOFS: &'static str = "INSERT INTO proofs (parent_dp_hash, tx_hash, proof) ";

/// An insert into `transaction_state_events`, up to its rows.
pub const INSERT_EVENTS: &'static str =
    "INSERT INTO transaction_state_events (block_hash, block_height, index, tx_hash, parent_dp_hash, events) ";

/// An insert into `contracts`, up to its rows.
pub const INSERT_CONTRACTS: &'static str =
    "INSERT INTO contracts (tx_hash, parent_dp_hash, verifier, program_id, state_commitment, contract_name) ";

/// An insert into `contract_state`, up to its rows.
pub const INSERT_CONTRACT_STATES: &'static str =
    "INSERT INTO contract_state (contract_name, block_hash, state_commitment) ";

/// An insert into `blob_proof_outputs`, up to its rows.
pub const INSERT_BLOB_PROOF_OUTPUTS: &'static str =
    "INSERT INTO blob_proof_outputs (proof_tx_hash, proof_parent_dp_hash, blob_tx_hash, blob_parent_dp_hash, blob_index, blob_proof_output_index, contract_name, hyle_output, settled) ";

/// A stored row with the same key is left alone.
pub const DO_NOTHING: &'static str = " ON CONFLICT DO NOTHING";

/// A stored block with the same hash is left alone.
pub const BLOCK_STAYS: &'static str = " ON CONFLICT(hash) DO NOTHING";

/// A stored proof of the same transaction is left alone.
pub const PROOF_STAYS: &'static str = " ON CONFLICT(parent_dp_hash, tx_hash) DO NOTHING";

/// A stored transaction with the same identity is left alone.
pub const TRANSACTION_STAYS: &'static str = " ON CONFLICT(tx_hash, parent_dp_hash) DO NOTHING";

/// A stored transaction takes the block columns of the arriving row, and its
/// status where its own is still pending.
pub const TRANSACTION_ADVANCES_FROM_PENDING: &'static str =
    " ON CONFLICT(tx_hash, parent_dp_hash) DO UPDATE SET block_hash=EXCLUDED.block_hash, block_height=EXCLUDED.block_height, index=EXCLUDED.index, lane_id=EXCLUDED.lane_id, identity=EXCLUDED.identity, transaction_status = case when transactions.transaction_status IS NULL THEN EXCLUDED.transaction_status when transactions.transaction_status = 'waiting_dissemination' THEN EXCLUDED.transaction_status when transactions.transaction_status = 'data_proposal_created' THEN EXCLUDED.transaction_status else transactions.transaction_status end";

/// A stored transaction takes the status of the arriving row where its own
/// is `waiting_dissemination`.
pub const TRANSACTION_ADVANCES_FROM_WAITING: &'static str =
    " ON CONFLICT(tx_hash, parent_dp_hash) DO UPDATE SET transaction_status=EXCLUDED.transaction_status WHERE transactions.transaction_status='waiting_dissemination'";

/// A stored transaction takes every column of the arriving row.
pub const TRANSACTION_IS_OVERWRITTEN: &'static str =
    " ON CONFLICT(tx_hash, parent_dp_hash) DO UPDATE SET version=EXCLUDED.version, transaction_type=EXCLUDED.transaction_type, transaction_status=EXCLUDED.transaction_status, block_hash=EXCLUDED.block_hash, block_height=EXCLUDED.block_height, index=EXCLUDED.index, lane_id=EXCLUDED.lane_id, identity=EXCLUDED.identity";

/// A stored contract takes every column of the arriving row.
pub const CONTRACT_IS_OVERWRITTEN: &'static str =
    " ON CONFLICT (contract_name) DO UPDATE SET tx_hash = EXCLUDED.tx_hash, parent_dp_hash = EXCLUDED.parent_dp_hash, verifier = EXCLUDED.verifier, program_id = EXCLUDED.program_id, state_commitment = EXCLUDED.state_commitment ";

/// A deletion from `contracts`, up to the name.
pub const DELETE_CONTRACT: &'static str = "DELETE FROM contracts WHERE contract_name = ";

/// A settlement, up to the status.
pub const SET_TRANSACTION_STATUS: &'static str = "UPDATE transactions SET transaction_status = ";

/// A confirmation of a blob, up to the hash of its transaction.
pub const SET_BLOB_VERIFIED: &'static str = "UPDATE blobs SET verified = true WHERE tx_hash = ";

/// A settlement of a claim, up to the hash of the blob transaction.
pub const SET_PROOF_OUTPUT_SETTLED: &'static str =
    "UPDATE blob_proof_outputs SET settled = true WHERE blob_tx_hash = ";

/// A rewrite of a snapshot, up to the state.
pub const SET_CONTRACT_STATE_AT_BLOCK: &'static str = "UPDATE contract_state SET state_commitment = ";

/// A rewrite of a registered state, up to the state.
pub const SET_CONTRACT_STATE: &'static str = "UPDATE contracts SET state_commitment = ";

/// A reparenting of transactions, up to the new data proposal.
pub const SET_TRANSACTION_PARENT: &'static str = "UPDATE transactions SET parent_dp_hash = ";

/// A reparenting of blobs, up to the new data proposal.
pub const SET_BLOB_PARENT: &'static str = "UPDATE blobs SET parent_dp_hash = ";

/// The rows of a transaction hash.
pub const WHERE_TX_HASH: &'static str = " WHERE tx_hash = ";

/// The rows of a data proposal.
pub const WHERE_PARENT: &'static str = " WHERE parent_dp_hash = ";

/// The rows of a contract.
pub const WHERE_CONTRACT: &'static str = " WHERE contract_name = ";

/// Of these, the rows of a data proposal.
pub const AND_PARENT: &'static str = " AND parent_dp_hash = ";

/// Of these, the claims for a blob transaction of a data proposal.
pub const AND_BLOB_PARENT: &'static str = " AND blob_parent_dp_hash = ";

/// Of these, the rows of a blob.
pub const AND_BLOB_INDEX: &'static str = " AND blob_index = ";

/// Of these, the claims of a proof output.
pub const AND_OUTPUT_INDEX: &'static str = " AND blob_proof_output_index = ";

/// Of these, the rows of a block.
pub const AND_BLOCK: &'static str = " AND block_hash = ";

/// Of these, the rows of the transactions in a list.
pub const AND_TX_HASH_IN: &'static str = " AND tx_hash in ";

/// Of these, the transactions that wait for dissemination; their hashes are
/// handed back.
pub const AND_WAITING_RETURNING: &'static str =
    " AND transaction_status = 'waiting_dissemination' RETURNING tx_hash";

/// The cast of a bound text to the type of the status column.
pub const AS_STATUS: &'static str = "::transaction_status";

/// The cast of a bound text to the type of the kind column.
pub const AS_TYPE: &'static str = "::transaction_type";

/// The cast of a bound text to a structured payload.
pub const AS_JSON: &'static str = "::jsonb";

/// No cast.
pub const AS_IS: &'static str = "";

/// A value for a placeholder of a statement.
#[derive(Debug, PartialEq, Eq)]
pub enum Value {
    Text(String),
    OptText(Option<String>),
    Int(i32),
    OptInt(Option<i32>),
    BigInt(i64),
    OptBigInt(Option<i64>),
    Bool(bool),
    Bytes(Vec<u8>),
    /// A lane, which the tables hold as text.
    Lane(Option<Vec<u8>>),
    /// A date and time in UTC.
    Time(chrono::NaiveDateTime),
}

/// What a `Value` holds, as the contracts read it.
pub enum ValueView {
    Text(Seq<char>),
    OptText(Option<Seq<char>>),
    Int(i32),
    OptInt(Option<i32>),
    BigInt(i64),
    OptBigInt(Option<i64>),
    Bool(bool),
    Bytes(Seq<u8>),
    Lane(Option<Seq<u8>>),
    Time(chrono::NaiveDateTime),
}

impl View for Value {
    type V = ValueView;

    open spec fn view(&self) -> ValueView {
        match self {
            Value::Text(s) => ValueView::Text(s@),
            Value::OptText(s) => ValueView::OptText(text_opt(*s)),
            Value::Int(n) => ValueView::Int(*n),
            Value::OptInt(n) => ValueView::OptInt(*n),
            Value::BigInt(n) => ValueView::BigInt(*n),
            Value::OptBigInt(n) => ValueView::OptBigInt(*n),
            Value::Bool(b) => ValueView::Bool(*b),
            Value::Bytes(b) => ValueView::Bytes(b@),
            Value::Lane(l) => ValueView::Lane(bytes_opt(*l)),
            Value::Time(at) => ValueView::Time(*at),
        }
    }
}

/// A placeholder of a statement: the value bound to it, and the cast that
/// follows it in the text.
#[derive(Debug, PartialEq, Eq)]
pub struct Bind {
    pub value: Value,
    pub cast: &'static str,
}

/// What a `Bind` holds, as the contracts read it.
pub struct BindView {
    pub value: ValueView,
    pub cast: Seq<char>,
}

impl View for Bind {
    type V = BindView;

    open spec fn view(&self) -> BindView {
        BindView { value: self.value@, cast: self.cast@ }
    }
}

/// The views of rows of placeholders.
pub open spec fn bind_rows(rows: Seq<Vec<Bind>>) -> Seq<Seq<BindView>> {
    rows.map_values(|row: Vec<Bind>| views(row@))
}

/// A piece of a statement, for a builder of queries to put together: the
/// builder numbers the placeholders and separates rows and values.
#[derive(Debug, PartialEq, Eq)]
pub enum Piece {
    /// Text, as it stands.
    Text(&'static str),
    /// One placeholder.
    Bind(Bind),
    /// Rows of values, after the word `VALUES`.
    Values(Vec<Vec<Bind>>),
    /// Rows of values, as a list in brackets.
    Tuples(Vec<Vec<Bind>>),
}

/// What a `Piece` holds, as the contracts read it.
pub enum PieceView {
    Text(Seq<char>),
    Bind(BindView),
    Values(Seq<Seq<BindView>>),
    Tuples(Seq<Seq<BindView>>),
}

impl View for Piece {
    type V = PieceView;

    open spec fn view(&self) -> PieceView {
        match self {
            Piece::Text(t) => PieceView::Text(t@),
            Piece::Bind(b) => PieceView::Bind(b@),
            Piece::Values(rows) => PieceView::Values(bind_rows(rows@)),
            Piece::Tuples(rows) => PieceView::Tuples(bind_rows(rows@)),
        }
    }
}

/// A placeholder for a text.
pub open spec fn text_of(s: Seq<char>) -> BindView {
    BindView { value: ValueView::Text(s), cast: AS_IS@ }
}

/// A placeholder for a text that may be missing.
pub open spec fn opt_text_of(s: Option<Seq<char>>) -> BindView {
    BindView { value: ValueView::OptText(s), cast: AS_IS@ }
}

/// A placeholder for a 32-bit number.
pub open spec fn int_of(n: i32) -> BindView {
    BindView { value: ValueView::Int(n), cast: AS_IS@ }
}

/// A placeholder for a 64-bit number.
pub open spec fn big_int_of(n: i64) -> BindView {
    BindView { value: ValueView::BigInt(n), cast: AS_IS@ }
}

/// A placeholder for a flag.
pub open spec fn bool_of(b: bool) -> BindView {
    BindView { value: ValueView::Bool(b), cast: AS_IS@ }
}

/// A placeholder for bytes.
pub open spec fn bytes_of(b: Seq<u8>) -> BindView {
    BindView { value: ValueView::Bytes(b), cast: AS_IS@ }
}

/// A placeholder for a text that is cast to the type of its column.
pub open spec fn cast_of(s: Seq<char>, cast: Seq<char>) -> BindView {
    BindView { value: ValueView::Text(s), cast }
}

fn text(s: &String) -> (r: Bind)
    ensures
        r@ == text_of(s@),
{
    Bind { value: Value::Text(s.clone()), cast: AS_IS }
}

fn opt_text(s: &Option<String>) -> (r: Bind)
    ensures
        r@ == opt_text_of(text_opt(*s)),
{
    Bind { value: Value::OptText(clone_text_opt(s)), cast: AS_IS }
}

fn small_int(n: i32) -> (r: Bind)
    ensures
        r@ == int_of(n),
{
    Bind { value: Value::Int(n), cast: AS_IS }
}

fn big_int(n: i64) -> (r: Bind)
    ensures
        r@ == big_int_of(n),
{
    Bind { value: Value::BigInt(n), cast: AS_IS }
}

fn boolean(b: bool) -> (r: Bind)
    ensures
        r@ == bool_of(b),
{
    Bind { value: Value::Bool(b), cast: AS_IS }
}

fn bytes(b: &Vec<u8>) -> (r: Bind)
    ensures
        r@ == bytes_of(b@),
{
    Bind { value: Value::Bytes(clone_bytes(b)), cast: AS_IS }
}

fn with_cast(s: &str, as_type: &'static str) -> (r: Bind)
    ensures
        r@ == cast_of(s@, as_type@),
{
    Bind { value: Value::Text(s.to_owned()), cast: as_type }
}

/// A row that is written with a list of placeholders, one for each column
/// in the order of the statement.
pub trait Bound: Row {
    /// The placeholders of a row.
    spec fn binds(v: Self::V) -> Seq<BindView>;

    /// The placeholders of the row.
    fn to_binds(&self) -> (r: Vec<Bind>)
        ensures
            views(r@) == Self::binds(self@),
    ;
}

impl Bound for BlockRow {
    open spec fn binds(v: BlockRowView) -> Seq<BindView> {
        seq![
            text_of(v.hash),
            text_of(v.parent_hash),
            big_int_of(v.height),
            BindView { value: ValueView::Time(v.timestamp), cast: AS_IS@ },
            big_int_of(v.total_txs),
        ]
    }

    fn to_binds(&self) -> (r: Vec<Bind>) {
        let r = vec![
            text(&self.hash),
            text(&self.parent_hash),
            big_int(self.height),
            Bind { value: Value::Time(self.timestamp), cast: AS_IS },
            big_int(self.total_txs),
        ];
        assert(views(r@) =~= Self::binds(self@));
        r
    }
}

impl Bound for TransactionRow {
    open spec fn binds(v: TransactionRowView) -> Seq<BindView> {
        seq![
            text_of(v.tx_hash),
            text_of(v.parent_dp_hash),
            int_of(v.version),
            cast_of(v.transaction_type.name(), AS_TYPE@),
            cast_of(v.transaction_status.name(), AS_STATUS@),
            opt_text_of(v.block_hash),
            BindView { value: ValueView::OptBigInt(v.block_height), cast: AS_IS@ },
            BindView { value: ValueView::OptInt(v.index), cast: AS_IS@ },
            BindView { value: ValueView::Lane(v.lane_id), cast: AS_IS@ },
            opt_text_of(v.identity),
        ]
    }

    fn to_binds(&self) -> (r: Vec<Bind>) {
        let r = vec![
            text(&self.tx_hash),
            text(&self.parent_dp_hash),
            small_int(self.version),
            with_cast(self.transaction_type.db_name(), AS_TYPE),
            with_cast(self.transaction_status.db_name(), AS_STATUS),
            opt_text(&self.block_hash),
            Bind { value: Value::OptBigInt(self.block_height), cast: AS_IS },
            Bind { value: Value::OptInt(self.index), cast: AS_IS },
            Bind { value: Value::Lane(clone_bytes_opt(&self.lane_id)), cast: AS_IS },
            opt_text(&self.identity),
        ];
        assert(views(r@) =~= Self::binds(self@));
        r
    }
}

impl Bound for TxDataStore {
    open spec fn binds(v: TxDataStoreView) -> Seq<BindView> {
        seq![
            text_of(v.tx_hash),
            text_of(v.parent_data_proposal_hash),
            int_of(v.blob_index),
            text_of(v.identity),
            text_of(v.contract_name),
            bytes_of(v.blob_data),
            bool_of(v.verified),
        ]
    }

    fn to_binds(&self) -> (r: Vec<Bind>) {
        let r = vec![
            text(&self.tx_hash),
            text(&self.parent_data_proposal_hash),
            small_int(self.blob_index),
            text(&self.identity),
            text(&self.contract_name),
            bytes(&self.blob_data),
            boolean(self.verified),
        ];
        assert(views(r@) =~= Self::binds(self@));
        r
    }
}

impl Bound for TxContractRef {
    open spec fn binds(v: TxContractRefView) -> Seq<BindView> {
        seq![text_of(v.tx_hash), text_of(v.parent_data_proposal_hash), text_of(v.contract_name)]
    }

    fn to_binds(&self) -> (r: Vec<Bind>) {
        let r = vec![
            text(&self.tx_hash),
            text(&self.parent_data_proposal_hash),
            text(&self.contract_name),
        ];
        assert(views(r@) =~= Self::binds(self@));
        r
    }
}

impl Bound for TxProofStore {
    open spec fn binds(v: TxProofStoreView) -> Seq<BindView> {
        seq![text_of(v.parent_data_proposal_hash), text_of(v.tx_hash), bytes_of(v.proof)]
    }

    fn to_binds(&self) -> (r: Vec<Bind>) {
        let r = vec![
            text(&self.parent_data_proposal_hash),
            text(&self.tx_hash),
            bytes(&self.proof),
        ];
        assert(views(r@) =~= Self::binds(self@));
        r
    }
}

impl Bound for TxEventStore {
    open spec fn binds(v: TxEventStoreView) -> Seq<BindView> {
        seq![
            text_of(v.block_hash),
            big_int_of(v.block_height),
            int_of(v.index),
            text_of(v.tx_hash),
            text_of(v.parent_data_proposal_hash),
            cast_of(v.events, AS_JSON@),
        ]
    }

    fn to_binds(&self) -> (r: Vec<Bind>) {
        let r = vec![
            text(&self.block_hash),
            big_int(self.block_height),
            small_int(self.index),
            text(&self.tx_hash),
            text(&self.parent_data_proposal_hash),
            with_cast(self.events.as_str(), AS_JSON),
        ];
        assert(views(r@) =~= Self::binds(self@));
        r
    }
}

impl Bound for TxContractStore {
    open spec fn binds(v: TxContractStoreView) -> Seq<BindView> {
        seq![
            text_of(v.tx_hash),
            text_of(v.parent_data_proposal_hash),
            text_of(v.verifier),
            bytes_of(v.program_id),
            bytes_of(v.state_commitment),
            text_of(v.contract_name),
        ]
    }

    fn to_binds(&self) -> (r: Vec<Bind>) {
        let r = vec![
            text(&self.tx_hash),
            text(&self.parent_data_proposal_hash),
            text(&self.verifier),
            bytes(&self.program_id),
            bytes(&self.state_commitment),
            text(&self.contract_name),
        ];
        assert(views(r@) =~= Self::binds(self@));
        r
    }
}

impl Bound for TxContractStateStore {
    open spec fn binds(v: TxContractStateStoreView) -> Seq<BindView> {
        seq![text_of(v.contract_name), text_of(v.block_hash), bytes_of(v.state_commitment)]
    }

    fn to_binds(&self) -> (r: Vec<Bind>) {
        let r = vec![
            text(&self.contract_name),
            text(&self.block_hash),
            bytes(&self.state_commitment),
        ];
        assert(views(r@) =~= Self::binds(self@));
        r
    }
}

impl Bound for TxBlobProofOutputStore {
    open spec fn binds(v: TxBlobProofOutputStoreView) -> Seq<BindView> {
        seq![
            text_of(v.proof_tx_hash),
            text_of(v.proof_parent_dp_hash),
            text_of(v.blob_tx_hash),
            text_of(v.blob_parent_dp_hash),
            int_of(v.blob_index),
            int_of(v.blob_proof_output_index),
            text_of(v.contract_name),
            cast_of(v.hyle_output, AS_JSON@),
            bool_of(v.settled),
        ]
    }

    fn to_binds(&self) -> (r: Vec<Bind>) {
        let r = vec![
            text(&self.proof_tx_hash),
            text(&self.proof_parent_dp_hash),
            text(&self.blob_tx_hash),
            text(&self.blob_parent_dp_hash),
            small_int(self.blob_index),
            small_int(self.blob_proof_output_index),
            text(&self.contract_name),
            with_cast(self.hyle_output.as_str(), AS_JSON),
            boolean(self.settled),
        ];
        assert(views(r@) =~= Self::binds(self@));
        r
    }
}

/// A name in a list of names.
impl Bound for String {
    open spec fn binds(v: Seq<char>) -> Seq<BindView> {
        seq![text_of(v)]
    }

    fn to_binds(&self) -> (r: Vec<Bind>) {
        let r = vec![text(self)];
        assert(views(r@) =~= Self::binds(self@));
        r
    }
}

/// The placeholders of rows, row by row.
pub open spec fn all_binds<R: Bound>(rows: Seq<R::V>) -> Seq<Seq<BindView>> {
    rows.map_values(|v: R::V| R::binds(v))
}

/// The placeholders of the rows, row by row.
pub fn to_all_binds<R: Bound>(rows: &Vec<R>) -> (r: Vec<Vec<Bind>>)
    ensures
        bind_rows(r@) == all_binds::<R>(views(rows@)),
{
    let mut r: Vec<Vec<Bind>> = Vec::new();
    let mut i: usize = 0;
    while i < rows.len()
        invariant
            0 <= i <= rows.len(),
            bind_rows(r@) == all_binds::<R>(views(rows@).take(i as int)),
        decreases rows.len() - i,
    {
        let ghost before = bind_rows(r@);
        r.push(rows[i].to_binds());
        proof {
            assert(bind_rows(r@) =~= before.push(R::binds(rows@[i as int]@)));
            assert(bind_rows(r@) =~= all_binds::<R>(views(rows@).take(i + 1)));
        }
        i = i + 1;
    }
    assert(views(rows@).take(rows.len() as int) =~= views(rows@));
    r
}

/// The text that follows the rows of an insert into `transactions`.
pub open spec fn on_conflict_text(policy: ConflictPolicy) -> Seq<char> {
    match policy {
        ConflictPolicy::Ignore => TRANSACTION_STAYS@,
        ConflictPolicy::Overwrite => TRANSACTION_IS_OVERWRITTEN@,
        ConflictPolicy::AdvanceFromPending => TRANSACTION_ADVANCES_FROM_PENDING@,
        ConflictPolicy::AdvanceFromWaiting => TRANSACTION_ADVANCES_FROM_WAITING@,
    }
}

/// The text that follows the rows of an insert into `transactions`.
pub fn on_conflict(policy: ConflictPolicy) -> (r: &'static str)
    ensures
        r@ == on_conflict_text(policy),
{
    match policy {
        ConflictPolicy::Ignore => TRANSACTION_STAYS,
        ConflictPolicy::Overwrite => TRANSACTION_IS_OVERWRITTEN,
        ConflictPolicy::AdvanceFromPending => TRANSACTION_ADVANCES_FROM_PENDING,
        ConflictPolicy::AdvanceFromWaiting => TRANSACTION_ADVANCES_FROM_WAITING,
    }
}

/// An insert: the text that opens it, its rows, and the text that says what
/// happens to a stored key.
pub open spec fn insert(head: Seq<char>, rows: Seq<Seq<BindView>>, tail: Seq<char>) -> Seq<
    PieceView,
> {
    seq![PieceView::Text(head), PieceView::Values(rows), PieceView::Text(tail)]
}

/// The pieces of a queued change.
pub open spec fn update_pieces(update: DeferredUpdateView) -> Seq<PieceView> {
    match update {
        DeferredUpdateView::SetTransactionStatus { settlement, tx_hash, parent_dp_hash } => seq![
            PieceView::Text(SET_TRANSACTION_STATUS@),
            PieceView::Bind(cast_of(settlement.status().name(), AS_STATUS@)),
            PieceView::Text(WHERE_TX_HASH@),
            PieceView::Bind(text_of(tx_hash)),
            PieceView::Text(AND_PARENT@),
            PieceView::Bind(text_of(parent_dp_hash)),
        ],
        DeferredUpdateView::SetBlobVerified { tx_hash, parent_dp_hash, blob_index } => seq![
            PieceView::Text(SET_BLOB_VERIFIED@),
            PieceView::Bind(text_of(tx_hash)),
            PieceView::Text(AND_PARENT@),
            PieceView::Bind(text_of(parent_dp_hash)),
            PieceView::Text(AND_BLOB_INDEX@),
            PieceView::Bind(int_of(blob_index)),
        ],
        DeferredUpdateView::SetProofOutputSettled {
            blob_tx_hash,
            blob_parent_dp_hash,
            blob_index,
            blob_proof_output_index,
        } => seq![
            PieceView::Text(SET_PROOF_OUTPUT_SETTLED@),
            PieceView::Bind(text_of(blob_tx_hash)),
            PieceView::Text(AND_BLOB_PARENT@),
            PieceView::Bind(text_of(blob_parent_dp_hash)),
            PieceView::Text(AND_BLOB_INDEX@),
            PieceView::Bind(int_of(blob_index)),
            PieceView::Text(AND_OUTPUT_INDEX@),
            PieceView::Bind(int_of(blob_proof_output_index)),
        ],
        DeferredUpdateView::SetContractStateAtBlock {
            state_commitment,
            contract_name,
            block_hash,
        } => seq![
            PieceView::Text(SET_CONTRACT_STATE_AT_BLOCK@),
            PieceView::Bind(bytes_of(state_commitment)),
            PieceView::Text(WHERE_CONTRACT@),
            PieceView::Bind(text_of(contract_name)),
            PieceView::Text(AND_BLOCK@),
            PieceView::Bind(text_of(block_hash)),
        ],
        DeferredUpdateView::SetContractState { state_commitment, contract_name } => seq![
            PieceView::Text(SET_CONTRACT_STATE@),
            PieceView::Bind(bytes_of(state_commitment)),
            PieceView::Text(WHERE_CONTRACT@),
            PieceView::Bind(text_of(contract_name)),
        ],
    }
}

/// The pieces of a statement, in the order of its text. Each table has its
/// columns and its answer to a key that is already stored: the insert-only
/// tables leave such a row alone, `transactions` follows the policy of the
/// statement, `contracts` is overwritten, the tables without a key are
/// appended to.
pub open spec fn pieces(statement: StatementView) -> Seq<PieceView> {
    match statement {
        StatementView::InsertBlocks(rows) => insert(
            INSERT_BLOCKS@,
            all_binds::<BlockRow>(rows),
            BLOCK_STAYS@,
        ),
        StatementView::InsertTransactions { rows, on_conflict } => insert(
            INSERT_TRANSACTIONS@,
            all_binds::<TransactionRow>(rows),
            on_conflict_text(on_conflict),
        ),
        StatementView::InsertBlobs(rows) => insert(
            INSERT_BLOBS@,
            all_binds::<TxDataStore>(rows),
            DO_NOTHING@,
        ),
        StatementView::InsertTxsContracts(rows) => insert(
            INSERT_TXS_CONTRACTS@,
            all_binds::<TxContractRef>(rows),
            DO_NOTHING@,
        ),
        StatementView::InsertProofs(rows) => insert(
            INSERT_PROOFS@,
            all_binds::<TxProofStore>(rows),
            PROOF_STAYS@,
        ),
        StatementView::InsertTransactionEvents(rows) => insert(
            INSERT_EVENTS@,
            all_binds::<TxEventStore>(rows),
            AS_IS@,
        ),
        StatementView::InsertContracts(rows) => insert(
            INSERT_CONTRACTS@,
            all_binds::<TxContractStore>(rows),
            CONTRACT_IS_OVERWRITTEN@,
        ),
        StatementView::InsertContractStates(rows) => insert(
            INSERT_CONTRACT_STATES@,
            all_binds::<TxContractStateStore>(rows),
            AS_IS@,
        ),
        StatementView::DeleteContract(name) => seq![
            PieceView::Text(DELETE_CONTRACT@),
            PieceView::Bind(text_of(name)),
        ],
        StatementView::InsertBlobProofOutputs(rows) => insert(
            INSERT_BLOB_PROOF_OUTPUTS@,
            all_binds::<TxBlobProofOutputStore>(rows),
            AS_IS@,
        ),
        StatementView::Update(update) => update_pieces(update),
        StatementView::ReparentTransactions { from, to } => seq![
            PieceView::Text(SET_TRANSACTION_PARENT@),
            PieceView::Bind(text_of(to)),
            PieceView::Text(WHERE_PARENT@),
            PieceView::Bind(text_of(from)),
            PieceView::Text(AND_WAITING_RETURNING@),
        ],
        StatementView::ReparentBlobs { from, to, tx_hashes } => seq![
            PieceView::Text(SET_BLOB_PARENT@),
            PieceView::Bind(text_of(to)),
            PieceView::Text(WHERE_PARENT@),
            PieceView::Bind(text_of(from)),
            PieceView::Text(AND_TX_HASH_IN@),
            PieceView::Tuples(all_binds::<String>(tx_hashes)),
        ],
    }
}

fn to_insert<R: Bound>(head: &'static str, rows: &Vec<R>, tail: &'static str) -> (r: Vec<Piece>)
    ensures
        views(r@) == insert(head@, all_binds::<R>(views(rows@)), tail@),
{
    let r = vec![Piece::Text(head), Piece::Values(to_all_binds(rows)), Piece::Text(tail)];
    assert(views(r@) =~= insert(head@, all_binds::<R>(views(rows@)), tail@));
    r
}

fn to_update_pieces(update: &DeferredUpdate) -> (r: Vec<Piece>)
    ensures
        views(r@) == update_pieces(update@),
{
    let r = match update {
        DeferredUpdate::SetTransactionStatus { settlement, tx_hash, parent_dp_hash } => vec![
            Piece::Text(SET_TRANSACTION_STATUS),
            Piece::Bind(with_cast(settlement.to_status().db_name(), AS_STATUS)),
            Piece::Text(WHERE_TX_HASH),
            Piece::Bind(text(tx_hash)),
            Piece::Text(AND_PARENT),
            Piece::Bind(text(parent_dp_hash)),
        ],
        DeferredUpdate::SetBlobVerified { tx_hash, parent_dp_hash, blob_index } => vec![
            Piece::Text(SET_BLOB_VERIFIED),
            Piece::Bind(text(tx_hash)),
            Piece::Text(AND_PARENT),
            Piece::Bind(text(parent_dp_hash)),
            Piece::Text(AND_BLOB_INDEX),
            Piece::Bind(small_int(*blob_index)),
        ],
        DeferredUpdate::SetProofOutputSettled {
            blob_tx_hash,
            blob_parent_dp_hash,
            blob_index,
            blob_proof_output_index,
        } => vec![
            Piece::Text(SET_PROOF_OUTPUT_SETTLED),
            Piece::Bind(text(blob_tx_hash)),
            Piece::Text(AND_BLOB_PARENT),
            Piece::Bind(text(blob_parent_dp_hash)),
            Piece::Text(AND_BLOB_INDEX),
            Piece::Bind(small_int(*blob_index)),
            Piece::Text(AND_OUTPUT_INDEX),
            Piece::Bind(small_int(*blob_proof_output_index)),
        ],
        DeferredUpdate::SetContractStateAtBlock { state_commitment, contract_name, block_hash } => {
            vec![
                Piece::Text(SET_CONTRACT_STATE_AT_BLOCK),
                Piece::Bind(bytes(state_commitment)),
                Piece::Text(WHERE_CONTRACT),
                Piece::Bind(text(contract_name)),
                Piece::Text(AND_BLOCK),
                Piece::Bind(text(block_hash)),
            ]
        },
        DeferredUpdate::SetContractState { state_commitment, contract_name } => vec![
            Piece::Text(SET_CONTRACT_STATE),
            Piece::Bind(bytes(state_commitment)),
            Piece::Text(WHERE_CONTRACT),
            Piece::Bind(text(contract_name)),
        ],
    };
    assert(views(r@) =~= update_pieces(update@));
    r
}

impl Statement {
    /// The pieces of the statement, in the order of its text.
    pub fn to_pieces(&self) -> (r: Vec<Piece>)
        ensures
            views(r@) == pieces(self@),
    {
        match self {
            Statement::InsertBlocks(rows) => to_insert(INSERT_BLOCKS, rows, BLOCK_STAYS),
            Statement::InsertTransactions { rows, on_conflict } => to_insert(
                INSERT_TRANSACTIONS,
                rows,
                self::on_conflict(*on_conflict),
            ),
            Statement::InsertBlobs(rows) => to_insert(INSERT_BLOBS, rows, DO_NOTHING),
            Statement::InsertTxsContracts(rows) => to_insert(
                INSERT_TXS_CONTRACTS,
                rows,
                DO_NOTHING,
            ),
            Statement::InsertProofs(rows) => to_insert(INSERT_PROOFS, rows, PROOF_STAYS),
            Statement::InsertTransactionEvents(rows) => to_insert(INSERT_EVENTS, rows, AS_IS),
            Statement::InsertContracts(rows) => to_insert(
                INSERT_CONTRACTS,
                rows,
                CONTRACT_IS_OVERWRITTEN,
            ),
            Statement::InsertContractStates(rows) => to_insert(INSERT_CONTRACT_STATES, rows, AS_IS),
            Statement::DeleteContract(name) => {
                let r = vec![Piece::Text(DELETE_CONTRACT), Piece::Bind(text(name))];
                assert(views(r@) =~= pieces(self@));
                r
            },
            Statement::InsertBlobProofOutputs(rows) => to_insert(
                INSERT_BLOB_PROOF_OUTPUTS,
                rows,
                AS_IS,
            ),
            Statement::Update(update) => to_update_pieces(update),
            Statement::ReparentTransactions { from, to } => {
                let r = vec![
                    Piece::Text(SET_TRANSACTION_PARENT),
                    Piece::Bind(text(to)),
                    Piece::Text(WHERE_PARENT),
                    Piece::Bind(text(from)),
                    Piece::Text(AND_WAITING_RETURNING),
                ];
                assert(views(r@) =~= pieces(self@));
                r
            },
            Statement::ReparentBlobs { from, to, tx_hashes } => {
                let r = vec![
                    Piece::Text(SET_BLOB_PARENT),
                    Piece::Bind(text(to)),
                    Piece::Text(WHERE_PARENT),
                    Piece::Bind(text(from)),
                    Piece::Text(AND_TX_HASH_IN),
                    Piece::Tuples(to_all_binds(tx_hashes)),
                ];
                assert(views(r@) =~= pieces(self@));
                r
            },
        }
    }
}

} // verus!
