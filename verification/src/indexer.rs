use crate::ingest::{notifications, unsupported, with_block, BlobTransactionNotification};
use crate::mempool::{
    closed, closing, opening, opening_statements, waiting_proof, MempoolFollowUp,
};
use crate::model::{BlockView, MempoolStatusEvent, NodeStateEvent, TimestampMs};
use crate::rows::TxHashDb;
use crate::seqs::views;
use crate::statement::Statement;
use crate::store::{IndexerHandlerStore, StoreView};
use crate::writer::batch;
use vstd::prelude::*;

verus! {

/// The staleness window that the indexer uses where none is configured.
pub const DEFAULT_STALENESS_WINDOW_MS: u64 = 5000;

/// When the indexer hands its buffer to the backend.
#[derive(Clone, Copy, Debug, PartialEq, Eq, Structural)]
pub struct IndexerConf {
    /// The number of buffered blocks from which the buffer is flushed.
    pub query_buffer_size: usize,
    /// A buffered block that is younger than this many milliseconds forces a
    /// flush, so that the tables follow a slow ledger closely.
    pub staleness_window_ms: u64,
}

/// The number of buffered blocks from which the buffer is flushed where none
/// is configured.
pub const DEFAULT_QUERY_BUFFER_SIZE: usize = 100;

impl Default for IndexerConf {
    fn default() -> (r: Self)
        ensures
            r.query_buffer_size == DEFAULT_QUERY_BUFFER_SIZE,
            r.staleness_window_ms == DEFAULT_STALENESS_WINDOW_MS,
    {
        IndexerConf {
            query_buffer_size: DEFAULT_QUERY_BUFFER_SIZE,
            staleness_window_ms: DEFAULT_STALENESS_WINDOW_MS,
        }
    }
}

/// The indexer: its configuration and its write buffer. It reads one event
/// at a time and says what is to be done with the backend; it does not talk
/// to the backend itself.
#[derive(Clone, Debug, PartialEq, Eq)]
pub struct Indexer {
    pub conf: IndexerConf,
    pub handler_store: IndexerHandlerStore,
}

/// What came of an event of the ledger.
#[derive(Clone, Debug, PartialEq, Eq)]
pub struct NodeStateOutcome {
    /// What subscribers are to be told, whether or not the buffer is flushed.
    pub notifications: Vec<BlobTransactionNotification>,
    /// The places, in the block, of the transactions whose detail could not
    /// be buffered.
    pub unsupported: Vec<usize>,
    /// The buffer is to be flushed now.
    pub flush: bool,
}

/// The block of an event of the ledger.
pub open spec fn block_of(event: NodeStateEvent) -> BlockView {
    match event {
        NodeStateEvent::NewBlock(block) => block@,
    }
}

/// Whether the buffer is to be flushed at the time `now`: it holds as many
/// blocks as the configured capacity, or its newest block is younger than
/// the staleness window. An empty buffer is never flushed.
pub open spec fn flush_due(s: StoreView, conf: IndexerConf, now: TimestampMs) -> bool {
    s.blocks.len() > 0 && (s.blocks.len() >= conf.query_buffer_size
        || s.blocks.last().block_timestamp + conf.staleness_window_ms > now)
}

impl IndexerHandlerStore {
    /// Whether the buffer is to be flushed at the time `now`.
    pub fn must_flush(&self, conf: &IndexerConf, now: TimestampMs) -> (r: bool)
        ensures
            r == flush_due(self@, *conf, now),
    {
        let n = self.blocks.len();
        if n == 0 {
            return false;
        }
        if n >= conf.query_buffer_size {
            return true;
        }
        let newest = &self.blocks[n - 1];
        assert(self@.blocks.last() == newest@);
        let limit: u128 = newest.block_timestamp as u128 + conf.staleness_window_ms as u128;
        limit > now as u128
    }
}

impl Indexer {
    /// An indexer with an empty buffer.
    pub fn new(conf: IndexerConf) -> (r: Self)
        ensures
            r.conf == conf,
            r.handler_store@ == StoreView::empty(),
            r.handler_store@.wf(),
    {
        Indexer { conf, handler_store: IndexerHandlerStore::new() }
    }

    /// Reads an event of the ledger into the buffer. The answer says what
    /// subscribers are to be told and whether the buffer is to be flushed
    /// now; `now` is the time of the call.
    pub fn handle_node_state_event(&mut self, event: &NodeStateEvent, now: TimestampMs) -> (r:
        NodeStateOutcome)
        ensures
            final(self).conf == old(self).conf,
            final(self).handler_store@ == with_block(old(self).handler_store@, block_of(*event)),
            old(self).handler_store@.wf() ==> final(self).handler_store@.wf(),
            views(r.notifications@) == notifications(
                block_of(*event),
                block_of(*event).txs.len() as int,
            ),
            r.unsupported@ == unsupported(block_of(*event), block_of(*event).txs.len() as int),
            r.flush == flush_due(final(self).handler_store@, old(self).conf, now),
    {
        match event {
            NodeStateEvent::NewBlock(block) => {
                let read = self.handler_store.handle_processed_block(block);
                let flush = self.handler_store.must_flush(&self.conf, now);
                NodeStateOutcome {
                    notifications: read.notifications,
                    unsupported: read.unsupported,
                    flush,
                }
            },
        }
    }

    /// The statements that hand the buffer to the backend, to be run as one
    /// transaction.
    pub fn dump_store_to_db(&self, now: chrono::NaiveDateTime) -> (r: Vec<Statement>)
        ensures
            views(r@) == batch(self.handler_store@, now),
    {
        self.handler_store.dump_store_to_db(now)
    }

    /// The backend has committed the statements of the buffer: the buffer is
    /// emptied.
    pub fn flush_committed(&mut self)
        ensures
            final(self).conf == old(self).conf,
            final(self).handler_store@ == StoreView::empty(),
            final(self).handler_store@.wf(),
    {
        self.handler_store.clear();
    }

    /// The statements that an event of the mempool opens with. The backend
    /// runs them and hands back the hashes of the transactions that the last
    /// of them moved; `close_mempool_status_event` takes these.
    pub fn handle_mempool_status_event(&self, event: &MempoolStatusEvent) -> (r: Vec<Statement>)
        ensures
            views(r@) == opening(event@),
    {
        opening_statements(event)
    }

    /// Brings the buffer in line with what the backend did for an event of
    /// the mempool, and gives the statements that close the event.
    pub fn close_mempool_status_event(&mut self, event: &MempoolStatusEvent, moved: &Vec<TxHashDb>)
        -> (r: MempoolFollowUp)
        ensures
            final(self).conf == old(self).conf,
            final(self).handler_store@ == closed(old(self).handler_store@, event@, views(moved@)),
            old(self).handler_store@.wf() ==> final(self).handler_store@.wf(),
            views(r.statements@) == closing(event@, views(moved@)),
            r.unsupported is Some <==> waiting_proof(event@),
    {
        self.handler_store.close_mempool_event(event, moved)
    }
}

} // verus!
