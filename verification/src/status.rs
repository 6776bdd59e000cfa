use vstd::prelude::*;

verus! {

/// Where a transaction stands on its way through the ledger.
///
/// The statuses form a lattice in which a transaction only ever moves
/// forward: `WaitingDissemination`, then `DataProposalCreated`, then
/// `Sequenced`, then one of the three terminal outcomes.
#[derive(Clone, Copy, Debug, PartialEq, Eq, Structural)]
pub enum TransactionStatusDb {
    WaitingDissemination,
    DataProposalCreated,
    Success,
    Failure,
    Sequenced,
    TimedOut,
}

impl TransactionStatusDb {
    /// Position of the status in the lattice: the three terminal outcomes
    /// share the last position.
    pub open spec fn rank(self) -> nat {
        match self {
            TransactionStatusDb::WaitingDissemination => 0,
            TransactionStatusDb::DataProposalCreated => 1,
            TransactionStatusDb::Sequenced => 2,
            TransactionStatusDb::Success => 3,
            TransactionStatusDb::Failure => 3,
            TransactionStatusDb::TimedOut => 3,
        }
    }

    /// A pending status is one that a block may still overwrite.
    pub open spec fn is_pending(self) -> bool {
        self.rank() < 2
    }

    /// A terminal status is one of the three outcomes.
    pub open spec fn is_terminal(self) -> bool {
        self.rank() == 3
    }

    /// The status of a stored transaction once a block that holds it has
    /// arrived: a pending status gives way, a later one stays.
    pub open spec fn advanced_from_pending(self, arriving: TransactionStatusDb)
        -> TransactionStatusDb {
        if self.is_pending() {
            arriving
        } else {
            self
        }
    }

    /// The status of a stored transaction once it has been sealed into a data
    /// proposal: only `WaitingDissemination` gives way.
    pub open spec fn advanced_from_waiting(self, arriving: TransactionStatusDb)
        -> TransactionStatusDb {
        if self == TransactionStatusDb::WaitingDissemination {
            arriving
        } else {
            self
        }
    }

    /// The status of a stored transaction once a block that holds it has arrived.
    pub fn advance_from_pending(self, arriving: TransactionStatusDb) -> (r: TransactionStatusDb)
        ensures
            r == self.advanced_from_pending(arriving),
    {
        match self {
            TransactionStatusDb::WaitingDissemination => arriving,
            TransactionStatusDb::DataProposalCreated => arriving,
            _ => self,
        }
    }

    /// The status of a stored transaction once it has been sealed into a data
    /// proposal.
    pub fn advance_from_waiting(self, arriving: TransactionStatusDb) -> (r: TransactionStatusDb)
        ensures
            r == self.advanced_from_waiting(arriving),
    {
        match self {
            TransactionStatusDb::WaitingDissemination => arriving,
            _ => self,
        }
    }

    /// The name of the status in the tables.
    pub open spec fn name(self) -> Seq<char> {
        match self {
            TransactionStatusDb::WaitingDissemination => "waiting_dissemination"@,
            TransactionStatusDb::DataProposalCreated => "data_proposal_created"@,
            TransactionStatusDb::Success => "success"@,
            TransactionStatusDb::Failure => "failure"@,
            TransactionStatusDb::Sequenced => "sequenced"@,
            TransactionStatusDb::TimedOut => "timed_out"@,
        }
    }

    /// The name of the status in the tables.
    pub fn db_name(self) -> (r: &'static str)
        ensures
            r@ == self.name(),
    {
        match self {
            TransactionStatusDb::WaitingDissemination => "waiting_dissemination",
            TransactionStatusDb::DataProposalCreated => "data_proposal_created",
            TransactionStatusDb::Success => "success",
            TransactionStatusDb::Failure => "failure",
            TransactionStatusDb::Sequenced => "sequenced",
            TransactionStatusDb::TimedOut => "timed_out",
        }
    }

    /// The position of the status in the lattice, from 0 to 3.
    pub fn lattice_position(self) -> (r: u8)
        ensures
            r as nat == self.rank(),
    {
        match self {
            TransactionStatusDb::WaitingDissemination => 0,
            TransactionStatusDb::DataProposalCreated => 1,
            TransactionStatusDb::Sequenced => 2,
            TransactionStatusDb::Success => 3,
            TransactionStatusDb::Failure => 3,
            TransactionStatusDb::TimedOut => 3,
        }
    }
}

/// What a transaction carries.
#[derive(Clone, Copy, Debug, PartialEq, Eq, Structural)]
pub enum TransactionKind {
    Blob,
    Proof,
    VerifiedProof,
}

/// The kind of a transaction, as stored.
#[derive(Clone, Copy, Debug, PartialEq, Eq, Structural)]
pub enum TransactionTypeDb {
    BlobTransaction,
    ProofTransaction,
}

impl TransactionTypeDb {
    /// The name of the kind in the tables.
    pub open spec fn name(self) -> Seq<char> {
        match self {
            TransactionTypeDb::BlobTransaction => "blob_transaction"@,
            TransactionTypeDb::ProofTransaction => "proof_transaction"@,
        }
    }

    /// The name of the kind in the tables.
    pub fn db_name(self) -> (r: &'static str)
        ensures
            r@ == self.name(),
    {
        match self {
            TransactionTypeDb::BlobTransaction => "blob_transaction",
            TransactionTypeDb::ProofTransaction => "proof_transaction",
        }
    }
}

impl TransactionKind {
    /// The stored kind: both kinds of proof are stored as a proof.
    pub open spec fn stored_type(self) -> TransactionTypeDb {
        match self {
            TransactionKind::Blob => TransactionTypeDb::BlobTransaction,
            TransactionKind::Proof => TransactionTypeDb::ProofTransaction,
            TransactionKind::VerifiedProof => TransactionTypeDb::ProofTransaction,
        }
    }

    /// The status that a transaction has once a block holds it: a blob
    /// transaction is sequenced and waits for its proofs, a proof is done.
    pub open spec fn status_in_block(self) -> TransactionStatusDb {
        match self {
            TransactionKind::Blob => TransactionStatusDb::Sequenced,
            TransactionKind::Proof => TransactionStatusDb::Success,
            TransactionKind::VerifiedProof => TransactionStatusDb::Success,
        }
    }

    /// The stored kind.
    pub fn to_stored_type(self) -> (r: TransactionTypeDb)
        ensures
            r == self.stored_type(),
    {
        match self {
            TransactionKind::Blob => TransactionTypeDb::BlobTransaction,
            TransactionKind::Proof => TransactionTypeDb::ProofTransaction,
            TransactionKind::VerifiedProof => TransactionTypeDb::ProofTransaction,
        }
    }

    /// The status that a transaction of this kind has once a block holds it.
    pub fn to_status_in_block(self) -> (r: TransactionStatusDb)
        ensures
            r == self.status_in_block(),
            !r.is_pending(),
    {
        match self {
            TransactionKind::Blob => TransactionStatusDb::Sequenced,
            TransactionKind::Proof => TransactionStatusDb::Success,
            TransactionKind::VerifiedProof => TransactionStatusDb::Success,
        }
    }
}

/// How the ledger settled a transaction.
#[derive(Clone, Copy, Debug, PartialEq, Eq, Structural)]
pub enum Settlement {
    Success,
    Failure,
    TimedOut,
}

impl Settlement {
    /// The terminal status of the settlement.
    pub open spec fn status(self) -> TransactionStatusDb {
        match self {
            Settlement::Success => TransactionStatusDb::Success,
            Settlement::Failure => TransactionStatusDb::Failure,
            Settlement::TimedOut => TransactionStatusDb::TimedOut,
        }
    }

    /// The terminal status of the settlement.
    pub fn to_status(self) -> (r: TransactionStatusDb)
        ensures
            r == self.status(),
            r.is_terminal(),
    {
        match self {
            Settlement::Success => TransactionStatusDb::Success,
            Settlement::Failure => TransactionStatusDb::Failure,
            Settlement::TimedOut => TransactionStatusDb::TimedOut,
        }
    }
}

} // verus!
