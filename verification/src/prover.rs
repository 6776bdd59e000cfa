use crate::keyed::{duplicate_rows, Row};
use crate::model::{Blob, BlobView, ContractName, LaneId, TimestampMs, TxHash};
use crate::rows::ConsensusProposalHash;
use crate::seqs::bytes_opt;
use crate::seqs::{clone_bytes, views};
use vstd::prelude::*;

verus! {

/// What a prover says of itself.
#[derive(Clone, Debug, PartialEq, Eq)]
pub struct ProverInfo {
    pub name: String,
    pub zkvm: String,
    pub version: String,
}

/// What a `ProverInfo` holds, as the contracts read it.
pub struct ProverInfoView {
    pub name: Seq<char>,
    pub zkvm: Seq<char>,
    pub version: Seq<char>,
}

impl View for ProverInfo {
    type V = ProverInfoView;

    open spec fn view(&self) -> ProverInfoView {
        ProverInfoView { name: self.name@, zkvm: self.zkvm@, version: self.version@ }
    }
}

/// The lower-case form that std gives a text.
pub uninterp spec fn lowercased(text: Seq<char>) -> Seq<char>;

/// Calls `str::to_lowercase`. The contract claims that the answer is a
/// function of the text alone, and no more.
#[verifier::external_body]
fn to_lowercase(text: &str) -> (r: String)
    ensures
        r@ == lowercased(text@),
{
    text.to_lowercase()
}

/// Where a RISC Zero proof is made.
#[derive(Clone, Copy, Debug, PartialEq, Eq, Structural)]
pub enum Risc0Backend {
    Bonsai,
    Boundless,
    Local,
}

/// Where an SP1 proof is made.
#[derive(Clone, Copy, Debug, PartialEq, Eq, Structural)]
pub enum Sp1Backend {
    Network,
    Local,
}

/// The backend that a lower-case name selects: the local prover, unless the
/// name is that of a proving service.
pub open spec fn risc0_backend_named(lowered: Seq<char>) -> Risc0Backend {
    if lowered == "bonsai"@ {
        Risc0Backend::Bonsai
    } else if lowered == "boundless"@ {
        Risc0Backend::Boundless
    } else {
        Risc0Backend::Local
    }
}

/// The SP1 backend that a lower-case name selects: the local prover, unless the
/// name is that of the proving network.
pub open spec fn sp1_backend_named(lowered: Seq<char>) -> Sp1Backend {
    if lowered == "network"@ {
        Sp1Backend::Network
    } else {
        Sp1Backend::Local
    }
}

/// The RISC Zero backend that a lower-case name selects.
pub fn risc0_backend_for(lowered: &String) -> (r: Risc0Backend)
    ensures
        r == risc0_backend_named(lowered@),
{
    if *lowered == "bonsai".to_owned() {
        Risc0Backend::Bonsai
    } else if *lowered == "boundless".to_owned() {
        Risc0Backend::Boundless
    } else {
        Risc0Backend::Local
    }
}

/// The SP1 backend that a lower-case name selects.
pub fn sp1_backend_for(lowered: &String) -> (r: Sp1Backend)
    ensures
        r == sp1_backend_named(lowered@),
{
    if *lowered == "network".to_owned() {
        Sp1Backend::Network
    } else {
        Sp1Backend::Local
    }
}

/// The RISC Zero backend that a configured name selects, whatever its case.
pub fn risc0_backend(explicit: &str) -> (r: Risc0Backend)
    ensures
        r == risc0_backend_named(lowercased(explicit@)),
{
    let lowered = to_lowercase(explicit);
    risc0_backend_for(&lowered)
}

/// The SP1 backend that a configured name selects, whatever its case.
pub fn sp1_backend(explicit: &str) -> (r: Sp1Backend)
    ensures
        r == sp1_backend_named(lowercased(explicit@)),
{
    let lowered = to_lowercase(explicit);
    sp1_backend_for(&lowered)
}

/// A prover for a RISC Zero guest program, given as its binary.
#[derive(Clone, Copy, Debug)]
pub struct Risc0Prover<'a> {
    binary: &'a [u8],
}

impl<'a> Risc0Prover<'a> {
    /// The guest program that the prover was made for.
    pub closed spec fn program(&self) -> Seq<u8> {
        self.binary@
    }

    /// A prover for the guest program `binary`.
    pub fn new(binary: &'a [u8]) -> (r: Self)
        ensures
            r.program() == binary@,
    {
        Self { binary }
    }

    /// The guest program.
    pub fn binary(&self) -> (r: &'a [u8])
        ensures
            r@ == self.program(),
    {
        self.binary
    }

    /// What the prover says of itself: `prover_name` is the configured name
    /// of the backend, `version` that of the proving system.
    pub fn info(&self, prover_name: String, version: String) -> (r: ProverInfo)
        ensures
            r@.name == prover_name@,
            r@.zkvm == "risc0_zkvm"@,
            r@.version == version@,
    {
        ProverInfo { name: prover_name, zkvm: "risc0_zkvm".to_owned(), version }
    }
}

/// The registration of a contract, as the `hyle` contract takes it.
#[derive(Clone, Debug, PartialEq, Eq)]
pub struct RegisterContractAction {
    pub verifier: String,
    pub program_id: Vec<u8>,
    pub state_commitment: Vec<u8>,
    pub contract_name: ContractName,
    /// The number of blocks after which a transaction for the contract times
    /// out, where the contract sets one.
    pub timeout_window: Option<u64>,
    pub constructor_metadata: Option<Vec<u8>>,
}

/// What a `RegisterContractAction` holds, as the contracts read it.
pub struct RegisterContractActionView {
    pub verifier: Seq<char>,
    pub program_id: Seq<u8>,
    pub state_commitment: Seq<u8>,
    pub contract_name: Seq<char>,
    pub timeout_window: Option<u64>,
    pub constructor_metadata: Option<Seq<u8>>,
}

impl View for RegisterContractAction {
    type V = RegisterContractActionView;

    open spec fn view(&self) -> RegisterContractActionView {
        RegisterContractActionView {
            verifier: self.verifier@,
            program_id: self.program_id@,
            state_commitment: self.state_commitment@,
            contract_name: self.contract_name@,
            timeout_window: self.timeout_window,
            constructor_metadata: bytes_opt(self.constructor_metadata),
        }
    }
}

/// The action that registers a contract, and the contract that it is
/// addressed to: registrations go to the contract named `hyle`.
pub fn register_hyle_contract(
    new_contract_name: ContractName,
    verifier: String,
    program_id: Vec<u8>,
    state_commitment: Vec<u8>,
    timeout_window: Option<u64>,
    constructor_metadata: Option<Vec<u8>>,
) -> (r: (ContractName, RegisterContractAction))
    ensures
        r.0@ == "hyle"@,
        r.1@ == (RegisterContractActionView {
            verifier: verifier@,
            program_id: program_id@,
            state_commitment: state_commitment@,
            contract_name: new_contract_name@,
            timeout_window,
            constructor_metadata: bytes_opt(constructor_metadata),
        }),
{
    (
        "hyle".to_owned(),
        RegisterContractAction {
            contract_name: new_contract_name,
            verifier,
            program_id,
            state_commitment,
            timeout_window,
            constructor_metadata,
        },
    )
}

/// A blob with its place in its transaction.
#[derive(Clone, Debug, PartialEq, Eq)]
pub struct IndexedBlob {
    pub index: usize,
    pub blob: Blob,
}

/// What a `IndexedBlob` holds, as the contracts read it.
pub struct IndexedBlobView {
    pub index: usize,
    pub blob: BlobView,
}

impl View for IndexedBlob {
    type V = IndexedBlobView;

    open spec fn view(&self) -> IndexedBlobView {
        IndexedBlobView { index: self.index, blob: self.blob@ }
    }
}

impl Row for IndexedBlob {
    fn duplicate(&self) -> (r: Self) {
        IndexedBlob { index: self.index, blob: self.blob.duplicate() }
    }
}

/// What a contract is called with, as far as a mock proof reads it.
#[derive(Clone, Debug, PartialEq, Eq)]
pub struct Calldata {
    pub tx_hash: TxHash,
    pub identity: String,
    pub blobs: Vec<IndexedBlob>,
    pub tx_blob_count: usize,
    pub index: usize,
}

/// What a `Calldata` holds, as the contracts read it.
pub struct CalldataView {
    pub tx_hash: Seq<char>,
    pub identity: Seq<char>,
    pub blobs: Seq<IndexedBlobView>,
    pub tx_blob_count: usize,
    pub index: usize,
}

impl View for Calldata {
    type V = CalldataView;

    open spec fn view(&self) -> CalldataView {
        CalldataView {
            tx_hash: self.tx_hash@,
            identity: self.identity@,
            blobs: views(self.blobs@),
            tx_blob_count: self.tx_blob_count,
            index: self.index,
        }
    }
}

impl Row for Calldata {
    fn duplicate(&self) -> (r: Self) {
        Calldata {
            tx_hash: self.tx_hash.clone(),
            identity: self.identity.clone(),
            blobs: duplicate_rows(&self.blobs),
            tx_blob_count: self.tx_blob_count,
            index: self.index,
        }
    }
}

/// The block in which a transaction runs.
#[derive(Clone, Debug, PartialEq, Eq)]
pub struct TxContext {
    pub lane_id: LaneId,
    pub block_hash: ConsensusProposalHash,
    pub block_height: u64,
    pub timestamp: TimestampMs,
    pub chain_id: u128,
}

/// What an execution asks of the chain.
#[derive(Clone, Debug, PartialEq, Eq)]
pub enum OnchainEffect {
    RegisterContract(RegisterContractAction),
    DeleteContract(ContractName),
}

/// What the execution of a contract on one blob puts out.
#[derive(Clone, Debug, PartialEq, Eq)]
pub struct HyleOutput {
    pub version: u32,
    pub initial_state: Vec<u8>,
    pub next_state: Vec<u8>,
    pub identity: String,
    pub index: usize,
    pub blobs: Vec<IndexedBlob>,
    pub tx_blob_count: usize,
    pub success: bool,
    pub tx_hash: TxHash,
    pub state_reads: Vec<(ContractName, Vec<u8>)>,
    pub tx_ctx: Option<TxContext>,
    pub onchain_effects: Vec<OnchainEffect>,
    pub program_outputs: Vec<u8>,
}

/// What a `HyleOutput` holds, as the contracts read it.
pub struct HyleOutputView {
    pub version: u32,
    pub initial_state: Seq<u8>,
    pub next_state: Seq<u8>,
    pub identity: Seq<char>,
    pub index: usize,
    pub blobs: Seq<IndexedBlobView>,
    pub tx_blob_count: usize,
    pub success: bool,
    pub tx_hash: Seq<char>,
    pub state_reads: Seq<(ContractName, Vec<u8>)>,
    pub tx_ctx: Option<TxContext>,
    pub onchain_effects: Seq<OnchainEffect>,
    pub program_outputs: Seq<u8>,
}

impl View for HyleOutput {
    type V = HyleOutputView;

    open spec fn view(&self) -> HyleOutputView {
        HyleOutputView {
            version: self.version,
            initial_state: self.initial_state@,
            next_state: self.next_state@,
            identity: self.identity@,
            index: self.index,
            blobs: views(self.blobs@),
            tx_blob_count: self.tx_blob_count,
            success: self.success,
            tx_hash: self.tx_hash@,
            state_reads: self.state_reads@,
            tx_ctx: self.tx_ctx,
            onchain_effects: self.onchain_effects@,
            program_outputs: self.program_outputs@,
        }
    }
}

/// The output of a mock execution: a success that leaves the state, given by
/// `commitment_metadata`, as it was, and hands the call's own data back. It
/// reads no state, runs in no block, and asks nothing of the chain.
pub open spec fn executed(commitment_metadata: Seq<u8>, calldata: CalldataView) -> HyleOutputView {
    HyleOutputView {
        version: 1,
        initial_state: commitment_metadata,
        next_state: commitment_metadata,
        identity: calldata.identity,
        index: calldata.index,
        blobs: calldata.blobs,
        tx_blob_count: calldata.tx_blob_count,
        success: true,
        tx_hash: calldata.tx_hash,
        state_reads: Seq::empty(),
        tx_ctx: None,
        onchain_effects: Seq::empty(),
        program_outputs: Seq::empty(),
    }
}

/// A mock execution cannot fail; the type stands for the errors of real ones.
#[derive(Clone, Copy, Debug, PartialEq, Eq, Structural)]
pub struct ExecutionFailed;

/// Executes a contract call as a mock does.
pub fn execute(commitment_metadata: Vec<u8>, calldata: Calldata) -> (r: Result<
    HyleOutput,
    ExecutionFailed,
>)
    ensures
        r is Ok,
        r.unwrap()@ == executed(commitment_metadata@, calldata@),
{
    let initial_state = clone_bytes(&commitment_metadata);
    Ok(
        HyleOutput {
            version: 1,
            initial_state,
            next_state: commitment_metadata,
            identity: calldata.identity.clone(),
            index: calldata.index,
            blobs: duplicate_rows(&calldata.blobs),
            tx_blob_count: calldata.tx_blob_count,
            success: true,
            tx_hash: calldata.tx_hash.clone(),
            state_reads: Vec::new(),
            tx_ctx: None,
            onchain_effects: Vec::new(),
            program_outputs: Vec::new(),
        },
    )
}

/// The outputs of the mock executions of the calls, in order.
pub open spec fn executed_all(commitment_metadata: Seq<u8>, calls: Seq<CalldataView>) -> Seq<
    HyleOutputView,
> {
    calls.map_values(|call: CalldataView| executed(commitment_metadata, call))
}

/// A prover that runs a contract `C` natively: its proofs are the outputs of
/// the contract itself, for tests.
#[derive(Debug)]
pub struct TxExecutorTestProver<C> {
    phantom: core::marker::PhantomData<C>,
}

impl<C> TxExecutorTestProver<C> {
    /// A prover for the contract `C`.
    pub fn new() -> Self {
        Self { phantom: core::marker::PhantomData }
    }

    /// What the prover says of itself.
    pub fn info(&self) -> (r: ProverInfo)
        ensures
            r@.name == "TxExecutorTestProver"@,
            r@.zkvm == "tx_executor"@,
            r@.version == "1.0.0"@,
    {
        ProverInfo {
            name: "TxExecutorTestProver".to_owned(),
            zkvm: "tx_executor".to_owned(),
            version: "1.0.0".to_owned(),
        }
    }
}

impl<C> Default for TxExecutorTestProver<C> {
    fn default() -> Self {
        Self::new()
    }
}

/// What an SP1 prover says of itself: `prover_name` is the configured name
/// of the backend, `version` that of the proving system.
pub fn sp1_prover_info(prover_name: String, version: String) -> (r: ProverInfo)
    ensures
        r@.name == prover_name@,
        r@.zkvm == "sp1"@,
        r@.version == version@,
{
    ProverInfo { name: prover_name, zkvm: "sp1".to_owned(), version }
}

/// A prover whose proofs are the outputs of mock executions.
#[derive(Clone, Copy, Debug, PartialEq, Eq, Structural)]
pub struct MockProver {}

impl MockProver {
    /// The output that the proof of one call carries.
    pub fn prove(&self, commitment_metadata: Vec<u8>, calldata: Calldata) -> (r: Result<
        HyleOutput,
        ExecutionFailed,
    >)
        ensures
            r is Ok,
            r.unwrap()@ == executed(commitment_metadata@, calldata@),
    {
        execute(commitment_metadata, calldata)
    }

    /// The outputs that the proof of several calls carries.
    pub fn prove_all(&self, commitment_metadata: Vec<u8>, calldata: Vec<Calldata>) -> (r: Result<
        Vec<HyleOutput>,
        ExecutionFailed,
    >)
        ensures
            r is Ok,
            views(r.unwrap()@) == executed_all(commitment_metadata@, views(calldata@)),
    {
        let mut proofs: Vec<HyleOutput> = Vec::new();
        let mut i: usize = 0;
        assert(views(proofs@) =~= executed_all(commitment_metadata@, views(calldata@).take(0)));
        while i < calldata.len()
            invariant
                0 <= i <= calldata.len(),
                views(proofs@) == executed_all(
                    commitment_metadata@,
                    views(calldata@).take(i as int),
                ),
            decreases calldata.len() - i,
        {
            let ghost before = views(proofs@);
            let output = execute(clone_bytes(&commitment_metadata), calldata[i].duplicate());
            match output {
                Ok(output) => {
                    proofs.push(output);
                },
                Err(e) => {
                    return Err(e);
                },
            }
            proof {
                assert(views(proofs@) =~= before.push(
                    executed(commitment_metadata@, calldata@[i as int]@),
                ));
                assert(views(proofs@) =~= executed_all(
                    commitment_metadata@,
                    views(calldata@).take(i + 1),
                ));
            }
            i = i + 1;
        }
        assert(views(calldata@).take(calldata.len() as int) =~= views(calldata@));
        Ok(proofs)
    }

    /// What the mock prover says of itself.
    pub fn info(&self) -> (r: ProverInfo)
        ensures
            r@.name == "MockProver"@,
            r@.zkvm == "mock"@,
            r@.version == "1.0.0"@,
    {
        ProverInfo {
            name: "MockProver".to_owned(),
            zkvm: "mock".to_owned(),
            version: "1.0.0".to_owned(),
        }
    }
}

} // verus!
