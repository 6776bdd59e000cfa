use hyle_indexer::model::Blob;
use hyle_indexer::prover::{
    execute, register_hyle_contract, risc0_backend, risc0_backend_for, sp1_backend,
    sp1_backend_for, sp1_prover_info, Calldata, IndexedBlob, MockProver,
    RegisterContractAction, Risc0Backend, Risc0Prover, Sp1Backend, TxExecutorTestProver,
};

fn text(s: &str) -> String {
    s.to_string()
}

fn call(tx: &str, index: usize) -> Calldata {
    Calldata {
        tx_hash: text(tx),
        identity: text("alice"),
        blobs: vec![IndexedBlob { index: 0, blob: Blob { contract_name: text("c"), data: vec![1, 2] } }],
        tx_blob_count: 1,
        index,
    }
}

#[test]
fn a_risc0_prover_keeps_its_binary() {
    let binary = [1u8, 2, 3];
    let prover = Risc0Prover::new(&binary);
    assert_eq!(prover.binary(), &binary[..]);
    let empty = Risc0Prover::new(&[]);
    assert!(empty.binary().is_empty());
}

#[test]
fn a_risc0_prover_reports_its_backend_and_version() {
    let prover = Risc0Prover::new(&[]);
    let info = prover.info(text("bonsai"), text("2.0.1"));
    assert_eq!(info.name, "bonsai");
    assert_eq!(info.zkvm, "risc0_zkvm");
    assert_eq!(info.version, "2.0.1");
}

#[test]
fn the_mock_prover_reports_itself() {
    let info = MockProver {}.info();
    assert_eq!(info.name, "MockProver");
    assert_eq!(info.zkvm, "mock");
    assert_eq!(info.version, "1.0.0");
}

#[test]
fn the_backend_is_selected_by_name_whatever_the_case() {
    assert_eq!(risc0_backend("bonsai"), Risc0Backend::Bonsai);
    assert_eq!(risc0_backend("BONSAI"), Risc0Backend::Bonsai);
    assert_eq!(risc0_backend("Boundless"), Risc0Backend::Boundless);
    assert_eq!(risc0_backend(""), Risc0Backend::Local);
    assert_eq!(risc0_backend("bonsai "), Risc0Backend::Local);
    assert_eq!(risc0_backend("local"), Risc0Backend::Local);
    assert_eq!(sp1_backend("NetWork"), Sp1Backend::Network);
    assert_eq!(sp1_backend("network"), Sp1Backend::Network);
    assert_eq!(sp1_backend(""), Sp1Backend::Local);
    assert_eq!(sp1_backend("cpu"), Sp1Backend::Local);
}

#[test]
fn a_lower_case_name_is_taken_as_it_is() {
    assert_eq!(risc0_backend_for(&text("bonsai")), Risc0Backend::Bonsai);
    assert_eq!(risc0_backend_for(&text("boundless")), Risc0Backend::Boundless);
    assert_eq!(risc0_backend_for(&text("BONSAI")), Risc0Backend::Local);
    assert_eq!(sp1_backend_for(&text("network")), Sp1Backend::Network);
    assert_eq!(sp1_backend_for(&text("NETWORK")), Sp1Backend::Local);
}

#[test]
fn a_mock_execution_succeeds_and_leaves_the_state() {
    let output = execute(vec![9, 9], call("tx", 3)).unwrap();
    assert_eq!(output.version, 1);
    assert_eq!(output.initial_state, vec![9, 9]);
    assert_eq!(output.next_state, vec![9, 9]);
    assert_eq!(output.identity, "alice");
    assert_eq!(output.index, 3);
    assert_eq!(output.blobs, call("tx", 3).blobs);
    assert_eq!(output.tx_blob_count, 1);
    assert!(output.success);
    assert_eq!(output.tx_hash, "tx");
    assert!(output.state_reads.is_empty());
    assert_eq!(output.tx_ctx, None);
    assert!(output.onchain_effects.is_empty());
    assert!(output.program_outputs.is_empty());
}

#[test]
fn the_mock_prover_proves_calls_in_order() {
    let prover = MockProver {};
    assert_eq!(prover.prove(vec![1], call("a", 0)), execute(vec![1], call("a", 0)));
    let all = prover.prove_all(vec![1], vec![call("a", 0), call("b", 1)]).unwrap();
    assert_eq!(all.len(), 2);
    assert_eq!(all[0], execute(vec![1], call("a", 0)).unwrap());
    assert_eq!(all[1], execute(vec![1], call("b", 1)).unwrap());
    assert!(prover.prove_all(vec![1], vec![]).unwrap().is_empty());
}

#[test]
fn the_other_provers_report_themselves() {
    let info = TxExecutorTestProver::<u8>::new().info();
    assert_eq!(TxExecutorTestProver::<u8>::default().info(), info);
    assert_eq!(info.name, "TxExecutorTestProver");
    assert_eq!(info.zkvm, "tx_executor");
    assert_eq!(info.version, "1.0.0");
    let info = sp1_prover_info(text("network"), text("v4"));
    assert_eq!(info.name, "network");
    assert_eq!(info.zkvm, "sp1");
    assert_eq!(info.version, "v4");
}

#[test]
fn a_registration_is_addressed_to_the_hyle_contract() {
    let (contract, action) = register_hyle_contract(
        text("counter"),
        text("risc0"),
        vec![1, 2],
        vec![3],
        Some(100),
        Some(vec![4, 5]),
    );
    assert_eq!(contract, "hyle");
    assert_eq!(
        action,
        RegisterContractAction {
            verifier: text("risc0"),
            program_id: vec![1, 2],
            state_commitment: vec![3],
            contract_name: text("counter"),
            timeout_window: Some(100),
            constructor_metadata: Some(vec![4, 5]),
        }
    );
    let (_, bare) = register_hyle_contract(text("c"), text("v"), vec![], vec![], None, None);
    assert_eq!(bare.timeout_window, None);
    assert_eq!(bare.constructor_metadata, None);
}
