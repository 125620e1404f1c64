use tweak::descriptor::{encode_metadata, Descriptor};
use tweak::errors::TweakError;
use tweak::hex::{decode_hex_field, encode_hex_field};
use tweak::layout::{StorageEncoding, StorageVar};
use tweak::metadata::CloneMetadata;
use tweak::project::{Artifact, ClonedProject, CompileOutput, ProjectConfig};
use tweak::tweak::{tweaked_code_from_replay, ReplayFault, TweakOutcome};

fn sample_metadata() -> CloneMetadata {
    CloneMetadata {
        path: "src/Counter.sol".to_string(),
        target_contract: "Counter".to_string(),
        address: vec![0x11; 20],
        chain_id: 1,
        creation_transaction: vec![0x22; 32],
        deployer: vec![0x33; 20],
        constructor_arguments: vec![0xde, 0xad, 0xbe, 0xef],
        storage_layout: vec![StorageVar {
            slot: 0,
            offset: 0,
            size: 32,
            encoding: StorageEncoding::Inplace,
            label: "count".to_string(),
        }],
    }
}

fn sample_descriptor() -> Descriptor {
    encode_metadata(&sample_metadata())
}

fn sample_artifact() -> Artifact {
    Artifact {
        contract_name: "Counter".to_string(),
        bytecode: vec![0x60, 0x80, 0x60, 0x40],
        storage_layout: vec![StorageVar {
            slot: 0,
            offset: 0,
            size: 32,
            encoding: StorageEncoding::Inplace,
            label: "count".to_string(),
        }],
    }
}

fn sample_output() -> CompileOutput {
    CompileOutput { artifacts: vec![sample_artifact()] }
}

fn load_sample() -> ClonedProject {
    let config = ProjectConfig { chain: Some(1), emit_storage_layout: false };
    ClonedProject::load_with_root("/work/counter".to_string(), config, Some(&sample_descriptor()))
        .unwrap()
}

#[test]
fn hex_field_encodes_exact_bytes() {
    let encoded = encode_hex_field(&vec![0xde, 0xad, 0xbe, 0xef]);
    assert_eq!(encoded, b"0xdeadbeef".to_vec());
}

#[test]
fn hex_field_decodes_both_cases() {
    assert_eq!(decode_hex_field(&b"0xDEADbeef".to_vec()), Some(vec![0xde, 0xad, 0xbe, 0xef]));
    assert_eq!(decode_hex_field(&b"0x".to_vec()), Some(Vec::new()));
    assert_eq!(decode_hex_field(&b"deadbeef".to_vec()), None);
    assert_eq!(decode_hex_field(&b"0xdea".to_vec()), None);
    assert_eq!(decode_hex_field(&b"0xzz".to_vec()), None);
}

#[test]
fn missing_descriptor_is_not_found() {
    let err = CloneMetadata::load_with_root(None).unwrap_err();
    assert!(matches!(err, TweakError::NotFound { .. }));
}

#[test]
fn malformed_descriptor_is_a_parse_error() {
    let mut descriptor = sample_descriptor();
    descriptor.address = b"0x11".to_vec();
    let err = CloneMetadata::load_with_root(Some(&descriptor)).unwrap_err();
    assert!(matches!(err, TweakError::Parse { .. }));
}

#[test]
fn descriptor_round_trip_preserves_every_field() {
    let original = sample_metadata();
    let reloaded = CloneMetadata::load_with_root(Some(&encode_metadata(&original))).unwrap();
    assert_eq!(reloaded.path, original.path);
    assert_eq!(reloaded.target_contract, original.target_contract);
    assert_eq!(reloaded.address, original.address);
    assert_eq!(reloaded.chain_id, original.chain_id);
    assert_eq!(reloaded.creation_transaction, original.creation_transaction);
    assert_eq!(reloaded.deployer, original.deployer);
    assert_eq!(reloaded.constructor_arguments, original.constructor_arguments);
    assert_eq!(reloaded.storage_layout.len(), original.storage_layout.len());
    for (a, b) in reloaded.storage_layout.iter().zip(original.storage_layout.iter()) {
        assert_eq!(a.slot, b.slot);
        assert_eq!(a.offset, b.offset);
        assert_eq!(a.size, b.size);
        assert_eq!(a.encoding, b.encoding);
        assert_eq!(a.label, b.label);
    }
}

#[test]
fn relative_root_is_rejected() {
    let config = ProjectConfig { chain: Some(1), emit_storage_layout: false };
    let err = ClonedProject::load_with_root("counter".to_string(), config, Some(&sample_descriptor()))
        .unwrap_err();
    assert!(matches!(err, TweakError::Io { .. }));
}

#[test]
fn compile_runs_the_compiler_only_once() {
    let mut project = load_sample();
    let mut compiler_runs: u32 = 0;
    let mut outputs: Vec<CompileOutput> = Vec::new();
    for _ in 0..2 {
        let fresh = if project.needs_compile() {
            compiler_runs += 1;
            Some(Ok(sample_output()))
        } else {
            None
        };
        outputs.push(project.compile_safe(fresh).unwrap());
    }
    assert_eq!(compiler_runs, 1);
    assert_eq!(outputs[0].artifacts.len(), outputs[1].artifacts.len());
    assert_eq!(outputs[0].artifacts[0].contract_name, outputs[1].artifacts[0].contract_name);
    assert_eq!(outputs[0].artifacts[0].bytecode, outputs[1].artifacts[0].bytecode);
}

#[test]
fn failed_compile_reports_diagnostics_and_allows_retry() {
    let mut project = load_sample();
    let err = project
        .compile_safe(Some(Err("ParserError: expected ';'".to_string())))
        .unwrap_err();
    match err {
        TweakError::Compile { diagnostics } => {
            assert_eq!(diagnostics, "ParserError: expected ';'");
        }
        other => panic!("expected a compile error, got {:?}", other),
    }
    assert!(project.needs_compile());
    assert!(project.compile_safe(Some(Ok(sample_output()))).is_ok());
}

#[test]
fn missing_target_contract_is_named() {
    let mut project = load_sample();
    let mut output = sample_output();
    output.artifacts[0].contract_name = "Other".to_string();
    let err = project.main_artifact(Some(Ok(output))).unwrap_err();
    match err {
        TweakError::NotFound { what } => assert_eq!(what, "Counter"),
        other => panic!("expected a not-found error, got {:?}", other),
    }
}

#[test]
fn main_artifact_is_cached_and_repeatable() {
    let mut project = load_sample();
    let first = project.main_artifact(Some(Ok(sample_output()))).unwrap();
    let second = project.main_artifact(None).unwrap();
    assert_eq!(first.contract_name, second.contract_name);
    assert_eq!(first.bytecode, second.bytecode);
    assert_eq!(first.storage_layout.len(), second.storage_layout.len());
}

#[test]
fn chain_mismatch_fails_before_any_compile() {
    let config = ProjectConfig { chain: Some(10), emit_storage_layout: false };
    let mut project = ClonedProject::load_with_root(
        "/work/counter".to_string(),
        config,
        Some(&sample_descriptor()),
    )
    .unwrap();
    let err = project.tweaked_code(true, Some(Ok(sample_output()))).unwrap_err();
    match err {
        TweakError::ChainMismatch { configured, recorded } => {
            assert_eq!(configured, 10);
            assert_eq!(recorded, 1);
        }
        other => panic!("expected a chain-mismatch error, got {:?}", other),
    }
    // Neither the storage check nor a compile happened.
    assert!(project.needs_compile());
}

#[test]
fn chain_mismatch_needs_no_compiler_outcome() {
    // Stage one fails before any compile: no compiler outcome is supplied
    // and the chain check still reports the mismatch.
    let config = ProjectConfig { chain: Some(10), emit_storage_layout: false };
    let mut project = ClonedProject::load_with_root(
        "/work/counter".to_string(),
        config,
        Some(&sample_descriptor()),
    )
    .unwrap();
    let err = project.tweaked_code(true, None).unwrap_err();
    assert!(matches!(err, TweakError::ChainMismatch { .. }));
    assert!(project.needs_compile());
}

#[test]
fn caches_are_write_once() {
    let mut project = load_sample();
    let first = project.tweaked_code(true, Some(Ok(sample_output()))).unwrap();
    // A second run consumes no compiler outcome and leaves the caches as
    // they are: the same bytecode comes back.
    let second = project.tweaked_code(true, None).unwrap();
    match (first, second) {
        (TweakOutcome::Code { bytecode: a }, TweakOutcome::Code { bytecode: b }) => {
            assert_eq!(a, b);
        }
        _ => panic!("quick mode must return bytecode both times"),
    }
}

#[test]
fn default_chain_is_mainnet() {
    let config = ProjectConfig { chain: None, emit_storage_layout: false };
    let mut project = ClonedProject::load_with_root(
        "/work/counter".to_string(),
        config,
        Some(&sample_descriptor()),
    )
    .unwrap();
    // The recorded chain id is 1, so the default configuration matches.
    assert!(project.tweaked_code(true, Some(Ok(sample_output()))).is_ok());
}

#[test]
fn quick_mode_returns_the_artifact_bytecode() {
    let mut project = load_sample();
    match project.tweaked_code(true, Some(Ok(sample_output()))).unwrap() {
        TweakOutcome::Code { bytecode } => assert_eq!(bytecode, vec![0x60, 0x80, 0x60, 0x40]),
        TweakOutcome::NeedsReplay { .. } => panic!("quick mode must not ask for a replay"),
    }
}

#[test]
fn incompatible_storage_aborts_before_bytecode() {
    let mut project = load_sample();
    let mut output = sample_output();
    output.artifacts[0].storage_layout[0].slot = 1;
    let err = project.tweaked_code(true, Some(Ok(output))).unwrap_err();
    match err {
        TweakError::IncompatibleStorage { violations } => assert_eq!(violations.len(), 1),
        other => panic!("expected a storage-compatibility error, got {:?}", other),
    }
}

#[test]
fn full_mode_asks_for_the_recorded_deployment_replay() {
    let mut project = load_sample();
    match project.tweaked_code(false, Some(Ok(sample_output()))).unwrap() {
        TweakOutcome::NeedsReplay { request } => {
            assert_eq!(request.chain_id, 1);
            assert_eq!(request.creation_transaction, vec![0x22; 32]);
            assert_eq!(request.deployer, vec![0x33; 20]);
            assert_eq!(request.constructor_arguments, vec![0xde, 0xad, 0xbe, 0xef]);
        }
        TweakOutcome::Code { .. } => panic!("full mode must replay the deployment"),
    }
}

#[test]
fn unreachable_rpc_surfaces_as_rpc_error() {
    let fault = ReplayFault::Transport { message: "connection refused".to_string() };
    let err = tweaked_code_from_replay(Err(fault)).unwrap_err();
    match err {
        TweakError::Rpc { message } => assert_eq!(message, "connection refused"),
        other => panic!("expected an RPC error, got {:?}", other),
    }
}

#[test]
fn failed_replay_surfaces_as_replay_error() {
    let fault = ReplayFault::Execution { message: "constructor reverted".to_string() };
    let err = tweaked_code_from_replay(Err(fault)).unwrap_err();
    assert!(matches!(err, TweakError::Replay { .. }));
}

#[test]
fn successful_replay_passes_the_code_through() {
    let code = vec![0x60, 0x0a];
    assert_eq!(tweaked_code_from_replay(Ok(code.clone())).unwrap(), code);
}

#[test]
fn projects_compare_by_root() {
    let a = load_sample();
    let mut b = load_sample();
    assert!(a == b);
    b.root = "/work/other".to_string();
    assert!(!(a == b));
}
