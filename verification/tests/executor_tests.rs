use executor::diff::StorageDiff;
use executor::interaction::{
    handle_pause, next_key_resume, storage_value_resume, PauseStep, VmPause, VmResume,
};
use executor::orchestrator::{CallOutcome, Orchestrator};
use executor::signature::is_magic_signature;
use executor::task::{calculate_state_root, CallResponse, Task, TaskPlan, TaskResponse};

#[test]
fn is_magic_signature_works() {
    assert!(is_magic_signature(&[0xde, 0xad, 0xbe, 0xef, 0xcd, 0xcd]));
    assert!(is_magic_signature(&[
        0xde, 0xad, 0xbe, 0xef, 0xcd, 0xcd, 0xcd, 0xcd
    ]));
    assert!(!is_magic_signature(&[
        0xde, 0xad, 0xbe, 0xef, 0xcd, 0xcd, 0xcd, 0x00
    ]));
    assert!(!is_magic_signature(&[
        0x00, 0x00, 0x00, 0x00, 0x00, 0x00, 0x00, 0x00
    ]));
}

#[test]
fn magic_signature_edge_cases() {
    // Shorter than four bytes never matches, the empty string included.
    assert!(!is_magic_signature(&[]));
    assert!(!is_magic_signature(&[0xde, 0xad, 0xbe]));
    // Exactly the four magic bytes match.
    assert!(is_magic_signature(&[0xde, 0xad, 0xbe, 0xef]));
}

fn call_response(r: TaskResponse) -> CallResponse {
    match r {
        TaskResponse::Call(c) => c,
        _ => panic!("expected a call response"),
    }
}

#[test]
fn empty_call_list_succeeds() {
    // A sequence with no calls: success with empty result bytes, empty diff.
    let o = Orchestrator::new();
    let c = call_response(o.into_response());
    assert!(c.result.is_empty());
    assert!(c.storage_diff.is_empty());
}

#[test]
fn later_write_wins() {
    let key = vec![0xaa, 0xbb];
    let v1 = vec![1u8];
    let v2 = vec![2u8];

    // Call 1 writes K -> V1.
    let mut o = Orchestrator::new();
    let d1 = StorageDiff::from_pairs(vec![(key.clone(), Some(v1.clone()))]);
    o.apply_outcome(CallOutcome::Success {
        result: vec![10u8],
        storage_diff: d1,
        offchain_diff: StorageDiff::empty(),
    });

    // Call 2 starts from call 1's diff and writes the same K -> V2.
    let mut d2 = StorageDiff::from_pairs(vec![(key.clone(), Some(v1.clone()))]);
    d2.set(key.clone(), Some(v2.clone()));
    o.apply_outcome(CallOutcome::Success {
        result: vec![20u8],
        storage_diff: d2,
        offchain_diff: StorageDiff::empty(),
    });

    let c = call_response(o.into_response());
    assert_eq!(c.result, vec![20u8]);
    assert_eq!(c.storage_diff, vec![(key, Some(v2))]);
}

#[test]
fn failure_discards_diff() {
    // Call 1 succeeds and accumulates a change; call 2 fails: the response is
    // a message-only error and the running diff is emptied.
    let mut o = Orchestrator::new();
    o.apply_outcome(CallOutcome::Success {
        result: vec![1u8],
        storage_diff: StorageDiff::from_pairs(vec![(vec![1u8], Some(vec![9u8]))]),
        offchain_diff: StorageDiff::empty(),
    });
    assert!(!o.has_failed());
    o.apply_outcome(CallOutcome::Failure {
        message: String::from("entry point trapped"),
    });
    assert!(o.has_failed());
    assert_eq!(o.storage_diff.num_entries(), 0);
    match o.into_response() {
        TaskResponse::Error(m) => assert_eq!(m, "entry point trapped"),
        _ => panic!("expected an error response"),
    }
}

#[test]
fn empty_prefix_needs_no_query() {
    // An empty prefix is answered locally with an empty key list.
    match handle_pause(VmPause::PrefixKeys { prefix: vec![] }, false) {
        PauseStep::Resume(VmResume::Keys { keys }) => assert!(keys.is_empty()),
        _ => panic!("expected an immediate resume"),
    }
    // Any other prefix goes to the oracle unchanged.
    match handle_pause(VmPause::PrefixKeys { prefix: vec![7u8] }, false) {
        PauseStep::QueryPrefixKeys { prefix } => assert_eq!(prefix, vec![7u8]),
        _ => panic!("expected a prefix-keys query"),
    }
}

#[test]
fn storage_queries_pass_through() {
    match handle_pause(VmPause::StorageGet { key: vec![3u8, 4u8] }, false) {
        PauseStep::QueryStorageGet { key } => assert_eq!(key, vec![3u8, 4u8]),
        _ => panic!("expected a storage-get query"),
    }
    match handle_pause(VmPause::NextKey { key: vec![5u8] }, true) {
        PauseStep::QueryNextKey { key } => assert_eq!(key, vec![5u8]),
        _ => panic!("expected a next-key query"),
    }
}

#[test]
fn empty_value_treated_as_absent() {
    // An oracle answer of an empty byte string is injected as "key absent".
    match storage_value_resume(Some(vec![])) {
        VmResume::StorageValue { value } => assert_eq!(value, None),
        _ => panic!("expected a storage value"),
    }
    match storage_value_resume(None) {
        VmResume::StorageValue { value } => assert_eq!(value, None),
        _ => panic!("expected a storage value"),
    }
    match storage_value_resume(Some(vec![0u8])) {
        VmResume::StorageValue { value } => assert_eq!(value, Some(vec![0u8])),
        _ => panic!("expected a storage value"),
    }
}

fn next_key_of(answer: Option<Vec<u8>>, prefix: Vec<u8>) -> Option<Vec<u8>> {
    match next_key_resume(answer, &prefix) {
        VmResume::NextKey { key } => key,
        _ => panic!("expected a next-key resume"),
    }
}

#[test]
fn next_key_filtered_by_prefix() {
    // An answer under the enumerated prefix passes through.
    assert_eq!(
        next_key_of(Some(vec![1u8, 2u8, 3u8]), vec![1u8, 2u8]),
        Some(vec![1u8, 2u8, 3u8])
    );
    // An answer outside the prefix ends the enumeration.
    assert_eq!(next_key_of(Some(vec![9u8, 9u8]), vec![1u8, 2u8]), None);
    // An answer shorter than the prefix ends it too.
    assert_eq!(next_key_of(Some(vec![1u8]), vec![1u8, 2u8]), None);
    // No answer: no further key.
    assert_eq!(next_key_of(None, vec![1u8]), None);
}

#[test]
fn instantiation_failure_is_error() {
    match executor::runtime::instantiation_failure_response(String::from("bad module")) {
        TaskResponse::Error(m) => assert_eq!(m, "bad module"),
        _ => panic!("expected an error response"),
    }
}

fn magic() -> Vec<u8> {
    vec![0xde, 0xad, 0xbe, 0xef, 0xcd, 0xcd]
}

#[test]
fn signature_bypass_policy() {
    // Bypass only when the task enabled it and the signature is magic.
    let pause = |sig: Vec<u8>| VmPause::SignatureVerification {
        message: vec![1u8],
        signature: sig,
        public_key: vec![2u8],
    };
    assert!(matches!(
        handle_pause(pause(magic()), true),
        PauseStep::Resume(VmResume::SignatureOk)
    ));
    assert!(matches!(
        handle_pause(pause(magic()), false),
        PauseStep::Resume(VmResume::SignatureCheck)
    ));
    assert!(matches!(
        handle_pause(pause(vec![0u8; 8]), true),
        PauseStep::Resume(VmResume::SignatureCheck)
    ));
}

#[test]
fn dispatch_selects_by_variant() {
    let t = Task::RuntimeVersion { wasm: vec![1u8, 2u8] };
    match t.plan() {
        TaskPlan::ReadVersion { wasm } => assert_eq!(wasm, vec![1u8, 2u8]),
        _ => panic!("expected the version handler"),
    }
    let t = Task::CalculateStateRoot { entries: vec![] };
    assert!(matches!(t.plan(), TaskPlan::StateRootStub { .. }));
    let t = Task::Call(executor::task::TaskCall {
        wasm: vec![],
        block_hash: vec![],
        calls: vec![],
        mock_signature_host: false,
    });
    assert!(matches!(t.plan(), TaskPlan::RunCalls(_)));
}

#[test]
fn state_root_is_placeholder() {
    let entries = vec![(vec![1u8], vec![2u8])];
    match calculate_state_root(&entries) {
        TaskResponse::CalculateStateRoot(root) => assert_eq!(root, vec![0u8; 32]),
        _ => panic!("expected a state-root response"),
    }
}

#[test]
fn diff_records_sets_and_deletes() {
    let mut d = StorageDiff::empty();
    d.set(vec![1u8], Some(vec![10u8]));
    d.set(vec![2u8], None);
    assert_eq!(d.num_entries(), 2);
    let mut pairs = d.to_pairs();
    pairs.sort();
    assert_eq!(
        pairs,
        vec![(vec![1u8], Some(vec![10u8])), (vec![2u8], None)]
    );
}

#[test]
fn diff_from_pairs_overrides_in_order() {
    let d = StorageDiff::from_pairs(vec![
        (vec![1u8], Some(vec![10u8])),
        (vec![2u8], Some(vec![20u8])),
        (vec![1u8], None),
    ]);
    let mut pairs = d.to_pairs();
    pairs.sort();
    assert_eq!(pairs, vec![(vec![1u8], None), (vec![2u8], Some(vec![20u8]))]);
}

#[test]
fn runtime_version_rejects_bad_module() {
    // A module that does not instantiate yields a structured error response,
    // not a crash.
    let r = executor::runtime::runtime_version(&vec![0u8, 1u8, 2u8, 3u8]);
    assert!(matches!(r, TaskResponse::Error(_)));
}
