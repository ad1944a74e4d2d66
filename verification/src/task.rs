//! Tasks, responses, and the dispatcher's selection logic.

use vstd::prelude::*;

verus! {

/// A call-execution request: compiled runtime bytes, the block whose state
/// the calls run against, the ordered (entry point, parameter) pairs, and
/// whether the signature bypass policy is enabled.
pub struct TaskCall {
    pub wasm: Vec<u8>,
    pub block_hash: Vec<u8>,
    pub calls: Vec<(String, Vec<u8>)>,
    pub mock_signature_host: bool,
}

/// A unit of work submitted to the executor.
pub enum Task {
    /// Run an ordered sequence of entry-point invocations against one
    /// instantiated runtime, threading the storage diff between them.
    Call(TaskCall),
    /// Report the runtime's self-reported version metadata.
    RuntimeVersion { wasm: Vec<u8> },
    /// Calculate a state root over the given entries. Currently answered by a
    /// fixed placeholder that ignores the entries.
    CalculateStateRoot { entries: Vec<(Vec<u8>, Vec<u8>)> },
}

/// The outcome of a call-execution task: the raw return bytes of the last
/// successfully executed entry point, and the net storage diff accumulated
/// across the whole call sequence.
pub struct CallResponse {
    pub result: Vec<u8>,
    pub storage_diff: Vec<(Vec<u8>, Option<Vec<u8>>)>,
}

/// The single response produced for a task.
pub enum TaskResponse {
    /// The call sequence completed without failure.
    Call(CallResponse),
    /// The version metadata, an opaque byte blob.
    RuntimeVersion(Vec<u8>),
    /// The (placeholder) state root.
    CalculateStateRoot(Vec<u8>),
    /// The task failed; carries a human-readable message.
    Error(String),
}

/// What the dispatcher decides to do for a task: which handler runs, and with
/// which inputs.
pub enum TaskPlan {
    /// Drive the call sequence through the runtime interaction loop, with the
    /// remote storage oracle answering storage queries.
    RunCalls(TaskCall),
    /// Instantiate the runtime and read its version. No storage access, so no
    /// oracle query is ever issued for such a task.
    ReadVersion { wasm: Vec<u8> },
    /// Answer with the fixed placeholder root at once. No runtime and no
    /// storage access.
    StateRootStub { entries: Vec<(Vec<u8>, Vec<u8>)> },
}

/// The plan a task dispatches to: each task kind maps to exactly one handler,
/// which receives the task's fields unchanged.
pub open spec fn plan_matches(t: Task, p: TaskPlan) -> bool {
    match t {
        Task::Call(call) => p == TaskPlan::RunCalls(call),
        Task::RuntimeVersion { wasm } => p == (TaskPlan::ReadVersion { wasm }),
        Task::CalculateStateRoot { entries } => p == (TaskPlan::StateRootStub { entries }),
    }
}

/// Oracle queries are issued only while running a call sequence: of the three
/// plans, only `RunCalls` ever consults the remote storage oracle.
pub open spec fn plan_uses_oracle(p: TaskPlan) -> bool {
    p matches TaskPlan::RunCalls(_)
}

impl Task {
    /// Selects the handler a task dispatches to, by its variant.
    pub fn plan(self) -> (p: TaskPlan)
        ensures
            plan_matches(self, p),
    {
        match self {
            Task::Call(call) => TaskPlan::RunCalls(call),
            Task::RuntimeVersion { wasm } => TaskPlan::ReadVersion { wasm },
            Task::CalculateStateRoot { entries } => TaskPlan::StateRootStub { entries },
        }
    }
}

/// A runtime-version task is handled without any oracle access: its plan
/// reads the version from the instantiated runtime alone.
pub proof fn lemma_runtime_version_no_oracle(t: Task, p: TaskPlan)
    requires
        plan_matches(t, p),
        t matches Task::RuntimeVersion { .. },
    ensures
        !plan_uses_oracle(p),
{
}

/// The fixed 32-byte all-zero placeholder returned for a state-root task.
pub open spec fn placeholder_root() -> Seq<u8> {
    Seq::new(32, |i: int| 0u8)
}

/// Handles a state-root task: a stub that ignores its input entries and
/// always returns the fixed 32-byte all-zero placeholder. This is an explicit
/// "unimplemented" marker, not a real state-root computation.
pub fn calculate_state_root(entries: &Vec<(Vec<u8>, Vec<u8>)>) -> (r: TaskResponse)
    ensures
        r matches TaskResponse::CalculateStateRoot(root) && root@ == placeholder_root(),
{
    let mut root: Vec<u8> = Vec::new();
    let mut i: usize = 0;
    while i < 32
        invariant
            i <= 32,
            root@.len() == i,
            forall|j: int| 0 <= j < i ==> root@[j] == 0u8,
        decreases 32 - i,
    {
        root.push(0u8);
        i = i + 1;
    }
    proof {
        assert(root@ =~= placeholder_root());
    }
    TaskResponse::CalculateStateRoot(root)
}

} // verus!
