//! The call orchestrator: runs an ordered sequence of entry-point invocations
//! against one instantiated runtime, feeding each call's resulting diff as
//! the starting diff for the next, stopping and discarding all diffs on the
//! first failure.

use vstd::prelude::*;
use crate::diff::StorageDiff;
use crate::diff::opt_view;
use crate::task::CallResponse;
use crate::task::TaskResponse;

verus! {

/// The terminal outcome of driving one entry-point invocation through the
/// runtime interaction loop.
pub enum CallOutcome {
    /// The call completed: its raw return bytes, and the storage diffs as of
    /// the end of the call (the starting diffs with the call's writes laid
    /// over them).
    Success { result: Vec<u8>, storage_diff: StorageDiff, offchain_diff: StorageDiff },
    /// The call failed, with a human-readable description.
    Failure { message: String },
}

/// The running state of one task's call sequence: the tentative result bytes,
/// the accumulated main-trie and offchain diffs, and the first failure, if
/// one happened.
pub struct Orchestrator {
    pub result: Vec<u8>,
    pub storage_diff: StorageDiff,
    pub offchain_diff: StorageDiff,
    pub error: Option<String>,
}

/// The effect of one call's outcome on the running state: a success replaces
/// the running diffs with the returned ones and keeps the return bytes as the
/// tentative result; a failure captures the message and resets the running
/// main-trie diff to empty, so that no change is partially applied.
pub open spec fn outcome_step(pre: Orchestrator, outcome: CallOutcome, post: Orchestrator) -> bool {
    match outcome {
        CallOutcome::Success { result, storage_diff, offchain_diff } => {
            &&& post.result == result
            &&& post.storage_diff == storage_diff
            &&& post.offchain_diff == offchain_diff
            &&& post.error is None
        },
        CallOutcome::Failure { message } => {
            &&& post.error == Some(message)
            &&& post.storage_diff@ == Map::<Seq<u8>, Option<Seq<u8>>>::empty()
            &&& post.result == pre.result
            &&& post.offchain_diff == pre.offchain_diff
        },
    }
}

/// The pairs hand out exactly the bindings of the mapping: every pair is a
/// binding, every binding appears, and no key repeats.
pub open spec fn pairs_bind(
    m: Map<Seq<u8>, Option<Seq<u8>>>,
    pairs: Vec<(Vec<u8>, Option<Vec<u8>>)>,
) -> bool {
    &&& forall|i: int|
        0 <= i < pairs@.len() ==> #[trigger] m.contains_pair(pairs@[i].0@, opt_view(pairs@[i].1))
    &&& forall|k: Seq<u8>|
        m.dom().contains(k) ==> exists|i: int|
            0 <= i < pairs@.len() && #[trigger] pairs@[i].0@ == k
    &&& forall|i: int, j: int| 0 <= i < j < pairs@.len() ==> pairs@[i].0@ != pairs@[j].0@
}

/// The response a finished orchestration emits: a captured failure yields a
/// message-only error response and no diff; otherwise the last return bytes
/// and the accumulated main-trie diff, expressed as key to optional value
/// pairs whose order carries no meaning.
pub open spec fn responds(o: Orchestrator, r: TaskResponse) -> bool {
    match o.error {
        Some(m) => r == TaskResponse::Error(m),
        None => {
            &&& r matches TaskResponse::Call(c)
            &&& c.result == o.result
            &&& pairs_bind(o.storage_diff@, c.storage_diff)
        },
    }
}

impl Orchestrator {
    /// Both diffs are well-formed.
    pub open spec fn wf(&self) -> bool {
        self.storage_diff.wf() && self.offchain_diff.wf()
    }

    /// A fresh orchestration: empty result bytes, empty diffs, no failure.
    pub fn new() -> (o: Orchestrator)
        ensures
            o.wf(),
            o.result@ == Seq::<u8>::empty(),
            o.storage_diff@ == Map::<Seq<u8>, Option<Seq<u8>>>::empty(),
            o.offchain_diff@ == Map::<Seq<u8>, Option<Seq<u8>>>::empty(),
            o.error is None,
    {
        Orchestrator {
            result: Vec::new(),
            storage_diff: StorageDiff::empty(),
            offchain_diff: StorageDiff::empty(),
            error: None,
        }
    }

    /// Whether a failure has been captured. The sequence then stops: no
    /// further pair is processed.
    pub fn has_failed(&self) -> (b: bool)
        ensures
            b == (self.error is Some),
    {
        match &self.error {
            Some(_) => true,
            None => false,
        }
    }

    /// Applies the outcome of the next call in the sequence.
    pub fn apply_outcome(&mut self, outcome: CallOutcome)
        requires
            old(self).wf(),
            old(self).error is None,
            outcome matches CallOutcome::Success { storage_diff, offchain_diff, .. }
                ==> storage_diff.wf() && offchain_diff.wf(),
        ensures
            final(self).wf(),
            outcome_step(*old(self), outcome, *final(self)),
    {
        match outcome {
            CallOutcome::Success { result, storage_diff, offchain_diff } => {
                self.result = result;
                self.storage_diff = storage_diff;
                self.offchain_diff = offchain_diff;
            },
            CallOutcome::Failure { message } => {
                self.error = Some(message);
                self.storage_diff = StorageDiff::empty();
            },
        }
    }

    /// Collapses the finished sequence into the single response reported for
    /// the task.
    pub fn into_response(self) -> (r: TaskResponse)
        requires
            self.wf(),
        ensures
            responds(self, r),
    {
        match self.error {
            Some(message) => TaskResponse::Error(message),
            None => {
                let pairs = self.storage_diff.to_pairs();
                TaskResponse::Call(CallResponse { result: self.result, storage_diff: pairs })
            },
        }
    }
}

/// A sequence that never ran a call responds with success, empty result
/// bytes, and an empty diff.
pub proof fn lemma_empty_sequence(o: Orchestrator, r: TaskResponse)
    requires
        o.error is None,
        o.result@ == Seq::<u8>::empty(),
        o.storage_diff@ == Map::<Seq<u8>, Option<Seq<u8>>>::empty(),
        responds(o, r),
    ensures
        r matches TaskResponse::Call(c) && c.result@ == Seq::<u8>::empty() && c.storage_diff@.len()
            == 0,
{
    let c = choose|c: CallResponse| r == TaskResponse::Call(c);
    if c.storage_diff@.len() > 0 {
        assert(o.storage_diff@.contains_pair(c.storage_diff@[0].0@, opt_view(c.storage_diff@[0].1)));
    }
}

/// A two-call sequence where the first call writes a key and the second call,
/// starting from the first call's diff, writes the same key: the final diff
/// holds the later value only, and the response hands out exactly that one
/// binding.
pub proof fn lemma_later_write_wins_sequence(
    o0: Orchestrator,
    out1: CallOutcome,
    o1: Orchestrator,
    out2: CallOutcome,
    o2: Orchestrator,
    k: Seq<u8>,
    v1: Option<Seq<u8>>,
    v2: Option<Seq<u8>>,
    r: TaskResponse,
)
    requires
        o0.storage_diff@ == Map::<Seq<u8>, Option<Seq<u8>>>::empty(),
        outcome_step(o0, out1, o1),
        out1 matches CallOutcome::Success { .. },
        o1.storage_diff@ == Map::<Seq<u8>, Option<Seq<u8>>>::empty().insert(k, v1),
        outcome_step(o1, out2, o2),
        out2 matches CallOutcome::Success { .. },
        o2.storage_diff@ == o1.storage_diff@.insert(k, v2),
        responds(o2, r),
    ensures
        o2.storage_diff@ == Map::<Seq<u8>, Option<Seq<u8>>>::empty().insert(k, v2),
        r matches TaskResponse::Call(c) && c.storage_diff@.len() == 1 && c.storage_diff@[0].0@ == k
            && opt_view(c.storage_diff@[0].1) == v2,
{
    crate::diff::lemma_later_write_wins(Map::empty(), k, v1, v2);
    let m = o2.storage_diff@;
    match r {
        TaskResponse::Call(c) => {
            let pairs = c.storage_diff;
            assert(m.dom().contains(k));
            let i = choose|i: int| 0 <= i < pairs@.len() && pairs@[i].0@ == k;
            assert(pairs@.len() >= 1);
            if pairs@.len() >= 2 {
                assert(m.contains_pair(pairs@[0].0@, opt_view(pairs@[0].1)));
                assert(m.contains_pair(pairs@[1].0@, opt_view(pairs@[1].1)));
                assert(pairs@[0].0@ == k && pairs@[1].0@ == k);
            }
            assert(m.contains_pair(pairs@[0].0@, opt_view(pairs@[0].1)));
        },
        _ => {
            assert(false);
        },
    }
}

/// A failed call discards every accumulated change: after a failure outcome
/// the running main-trie diff is empty, and the sequence's response is a
/// message-only error, even if earlier calls succeeded.
pub proof fn lemma_failure_discards_diff(
    pre: Orchestrator,
    outcome: CallOutcome,
    post: Orchestrator,
    r: TaskResponse,
)
    requires
        outcome_step(pre, outcome, post),
        outcome matches CallOutcome::Failure { .. },
        responds(post, r),
    ensures
        post.storage_diff@ == Map::<Seq<u8>, Option<Seq<u8>>>::empty(),
        r matches TaskResponse::Error(_),
{
}

} // verus!
