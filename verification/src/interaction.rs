//! The runtime interaction loop's decision logic: how each pause of the
//! resumable virtual-machine computation is satisfied, either from local
//! knowledge or by querying the remote storage oracle.

use vstd::prelude::*;
use crate::signature::is_magic_sig;
use crate::signature::is_magic_signature;

verus! {

/// A pause of the resumable runtime computation: the minimal request the
/// virtual machine exposes so that the loop can resume it.
pub enum VmPause {
    /// The VM needs the value of `key` in the block's storage.
    StorageGet { key: Vec<u8> },
    /// The VM needs the list of keys starting with `prefix`, ascending.
    PrefixKeys { prefix: Vec<u8> },
    /// The VM needs the key that lexicographically follows `key`.
    NextKey { key: Vec<u8> },
    /// The VM needs a signature over `message` checked against `public_key`.
    SignatureVerification { message: Vec<u8>, signature: Vec<u8>, public_key: Vec<u8> },
}

/// An answer injected back into the paused virtual machine.
pub enum VmResume {
    /// The (optional) storage value for a storage-get pause.
    StorageValue { value: Option<Vec<u8>> },
    /// The ordered key list for a prefix-keys pause.
    Keys { keys: Vec<Vec<u8>> },
    /// The (optional) following key for a next-key pause.
    NextKey { key: Option<Vec<u8>> },
    /// Report the signature as valid without checking it (bypass).
    SignatureOk,
    /// Perform real cryptographic verification and resume with its result.
    SignatureCheck,
}

/// What the loop does with a pause: either resume the virtual machine at once
/// with an answer known locally, or query the remote storage oracle first.
pub enum PauseStep {
    /// Resume the VM immediately, without touching the oracle.
    Resume(VmResume),
    /// Ask the oracle for the value of `key` at the task's block, then resume
    /// with `storage_value_resume` of the answer.
    QueryStorageGet { key: Vec<u8> },
    /// Ask the oracle for all keys under `prefix`, sorted ascending, then
    /// resume with that ordered list.
    QueryPrefixKeys { prefix: Vec<u8> },
    /// Ask the oracle for the key following `key`, then resume with the
    /// (optional) answer.
    QueryNextKey { key: Vec<u8> },
}

/// Whether a step consults the remote storage oracle.
pub open spec fn step_queries_oracle(s: PauseStep) -> bool {
    !(s matches PauseStep::Resume(_))
}

/// The decision taken for each pause kind:
/// - a storage-get pause is answered by an oracle query for the same key;
/// - a prefix-keys pause with an empty prefix is answered locally with an
///   empty key list (a deliberate, documented short-circuit that avoids an
///   unbounded remote fetch at the price of a wrong full-key enumeration);
///   any other prefix is answered by an oracle query for the same prefix;
/// - a next-key pause is answered by an oracle query for the same key;
/// - a signature-verification pause is bypassed exactly when the task enabled
///   the bypass policy and the signature matches the magic pattern, and is
///   verified for real otherwise.
pub open spec fn pause_step(pause: VmPause, mock_signature_host: bool, s: PauseStep) -> bool {
    match pause {
        VmPause::StorageGet { key } => s == (PauseStep::QueryStorageGet { key }),
        VmPause::PrefixKeys { prefix } => if prefix@.len() == 0 {
            s matches PauseStep::Resume(VmResume::Keys { keys }) && keys@.len() == 0
        } else {
            s == (PauseStep::QueryPrefixKeys { prefix })
        },
        VmPause::NextKey { key } => s == (PauseStep::QueryNextKey { key }),
        VmPause::SignatureVerification { message: _, signature, public_key: _ } => if mock_signature_host
            && is_magic_sig(signature@) {
            s == PauseStep::Resume(VmResume::SignatureOk)
        } else {
            s == PauseStep::Resume(VmResume::SignatureCheck)
        },
    }
}

/// Decides how to satisfy one pause of the virtual machine.
pub fn handle_pause(pause: VmPause, mock_signature_host: bool) -> (s: PauseStep)
    ensures
        pause_step(pause, mock_signature_host, s),
{
    match pause {
        VmPause::StorageGet { key } => PauseStep::QueryStorageGet { key },
        VmPause::PrefixKeys { prefix } => {
            if prefix.len() == 0 {
                PauseStep::Resume(VmResume::Keys { keys: Vec::new() })
            } else {
                PauseStep::QueryPrefixKeys { prefix }
            }
        },
        VmPause::NextKey { key } => PauseStep::QueryNextKey { key },
        VmPause::SignatureVerification { message: _, signature, public_key: _ } => {
            if mock_signature_host && is_magic_signature(signature.as_slice()) {
                PauseStep::Resume(VmResume::SignatureOk)
            } else {
                PauseStep::Resume(VmResume::SignatureCheck)
            }
        },
    }
}

/// The oracle's answer to a storage-get query, normalized before injection:
/// an answer of an empty byte string means "key absent".
pub open spec fn normalized_value(value: Option<Vec<u8>>) -> Option<Vec<u8>> {
    match value {
        Some(b) => if b@.len() == 0 {
            None
        } else {
            Some(b)
        },
        None => None,
    }
}

/// Turns the oracle's answer to a storage-get query into the value injected
/// into the virtual machine: an empty byte string is treated identically to
/// "key absent".
pub fn storage_value_resume(value: Option<Vec<u8>>) -> (r: VmResume)
    ensures
        r == (VmResume::StorageValue { value: normalized_value(value) }),
{
    match value {
        Some(b) => {
            if b.len() == 0 {
                VmResume::StorageValue { value: None }
            } else {
                VmResume::StorageValue { value: Some(b) }
            }
        },
        None => VmResume::StorageValue { value: None },
    }
}

/// Whether `p` is a prefix of `a`.
pub open spec fn has_prefix(a: Seq<u8>, p: Seq<u8>) -> bool {
    p.len() <= a.len() && a.take(p.len() as int) == p
}

/// Whether the first byte string starts with the second.
pub fn bytes_starts_with(a: &Vec<u8>, p: &Vec<u8>) -> (r: bool)
    ensures
        r == has_prefix(a@, p@),
{
    if p.len() > a.len() {
        return false;
    }
    let mut i: usize = 0;
    while i < p.len()
        invariant
            i <= p@.len(),
            p@.len() <= a@.len(),
            forall|j: int| 0 <= j < i ==> a@[j] == p@[j],
        decreases p@.len() - i,
    {
        if a[i] != p[i] {
            proof {
                assert(a@.take(p@.len() as int)[i as int] == a@[i as int]);
            }
            return false;
        }
        i = i + 1;
    }
    proof {
        assert(a@.take(p@.len() as int) =~= p@);
    }
    true
}

/// The key injected back for a next-key pause that enumerates under a prefix:
/// the oracle's answer, unless it falls outside that prefix, in which case the
/// enumeration is over and no further key exists there.
pub open spec fn next_key_in_prefix(answer: Option<Vec<u8>>, prefix: Seq<u8>) -> Option<Vec<u8>> {
    match answer {
        Some(k) => if has_prefix(k@, prefix) {
            Some(k)
        } else {
            None
        },
        None => None,
    }
}

/// Turns the oracle's answer to a next-key query into the key injected back
/// into the virtual machine: an answer that does not start with the prefix
/// under enumeration means the enumeration is over.
pub fn next_key_resume(answer: Option<Vec<u8>>, prefix: &Vec<u8>) -> (r: VmResume)
    ensures
        r == (VmResume::NextKey { key: next_key_in_prefix(answer, prefix@) }),
{
    match answer {
        Some(k) => {
            if bytes_starts_with(&k, prefix) {
                VmResume::NextKey { key: Some(k) }
            } else {
                VmResume::NextKey { key: None }
            }
        },
        None => VmResume::NextKey { key: None },
    }
}

/// An oracle answer of an empty byte string and an absent key inject the very
/// same value into the virtual machine.
pub proof fn lemma_empty_value_is_absent(value: Option<Vec<u8>>)
    requires
        value matches Some(b) && b@.len() == 0,
    ensures
        normalized_value(value) == normalized_value(None::<Vec<u8>>),
{
}

/// A prefix-keys pause with an empty prefix is always answered with an empty
/// key list and never issues an oracle query, regardless of what the remote
/// storage actually contains.
pub proof fn lemma_empty_prefix_empty_keys(pause: VmPause, mock_signature_host: bool, s: PauseStep)
    requires
        pause_step(pause, mock_signature_host, s),
        pause matches VmPause::PrefixKeys { prefix } && prefix@.len() == 0,
    ensures
        !step_queries_oracle(s),
        s matches PauseStep::Resume(VmResume::Keys { keys }) && keys@.len() == 0,
{
}

} // verus!
