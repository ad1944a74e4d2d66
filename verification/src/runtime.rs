//! The runtime-version handler, and the trusted boundary to the runtime
//! virtual machine for instantiating a compiled module.

use vstd::prelude::*;
use smoldot::executor::host::HeapPages;
use smoldot::executor::host::HostVmPrototype;
use smoldot::executor::host::NewErr;
use smoldot::executor::vm::ExecHint;
use crate::task::TaskResponse;

verus! {

/// Number of heap pages every runtime instance is configured with.
pub const VM_HEAP_PAGES: u32 = 2048;

/// The fixed configuration every runtime instance is constructed with: the
/// heap size, a single-shot execution hint, and unresolved imports
/// disallowed.
pub struct VmConfig {
    pub heap_pages: u32,
    pub oneshot: bool,
    pub allow_unresolved_imports: bool,
}

/// The configuration used for every runtime instance of this executor.
pub fn vm_config() -> (c: VmConfig)
    ensures
        c.heap_pages == VM_HEAP_PAGES,
        c.oneshot,
        !c.allow_unresolved_imports,
{
    VmConfig { heap_pages: VM_HEAP_PAGES, oneshot: true, allow_unresolved_imports: false }
}

/// The error the virtual machine reports when a module cannot be
/// instantiated.
#[verifier::external_type_specification]
#[verifier::external_body]
pub struct ExNewErr(NewErr);

/// Whether a compiled module instantiates under the given configuration: a
/// pure function of the module bytes and the configuration.
pub uninterp spec fn vm_instantiates(
    wasm: Seq<u8>,
    heap_pages: u32,
    oneshot: bool,
    allow_unresolved_imports: bool,
) -> bool;

/// The version metadata a module reports of itself under the given
/// configuration: a pure function of the module bytes and the configuration.
/// The configuration matters because a module without an embedded version
/// section has its version computed by executing its `Core_version` entry
/// point, which can observe the configured heap size.
pub uninterp spec fn version_of(
    wasm: Seq<u8>,
    heap_pages: u32,
    oneshot: bool,
    allow_unresolved_imports: bool,
) -> Seq<u8>;

/// Relies on smoldot's `HostVmPrototype::new` and
/// `HostVmPrototype::runtime_version`: whether instantiation succeeds, and
/// which version blob an instantiated module reports, are functions of the
/// module bytes and the configuration alone. The bound on `heap_pages` keeps
/// smoldot's page arithmetic within `u32`.
#[verifier::external_body]
fn instantiate_and_read_version(
    wasm: &Vec<u8>,
    heap_pages: u32,
    oneshot: bool,
    allow_unresolved_imports: bool,
) -> (r: Result<Vec<u8>, NewErr>)
    requires
        heap_pages <= 65536,
    ensures
        r is Ok <==> vm_instantiates(wasm@, heap_pages, oneshot, allow_unresolved_imports),
        r matches Ok(v) ==> v@ == version_of(wasm@, heap_pages, oneshot, allow_unresolved_imports),
{
    let exec_hint = if oneshot {
        ExecHint::ValidateAndExecuteOnce
    } else {
        ExecHint::ValidateAndCompile
    };
    match HostVmPrototype::new(smoldot::executor::host::Config {
        module: wasm,
        heap_pages: HeapPages::from(heap_pages),
        exec_hint,
        allow_unresolved_imports,
    }) {
        Ok(vm) => Ok(vm.runtime_version().as_ref().to_vec()),
        Err(e) => Err(e),
    }
}

/// Relies on the `Display` implementation of smoldot's instantiation error
/// for the human-readable failure message.
#[verifier::external_body]
fn new_err_message(e: &NewErr) -> (r: String)
{
    format!("{}", e)
}

/// The response for a task whose module failed to instantiate: a structured
/// error carrying the failure's description, so that one bad module cannot
/// take the whole service down.
pub fn instantiation_failure_response(message: String) -> (r: TaskResponse)
    ensures
        r == TaskResponse::Error(message),
{
    TaskResponse::Error(message)
}

/// Wraps the version blob read from an instantiated runtime into the response
/// reported for a runtime-version task.
pub fn runtime_version_response(version: Vec<u8>) -> (r: TaskResponse)
    ensures
        r == TaskResponse::RuntimeVersion(version),
{
    TaskResponse::RuntimeVersion(version)
}

/// Handles a runtime-version task: instantiates the runtime once, with the
/// fixed configuration, and returns its self-reported version metadata as an
/// opaque byte blob. A module that does not instantiate yields an error
/// response instead of failing the whole service. No storage access occurs.
pub fn runtime_version(wasm: &Vec<u8>) -> (r: TaskResponse)
    ensures
        vm_instantiates(wasm@, VM_HEAP_PAGES, true, false) ==> (r matches
            TaskResponse::RuntimeVersion(v) && v@ == version_of(wasm@, VM_HEAP_PAGES, true, false)),
        !vm_instantiates(wasm@, VM_HEAP_PAGES, true, false) ==> r matches TaskResponse::Error(_),
{
    let config = vm_config();
    match instantiate_and_read_version(
        wasm,
        config.heap_pages,
        config.oneshot,
        config.allow_unresolved_imports,
    ) {
        Ok(version) => runtime_version_response(version),
        Err(e) => instantiation_failure_response(new_err_message(&e)),
    }
}

} // verus!
