//! The typed failure taxonomy of the boot sequence.

use vstd::prelude::*;

verus! {

use crate::status::Status;

/// One of the three exports that the hosting resolver library must provide.
#[derive(Clone, Copy, Debug, PartialEq, Eq, Structural)]
pub enum Export {
    /// `hostfxr_close`: releases an initialized host context.
    Close,
    /// `hostfxr_initialize_for_runtime_config`: opens a host context from a
    /// runtime configuration file.
    InitializeForRuntimeConfig,
    /// `hostfxr_get_runtime_delegate`: hands out a hosting delegate such as
    /// "load assembly and get function pointer".
    GetRuntimeDelegate,
}

impl Export {
    /// The exact symbol name under which this export is resolved.
    pub fn symbol_name(&self) -> (r: &'static str)
        ensures
            *self == Export::Close ==> r@ == "hostfxr_close"@,
            *self == Export::InitializeForRuntimeConfig ==> r@
                == "hostfxr_initialize_for_runtime_config"@,
            *self == Export::GetRuntimeDelegate ==> r@ == "hostfxr_get_runtime_delegate"@,
    {
        match self {
            Export::Close => "hostfxr_close",
            Export::InitializeForRuntimeConfig => "hostfxr_initialize_for_runtime_config",
            Export::GetRuntimeDelegate => "hostfxr_get_runtime_delegate",
        }
    }
}

/// Everything that can make a boot run fail in an ordinary, reported way.
///
/// The first failure short-circuits the remaining sequence; its raw code is
/// preserved verbatim. A failing close of the host context is deliberately not
/// here: it violates a usage invariant and is promoted to an unrecoverable
/// fault (see [`crate::boot::Outcome::Fault`]).
#[derive(Clone, Copy, Debug, PartialEq, Eq, Structural)]
pub enum Error {
    /// The boot payload is not a JSON object carrying the two required
    /// string fields.
    InvalidBootPayload,
    /// The hosting resolver library could not be discovered on this machine.
    DiscoveryFailure(Status),
    /// The resolver library lacks one of its three required exports.
    SymbolResolutionFailure(Export),
    /// `hostfxr_initialize_for_runtime_config` reported a failure: no host
    /// context was produced.
    RuntimeInitializationFailure(Status),
    /// Resolving the managed entry point failed, either when requesting the
    /// "load assembly and get function pointer" delegate or when invoking it.
    EntryPointResolutionFailure(Status),
    /// A text handed to a native call contains an embedded terminator
    /// character where none is allowed.
    InvalidParameterEncoding,
    /// The managed entry point returned a nonzero code, passed on verbatim.
    ManagedEntryPointFailure(i32),
}

} // verus!
