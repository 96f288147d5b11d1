//! The boot sequence as a verified step machine.
//!
//! The sequence that starts the managed runtime is strictly ordered: locate
//! the hosting resolver, bind its three exports, initialize a host context
//! from the runtime configuration, resolve the managed entry point, invoke it,
//! and close the context exactly once on every exit path. Each native call
//! crosses a boundary that no type system reaches, so the machine here owns
//! every decision while an unverified driver owns the calls: the machine hands
//! out one [`Action`] at a time, the driver performs it and feeds the raw
//! result back as an [`Event`].

use vstd::prelude::*;

verus! {

use crate::error::{Error, Export};
use crate::payload::Param;
use crate::status::Status;
use crate::text::{
    entry_buffer, entry_buffer_of, no_nul_bytes, no_nul_units, utf16_of, wide_c_pair,
    wide_c_string, wide_pair,
};

/// The discovery primitive's "buffer too small" code: the only first-call
/// result under which discovery proceeds.
pub const HOST_API_BUFFER_TOO_SMALL: u32 = 0x8000_8098;

/// The wide units (before termination) of the runtime configuration path
/// derived from the root directory.
pub open spec fn config_path_units(root: Seq<char>) -> Seq<u16> {
    wide_pair(root, "/Dalamud.runtimeconfig.json"@)
}

/// The wide units (before termination) of the entry assembly path derived
/// from the root directory.
pub open spec fn assembly_path_units(root: Seq<char>) -> Seq<u16> {
    wide_pair(root, "/Dalamud.dll"@)
}

/// The wide units (before termination) of the fully qualified name of the
/// entry type. The containing type name must differ from the assembly's own
/// short name; the resolver, not this crate, enforces that.
pub open spec fn entry_type_units() -> Seq<u16> {
    utf16_of("Dalamud.Boot.EntryPoint, Dalamud"@)
}

/// The wide units (before termination) of the entry method name.
pub open spec fn entry_method_units() -> Seq<u16> {
    utf16_of("Initialize"@)
}

/// How a finished boot run ended.
#[derive(Clone, Copy, Debug, PartialEq, Eq, Structural)]
pub enum Outcome {
    /// The managed entry point ran and returned zero.
    Success,
    /// An ordinary, typed failure, reported with its raw code preserved.
    Failure(Error),
    /// Closing the host context itself failed. That breaks a usage invariant
    /// that should be structurally impossible, so it is kept apart from the
    /// ordinary failures: the caller must treat it as unrecoverable.
    Fault,
}

/// What the driver must do next. Wide strings carry their terminator.
#[derive(Debug, PartialEq)]
pub enum Action {
    /// Call the discovery primitive with a null buffer to learn the required
    /// length in wide units.
    ProbePathLength,
    /// Allocate exactly `len` wide units and call the discovery primitive
    /// again to read the resolver path.
    ReadPath { len: usize },
    /// Load the resolver library at `path` and resolve its three exports.
    /// The module must never be unloaded afterwards: a started runtime does
    /// not survive its resolver, so the handle is process-scoped for good.
    BindHostLibrary { path: Vec<u16> },
    /// Call the initialize-for-runtime-config export with the configuration
    /// path; a success opens the one host context of this run.
    InitializeRuntime { config_path: Vec<u16> },
    /// Request the "load assembly and get function pointer" delegate from the
    /// resolver.
    GetRuntimeDelegate,
    /// Invoke that delegate: load the entry assembly in its own load context
    /// (starting the runtime if need be) and resolve the entry method. A null
    /// delegate-signature name is passed, so the callee is taken to accept
    /// `(buffer pointer, length)` and return a 32-bit status.
    LoadEntryPoint { assembly_path: Vec<u16>, entry_type: Vec<u16>, entry_method: Vec<u16> },
    /// Invoke the resolved entry point synchronously with the buffer and its
    /// byte length before the terminator. The callee must not retain the
    /// buffer pointer beyond the call.
    InvokeEntryPoint { buffer: Vec<u8> },
    /// Call the close export on the one open host context.
    CloseContext,
    /// The run is over; no further native call may be made.
    Finish { outcome: Outcome },
}

/// The raw result of the action the driver just performed.
#[derive(Debug, PartialEq)]
pub enum Event {
    /// Result of [`Action::ProbePathLength`]: the status and the length the
    /// primitive reported.
    ProbeDone { status: Status, required: usize },
    /// Result of [`Action::ReadPath`]: the status and the buffer, which on
    /// success holds the resolver path including its terminator.
    ReadDone { status: Status, units: Vec<u16> },
    /// Result of [`Action::BindHostLibrary`]: whether each export was found.
    BindDone { close_found: bool, init_found: bool, delegate_found: bool },
    /// Result of [`Action::InitializeRuntime`].
    InitDone { status: Status },
    /// Result of [`Action::GetRuntimeDelegate`].
    DelegateDone { status: Status },
    /// Result of [`Action::LoadEntryPoint`].
    LoadDone { status: Status },
    /// Return code of the managed entry point.
    EntryReturned { code: i32 },
    /// Result of [`Action::CloseContext`].
    CloseDone { status: Status },
}

/// Where the machine stands: which event it waits for, or how it ended.
#[derive(Clone, Copy, Debug, PartialEq, Eq)]
pub enum Phase {
    AwaitProbe,
    AwaitRead { required: usize },
    AwaitBind,
    AwaitInit,
    AwaitDelegate,
    AwaitLoad,
    AwaitEntry,
    /// The context is about to be closed; `pending` is the result to report
    /// once it is.
    AwaitClose { pending: Result<(), Error> },
    Done { outcome: Outcome },
}

/// The boot machine: the decisions of one boot run.
pub struct Boot {
    /// The root directory named by the payload, from which the assembly and
    /// configuration paths are derived.
    pub root: String,
    /// The payload text itself, handed verbatim to the managed entry point.
    pub payload: String,
    pub phase: Phase,
    /// Whether initialization has opened the host context of this run.
    pub created: bool,
    /// How many times the machine has demanded a close call.
    pub closes: u8,
}

/// What the managed entry point's return code means: zero is success, any
/// other value an application-level failure carried verbatim.
pub open spec fn entry_outcome(code: i32) -> Result<(), Error> {
    if code == 0 {
        Ok(())
    } else {
        Err(Error::ManagedEntryPointFailure(code))
    }
}

/// Interpret the managed entry point's return code.
pub fn interpret_entry_code(code: i32) -> (r: Result<(), Error>)
    ensures
        r == entry_outcome(code),
{
    if code == 0 {
        Ok(())
    } else {
        Err(Error::ManagedEntryPointFailure(code))
    }
}

/// The outcome a close-pending result turns into once the close succeeded.
pub open spec fn outcome_of(pending: Result<(), Error>) -> Outcome {
    match pending {
        Ok(_) => Outcome::Success,
        Err(e) => Outcome::Failure(e),
    }
}

/// The step that reports `e` at once: possible only while no context is open,
/// so the run ends without a close call.
pub open spec fn fails_now(pre: Boot, post: Boot, action: Action, e: Error) -> bool {
    &&& post == (Boot { phase: Phase::Done { outcome: Outcome::Failure(e) }, ..pre })
    &&& action == (Action::Finish { outcome: Outcome::Failure(e) })
}

/// The step that demands the one close call of the run, holding `pending`
/// back until the context is closed.
pub open spec fn closes_with(pre: Boot, post: Boot, action: Action, pending: Result<
    (),
    Error,
>) -> bool {
    &&& post.phase == (Phase::AwaitClose { pending })
    &&& post.created == pre.created
    &&& post.closes == pre.closes + 1
    &&& post.root == pre.root
    &&& post.payload == pre.payload
    &&& action == Action::CloseContext
}

/// The full transition relation of the machine: what one step does for every
/// phase and event.
pub open spec fn step_rel(pre: Boot, event: Event, post: Boot, action: Action) -> bool {
    match (pre.phase, event) {
        (Phase::AwaitProbe, Event::ProbeDone { status, required }) => if status.0
            == HOST_API_BUFFER_TOO_SMALL {
            &&& post == (Boot { phase: Phase::AwaitRead { required }, ..pre })
            &&& action == (Action::ReadPath { len: required })
        } else {
            fails_now(pre, post, action, Error::DiscoveryFailure(status))
        },
        (Phase::AwaitRead { .. }, Event::ReadDone { status, units }) => if status.spec_is_ok() {
            &&& post == (Boot { phase: Phase::AwaitBind, ..pre })
            &&& action matches Action::BindHostLibrary { path } && path@ == units@
        } else {
            fails_now(pre, post, action, Error::DiscoveryFailure(status))
        },
        (Phase::AwaitBind, Event::BindDone { close_found, init_found, delegate_found }) => if !close_found {
            fails_now(pre, post, action, Error::SymbolResolutionFailure(Export::Close))
        } else if !init_found {
            fails_now(
                pre,
                post,
                action,
                Error::SymbolResolutionFailure(Export::InitializeForRuntimeConfig),
            )
        } else if !delegate_found {
            fails_now(pre, post, action, Error::SymbolResolutionFailure(Export::GetRuntimeDelegate))
        } else if no_nul_units(config_path_units(pre.root@)) {
            &&& post == (Boot { phase: Phase::AwaitInit, ..pre })
            &&& action matches Action::InitializeRuntime { config_path } && config_path@
                == config_path_units(pre.root@).push(0u16)
        } else {
            fails_now(pre, post, action, Error::InvalidParameterEncoding)
        },
        (Phase::AwaitInit, Event::InitDone { status }) => if status.spec_is_ok() {
            &&& post == (Boot { phase: Phase::AwaitDelegate, created: true, ..pre })
            &&& action == Action::GetRuntimeDelegate
        } else {
            fails_now(pre, post, action, Error::RuntimeInitializationFailure(status))
        },
        (Phase::AwaitDelegate, Event::DelegateDone { status }) => if !status.spec_is_ok() {
            closes_with(pre, post, action, Err(Error::EntryPointResolutionFailure(status)))
        } else if no_nul_units(assembly_path_units(pre.root@)) && no_nul_units(entry_type_units())
            && no_nul_units(entry_method_units()) {
            &&& post == (Boot { phase: Phase::AwaitLoad, ..pre })
            &&& action matches Action::LoadEntryPoint { assembly_path, entry_type, entry_method }
                && assembly_path@ == assembly_path_units(pre.root@).push(0u16) && entry_type@
                == entry_type_units().push(0u16) && entry_method@ == entry_method_units().push(0u16)
        } else {
            closes_with(pre, post, action, Err(Error::InvalidParameterEncoding))
        },
        (Phase::AwaitLoad, Event::LoadDone { status }) => if !status.spec_is_ok() {
            closes_with(pre, post, action, Err(Error::EntryPointResolutionFailure(status)))
        } else if no_nul_bytes(vstd::utf8::encode_utf8(pre.payload@)) {
            &&& post == (Boot { phase: Phase::AwaitEntry, ..pre })
            &&& action matches Action::InvokeEntryPoint { buffer } && buffer@ == entry_buffer_of(
                pre.payload@,
            )
        } else {
            closes_with(pre, post, action, Err(Error::InvalidParameterEncoding))
        },
        (Phase::AwaitEntry, Event::EntryReturned { code }) => closes_with(
            pre,
            post,
            action,
            entry_outcome(code),
        ),
        (Phase::AwaitClose { pending }, Event::CloseDone { status }) => if status.spec_is_ok() {
            &&& post == (Boot { phase: Phase::Done { outcome: outcome_of(pending) }, ..pre })
            &&& action == (Action::Finish { outcome: outcome_of(pending) })
        } else {
            &&& post == (Boot { phase: Phase::Done { outcome: Outcome::Fault }, ..pre })
            &&& action == (Action::Finish { outcome: Outcome::Fault })
        },
        _ => false,
    }
}

impl Boot {
    /// Well-formedness of a run: the context is open exactly between a
    /// successful initialization and the close call, and the close call is
    /// demanded at most once, only for a created context.
    pub open spec fn wf(self) -> bool {
        &&& self.closes <= 1
        &&& (!self.created ==> self.closes == 0)
        &&& match self.phase {
            Phase::AwaitProbe | Phase::AwaitRead { .. } | Phase::AwaitBind | Phase::AwaitInit =>
                !self.created && self.closes == 0,
            Phase::AwaitDelegate | Phase::AwaitLoad | Phase::AwaitEntry => self.created
                && self.closes == 0,
            Phase::AwaitClose { .. } => self.created && self.closes == 1,
            Phase::Done { .. } => self.created ==> self.closes == 1,
        }
    }

    /// Which event the machine is ready for. On a successful read the buffer
    /// is what the discovery primitive populated: a path including its
    /// terminator, as the primitive documents.
    pub open spec fn expects(self, event: Event) -> bool {
        match (self.phase, event) {
            (Phase::AwaitProbe, Event::ProbeDone { .. }) => true,
            (Phase::AwaitRead { .. }, Event::ReadDone { status, units }) => status.spec_is_ok()
                ==> units@.len() >= 1 && units@[units@.len() - 1] == 0,
            (Phase::AwaitBind, Event::BindDone { .. }) => true,
            (Phase::AwaitInit, Event::InitDone { .. }) => true,
            (Phase::AwaitDelegate, Event::DelegateDone { .. }) => true,
            (Phase::AwaitLoad, Event::LoadDone { .. }) => true,
            (Phase::AwaitEntry, Event::EntryReturned { .. }) => true,
            (Phase::AwaitClose { .. }, Event::CloseDone { .. }) => true,
            _ => false,
        }
    }

    /// Begin a run for a decoded payload. The machine keeps the root
    /// directory and the payload text; the first action is the length probe.
    pub fn new(param: Param, payload_text: String) -> (r: (Boot, Action))
        ensures
            r.0.wf(),
            r.0.phase == Phase::AwaitProbe,
            r.0.root == param.dalamud_root,
            r.0.payload == payload_text,
            !r.0.created,
            r.0.closes == 0,
            r.1 == Action::ProbePathLength,
    {
        let boot = Boot {
            root: param.dalamud_root,
            payload: payload_text,
            phase: Phase::AwaitProbe,
            created: false,
            closes: 0,
        };
        (boot, Action::ProbePathLength)
    }

    /// Feed the result of the last action in and receive the next action.
    /// Every native result is checked at once: the first failure
    /// short-circuits the rest of the sequence, closing the context first
    /// when one is open.
    pub fn step(&mut self, event: Event) -> (action: Action)
        requires
            old(self).wf(),
            !(old(self).phase is Done),
            old(self).expects(event),
        ensures
            final(self).wf(),
            final(self).root == old(self).root,
            final(self).payload == old(self).payload,
            step_rel(*old(self), event, *final(self), action),
    {
        match (self.phase, event) {
            (Phase::AwaitProbe, Event::ProbeDone { status, required }) => {
                if status.0 == HOST_API_BUFFER_TOO_SMALL {
                    self.phase = Phase::AwaitRead { required };
                    Action::ReadPath { len: required }
                } else {
                    self.fail_now(Error::DiscoveryFailure(status))
                }
            },
            (Phase::AwaitRead { .. }, Event::ReadDone { status, units }) => {
                if status.is_ok() {
                    self.phase = Phase::AwaitBind;
                    Action::BindHostLibrary { path: units }
                } else {
                    self.fail_now(Error::DiscoveryFailure(status))
                }
            },
            (Phase::AwaitBind, Event::BindDone { close_found, init_found, delegate_found }) => {
                if !close_found {
                    self.fail_now(Error::SymbolResolutionFailure(Export::Close))
                } else if !init_found {
                    self.fail_now(
                        Error::SymbolResolutionFailure(Export::InitializeForRuntimeConfig),
                    )
                } else if !delegate_found {
                    self.fail_now(Error::SymbolResolutionFailure(Export::GetRuntimeDelegate))
                } else {
                    match wide_c_pair(self.root.as_str(), "/Dalamud.runtimeconfig.json") {
                        Ok(config_path) => {
                            self.phase = Phase::AwaitInit;
                            Action::InitializeRuntime { config_path }
                        },
                        Err(e) => self.fail_now(e),
                    }
                }
            },
            (Phase::AwaitInit, Event::InitDone { status }) => {
                if status.is_ok() {
                    self.created = true;
                    self.phase = Phase::AwaitDelegate;
                    Action::GetRuntimeDelegate
                } else {
                    self.fail_now(Error::RuntimeInitializationFailure(status))
                }
            },
            (Phase::AwaitDelegate, Event::DelegateDone { status }) => {
                if status.is_err() {
                    self.close_with(Err(Error::EntryPointResolutionFailure(status)))
                } else {
                    let assembly = wide_c_pair(self.root.as_str(), "/Dalamud.dll");
                    let ty = wide_c_string("Dalamud.Boot.EntryPoint, Dalamud");
                    let method = wide_c_string("Initialize");
                    match (assembly, ty, method) {
                        (Ok(assembly_path), Ok(entry_type), Ok(entry_method)) => {
                            self.phase = Phase::AwaitLoad;
                            Action::LoadEntryPoint { assembly_path, entry_type, entry_method }
                        },
                        _ => self.close_with(Err(Error::InvalidParameterEncoding)),
                    }
                }
            },
            (Phase::AwaitLoad, Event::LoadDone { status }) => {
                if status.is_err() {
                    self.close_with(Err(Error::EntryPointResolutionFailure(status)))
                } else {
                    match entry_buffer(self.payload.as_str()) {
                        Ok(buffer) => {
                            self.phase = Phase::AwaitEntry;
                            Action::InvokeEntryPoint { buffer }
                        },
                        Err(e) => self.close_with(Err(e)),
                    }
                }
            },
            (Phase::AwaitEntry, Event::EntryReturned { code }) => {
                self.close_with(interpret_entry_code(code))
            },
            (Phase::AwaitClose { pending }, Event::CloseDone { status }) => {
                if status.is_ok() {
                    let outcome = match pending {
                        Ok(_) => Outcome::Success,
                        Err(e) => Outcome::Failure(e),
                    };
                    self.phase = Phase::Done { outcome };
                    Action::Finish { outcome }
                } else {
                    self.phase = Phase::Done { outcome: Outcome::Fault };
                    Action::Finish { outcome: Outcome::Fault }
                }
            },
            _ => {
                // no other pairing of phase and event is ever expected
                proof {
                    assert(false);
                }
                Action::ProbePathLength
            },
        }
    }

    /// End the run with an ordinary failure while no context is open.
    fn fail_now(&mut self, e: Error) -> (action: Action)
        requires
            !(old(self).phase is AwaitClose),
            !(old(self).phase is Done),
        ensures
            fails_now(*old(self), *final(self), action, e),
    {
        self.phase = Phase::Done { outcome: Outcome::Failure(e) };
        Action::Finish { outcome: Outcome::Failure(e) }
    }

    /// Demand the one close call of the run, keeping `pending` to report
    /// afterwards.
    fn close_with(&mut self, pending: Result<(), Error>) -> (action: Action)
        requires
            old(self).closes < 1,
        ensures
            closes_with(*old(self), *final(self), action, pending),
    {
        self.closes = self.closes + 1;
        self.phase = Phase::AwaitClose { pending };
        Action::CloseContext
    }
}

/// Law: however a run ends, the close export was demanded exactly once when a
/// context was created — on every exit path, early failure included — and
/// never when none was.
pub proof fn lemma_close_exactly_once(b: Boot)
    requires
        b.wf(),
        b.phase is Done,
    ensures
        b.created ==> b.closes == 1,
        !b.created ==> b.closes == 0,
        b.closes <= 1,
{
}

/// Law: a failing close is never reported as an ordinary error, whatever
/// result was pending: it ends the run as an unrecoverable fault, for it
/// breaks an invariant that correct use makes structurally impossible.
pub proof fn lemma_close_failure_is_fault(
    pre: Boot,
    post: Boot,
    pending: Result<(), Error>,
    status: Status,
    action: Action,
)
    requires
        pre.phase == (Phase::AwaitClose { pending }),
        !status.spec_is_ok(),
        step_rel(pre, Event::CloseDone { status }, post, action),
    ensures
        action == (Action::Finish { outcome: Outcome::Fault }),
        post.phase == (Phase::Done { outcome: Outcome::Fault }),
{
}

/// Law: a failing length probe ends the run at once with the discovery
/// failure; the machine is done and demands no second discovery call.
pub proof fn lemma_probe_failure_stops(
    pre: Boot,
    post: Boot,
    status: Status,
    required: usize,
    action: Action,
)
    requires
        pre.phase is AwaitProbe,
        status.0 != HOST_API_BUFFER_TOO_SMALL,
        step_rel(pre, Event::ProbeDone { status, required }, post, action),
    ensures
        action == (Action::Finish { outcome: Outcome::Failure(Error::DiscoveryFailure(status)) }),
        post.phase is Done,
{
}

} // verus!
