//! Verified core of a native bootstrapper that starts a managed runtime inside
//! a host process through the standard hosting resolver (`hostfxr`).
//!
//! The crate holds the decision logic of the boot sequence: status-code
//! translation, the boot-payload shape rules, wide-string and parameter-buffer
//! encoding, and a step-by-step model of the whole locate / bind / initialize /
//! resolve / invoke / close protocol. The native calls themselves (loading the
//! resolver, calling its exports) are performed by an unverified driver that
//! feeds their results back into the [`boot::Boot`] machine.

pub mod boot;
pub mod error;
pub mod payload;
pub mod status;
pub mod text;
