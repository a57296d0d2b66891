//! The error taxonomy of the discovery session.
//!
//! Start-time failures abort the whole start sequence and are surfaced to
//! the caller; best-effort teardown failures are never escalated and have no
//! variant here.

use vstd::prelude::*;
use vstd::string::StringExecFns;

verus! {

/// Why a caller-facing operation failed.
#[derive(Debug)]
pub enum DiscoveryError {
    /// A start was requested while a session is already active.
    AlreadyActive,
    /// No ephemeral port could be bound; carries the binder's report.
    Bind(String),
    /// The local network address could not be determined.
    AddressResolution,
    /// The advertising subsystem could not build or register the presence
    /// record; carries the subsystem's report.
    Advertisement(String),
    /// The session state lock is unavailable after a prior panic.
    Lock,
}

/// The failure string a caller is shown for each error.
pub open spec fn error_text(e: DiscoveryError) -> Seq<char> {
    match e {
        DiscoveryError::AlreadyActive => "Discovery already active"@,
        DiscoveryError::Bind(m) => m@,
        DiscoveryError::AddressResolution => "Failed to get local IP"@,
        DiscoveryError::Advertisement(m) => m@,
        DiscoveryError::Lock => "Failed to lock state"@,
    }
}

impl DiscoveryError {
    /// The failure string for this error.
    pub fn message(&self) -> (s: String)
        ensures
            s@ == error_text(*self),
    {
        match self {
            DiscoveryError::AlreadyActive => String::from_str("Discovery already active"),
            DiscoveryError::Bind(m) => m.clone(),
            DiscoveryError::AddressResolution => String::from_str("Failed to get local IP"),
            DiscoveryError::Advertisement(m) => m.clone(),
            DiscoveryError::Lock => String::from_str("Failed to lock state"),
        }
    }
}

} // verus!
