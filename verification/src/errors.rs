//! The error taxonomy of the installation pipeline.
//!
//! Errors are tagged values inside the library; they are turned into
//! human-readable text only at the outermost command boundary.

use vstd::prelude::*;
use vstd::string::StringExecFns;

verus! {

/// What can go wrong while fetching the descriptor.
#[derive(Clone, Copy, Debug, PartialEq, Eq, Structural)]
pub enum FetchError {
    /// Emitting a progress notification failed; the fetch is aborted because
    /// the notification channel is the only observability path for the UI.
    NotifyFailed,
    /// A transport-level failure (DNS, TLS, timeout, connection reset).
    Transport,
    /// The remote answered with a non-2xx status code.
    HttpStatus(u16),
    /// The response body could not be decoded as text.
    Decode,
    /// Writing the descriptor artifact to disk failed.
    Persist,
}

/// The descriptive text for a fetch error: a fixed prefix, then whatever
/// detail the failing operation reported.
pub open spec fn spec_fetch_message(e: FetchError, detail: Seq<char>) -> Seq<char> {
    match e {
        FetchError::NotifyFailed => "Failed to emit: "@ + detail,
        FetchError::Transport => "Error descargando flatpakref: "@ + detail,
        FetchError::HttpStatus(_) => "Error HTTP: "@ + detail,
        FetchError::Decode => "Error leyendo contenido: "@ + detail,
        FetchError::Persist => "Error guardando archivo: "@ + detail,
    }
}

impl FetchError {
    /// Renders the error as the human-readable text shown at the command
    /// boundary, appending the reported detail.
    pub fn message(&self, detail: &str) -> (r: String)
        ensures
            r@ == spec_fetch_message(*self, detail@),
    {
        let mut s = match self {
            FetchError::NotifyFailed => String::from_str("Failed to emit: "),
            FetchError::Transport => String::from_str("Error descargando flatpakref: "),
            FetchError::HttpStatus(_) => String::from_str("Error HTTP: "),
            FetchError::Decode => String::from_str("Error leyendo contenido: "),
            FetchError::Persist => String::from_str("Error guardando archivo: "),
        };
        s.append(detail);
        s
    }
}

/// What can go wrong while installing.
#[derive(Clone, Copy, Debug, PartialEq, Eq, Structural)]
pub enum InstallError {
    /// The fetch phase failed; no process was spawned.
    Fetch(FetchError),
    /// The installer executable could not be spawned; the artifact is kept.
    SpawnFailed,
    /// Emitting a notification failed while supervising the installer.
    NotifyFailed,
}

/// The descriptive text for an installation error.
pub open spec fn spec_install_message(e: InstallError, detail: Seq<char>) -> Seq<char> {
    match e {
        InstallError::Fetch(f) => spec_fetch_message(f, detail),
        InstallError::SpawnFailed => "Failed to spawn flatpak: "@ + detail,
        InstallError::NotifyFailed => "Failed to emit: "@ + detail,
    }
}

impl InstallError {
    /// Renders the error as the human-readable text shown at the command
    /// boundary, appending the reported detail.
    pub fn message(&self, detail: &str) -> (r: String)
        ensures
            r@ == spec_install_message(*self, detail@),
    {
        match self {
            InstallError::Fetch(f) => f.message(detail),
            InstallError::SpawnFailed => {
                let mut s = String::from_str("Failed to spawn flatpak: ");
                s.append(detail);
                s
            },
            InstallError::NotifyFailed => {
                let mut s = String::from_str("Failed to emit: ");
                s.append(detail);
                s
            },
        }
    }
}

} // verus!
