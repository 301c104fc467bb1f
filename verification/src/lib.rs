//! Installation orchestration for Flatpak packages.
//!
//! The library decides everything the installer pipeline does — which URL to
//! fetch, where the descriptor artifact lives, which notifications to emit,
//! when to spawn the installer and when to delete the artifact — as a verified
//! state machine. A thin unverified driver performs the network, filesystem
//! and process I/O that the machine's actions call for and feeds the outcomes
//! back as events.

use vstd::prelude::*;
use vstd::string::StringExecFns;

pub mod descriptor;
pub mod errors;
pub mod events;
pub mod ident;
pub mod laws;
pub mod machine;

verus! {

/// Builds the greeting shown by the front end's demo command.
pub fn greet(name: &str) -> (r: String)
    ensures
        r@ == "Hello, "@ + name@ + "! You've been greeted from Rust!"@,
{
    let mut s = String::from_str("Hello, ");
    s.append(name);
    s.append("! You've been greeted from Rust!");
    s
}

} // verus!
