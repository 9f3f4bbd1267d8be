//! Host resources for one guest: the VM's process handle and the leased
//! host port its SSH service is forwarded to.

use vstd::prelude::*;

verus! {

#[verifier::external_type_specification]
#[verifier::external_body]
pub struct ExChild(tokio::process::Child);

/// Relies on `tokio::process::Child::start_kill`: sends the kill signal
/// to the process without waiting for it to exit.
#[verifier::external_body]
pub fn child_start_kill(c: &mut tokio::process::Child) -> (r: Result<(), String>) {
    match c.start_kill() {
        Ok(()) => Ok(()),
        Err(e) => Err(format!("{}", e)),
    }
}

/// Relies on `port_check::free_local_port`: returns a host TCP port that
/// was free when checked, or nothing when none could be found. Which port
/// comes back depends on the machine's state at that moment.
#[verifier::external_body]
pub fn lease_free_port() -> (r: Option<u16>) {
    port_check::free_local_port()
}

} // verus!
