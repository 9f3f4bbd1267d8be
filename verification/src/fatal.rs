//! Unrecoverable-failure reporting.
//!
//! Environment failures (a spawn that fails, a pipe that cannot be
//! configured, an unexpected OS error) have no local remediation: the
//! driver reports them as a [`Fatal`] value carrying a category, and the
//! binary around the library maps the category to a process exit status.
//! Guest-behaviour outcomes (not reachable yet, still running, exited)
//! are never reported this way; they are ordinary return values.

use vstd::prelude::*;

verus! {

/// Category of an unrecoverable failure; external monitors branch on the
/// exit status each category maps to.
#[derive(Clone, Copy, PartialEq, Eq, Structural, Debug)]
pub enum FatalClass {
    /// The configuration does not describe a runnable setup.
    Config,
    /// An OS-level operation failed unexpectedly.
    Os,
    /// Unexpected content, such as a guest that never becomes reachable.
    Data,
    /// A resource was temporarily unavailable, such as a free port.
    TempFail,
}

/// An unrecoverable failure: a category together with diagnostic text.
#[derive(Debug)]
pub struct Fatal {
    pub class: FatalClass,
    pub msg: String,
}

impl Fatal {
    pub fn new(class: FatalClass, msg: String) -> (r: Fatal)
        ensures
            r.class == class,
            r.msg == msg,
    {
        Fatal { class, msg }
    }
}

/// A failure whose message is a fixed description followed by the
/// detail text the failing operation reported.
pub fn fatal_with(class: FatalClass, what: &str, detail: String) -> (r: Fatal)
    ensures
        r.class == class,
        r.msg@ == what@ + detail@,
{
    let mut msg = what.to_owned();
    msg.append(detail.as_str());
    Fatal::new(class, msg)
}

} // verus!
