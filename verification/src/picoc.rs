//! Session bookkeeping for the embedded program-execution engine, an
//! external collaborator of the harness: it runs a piece of program text
//! and reports success or failure. The engine itself lives outside this
//! library; here its session protocol is modelled and checked — a session
//! must be initialized and have its headers included before any program
//! runs on it.

use vstd::prelude::*;

verus! {

/// One engine session. Constructing it stands for initializing the engine
/// and including its standard headers, in that order; both must have
/// happened before [`Picoc::execute`] may be called.
pub struct Picoc {
    pub initialized: bool,
    pub headers_included: bool,
}

impl Picoc {
    /// The session is ready to run program text.
    pub open spec fn ready(&self) -> bool {
        self.initialized && self.headers_included
    }
}

impl Default for Picoc {
    /// A fresh, fully initialized session.
    fn default() -> (r: Picoc)
        ensures
            r.ready(),
    {
        Picoc { initialized: true, headers_included: true }
    }
}

impl Picoc {
    /// Submits one piece of program text to the engine and passes its
    /// report through: `report` is whether the engine ran the text
    /// successfully, and that is exactly what is returned. The session
    /// stays ready for further programs.
    pub fn execute(&mut self, p: String, report: bool) -> (r: bool)
        requires
            old(self).ready(),
        ensures
            r == report,
            final(self).ready(),
    {
        let _ = p;
        report
    }
}

} // verus!
