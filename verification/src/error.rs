//! Error taxonomy of the device layer.

use vstd::prelude::*;

verus! {

/// Failure to set up an event-loop session: the run loop, the context, the
/// connection to the server, or the registry could not be created. The caller
/// cannot tell these apart mid-flow, so they are reported as one kind.
#[derive(Clone, Copy, Debug, PartialEq, Eq, Structural)]
pub enum PipewireError {
    ConnectionError,
}

impl PipewireError {
    /// A human-readable rendering of the error.
    pub fn describe(&self) -> (r: String)
        ensures
            r@ == "connection to the audio server failed"@,
    {
        "connection to the audio server failed".to_owned()
    }
}

} // verus!
