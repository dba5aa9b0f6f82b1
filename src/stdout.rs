use vstd::prelude::*;

verus! {

/// Writes events to standard output.
#[derive(Clone, Copy, Debug, PartialEq, Eq, Structural)]
pub struct StdoutEventer {
    /// Pretty-print the JSON of each event.
    pub pretty: bool,
}

} // verus!
