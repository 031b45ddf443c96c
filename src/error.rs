use vstd::prelude::*;

verus! {

/// The kinds of failure the driver reports.
#[derive(Debug, Clone, Copy, PartialEq, Eq, Structural)]
pub enum Ssd1680Error {
    /// The byte channel to the controller failed.
    Transport,
    /// A select, reset or busy line could not be driven or read.
    Pin,
    /// The busy line stayed asserted for the whole polling budget.
    Timeout,
    /// Dimensions or command parameters outside what the controller accepts.
    Configuration,
    /// The controller is not in a state that allows the operation
    /// (it was never reset, a sequence failed, or it is in deep sleep).
    NotReady,
}

} // verus!
