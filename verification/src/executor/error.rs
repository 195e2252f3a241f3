//! The classes of failure that cross the sandbox boundary as values.

use vstd::prelude::*;

verus! {

/// Why a module could not be instantiated or a call did not return output.
#[derive(Debug, Copy, Clone, PartialEq, Eq, Hash, Structural)]
pub enum Error {
    /// The bytecode is invalid, or the engine cannot reserve the page budget
    /// that the heap strategy implies. Fatal for that module or instance.
    CompileOrInstantiate,
    /// The requested export is absent. Recoverable by the caller.
    MethodNotFound,
    /// The guest violated a sandbox invariant: an illegal memory access, an
    /// explicit abort, or stack exhaustion.
    Trap,
    /// The ceiling of the active heap strategy was exceeded.
    OutOfMemory,
}

} // verus!
