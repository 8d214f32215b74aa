use vstd::prelude::*;

verus! {

/// Failures that a script-visible operation can report.
#[derive(Debug, Clone, Copy, PartialEq, Eq, Structural)]
pub enum Error {
    /// A mutable host callback was entered while it was already running.
    RecursiveMutCallback,
    /// The callback's host closure was released when its scope ended.
    CallbackDestructed,
    /// The opaque object's payload was released (scope end or explicit destroy).
    UserDataDestructed,
    /// A mutation was attempted through a read-only binding.
    UserDataBorrowMutError,
    /// The handle does not name a value of the kind the operation needs.
    UserDataTypeMismatch,
    /// The engine's teardown has begun: no script operation runs any more.
    EngineClosed,
}

} // verus!
