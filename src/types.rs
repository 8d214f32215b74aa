use vstd::prelude::*;

verus! {

/// What the engine does next after an interrupt callback returns.
#[derive(Debug, Clone, Copy, PartialEq, Eq, Structural)]
pub enum VmState {
    Continue,
    Yield,
}

/// Marker for values that may be handed to the engine. Scoped values are
/// allowed to be thread-confined, so every type qualifies.
pub trait MaybeSend {}

impl<T> MaybeSend for T {}

} // verus!
