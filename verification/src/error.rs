use vstd::prelude::*;

verus! {

/// The ways a system invocation can fail. Every failure is fatal to the
/// single invocation: no partially applied transform is ever committed.
#[derive(Clone, Copy, Debug, PartialEq, Eq, Structural)]
pub enum SystemError {
    /// A component write would violate a declared shape invariant, such as a
    /// `description` longer than the component allows.
    ValidationError,
    /// A numeric update would leave the 64-bit signed range. The update is
    /// rejected rather than wrapped, so world state is never silently
    /// corrupted.
    ArithmeticOverflow,
    /// The dispatcher could not supply every input role a system declares,
    /// for instance when the entity lacks one of the required components.
    BindingError,
}

} // verus!
