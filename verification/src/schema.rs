use vstd::prelude::*;

verus! {

/// The component types a system may name in its input schema. A system's
/// schema maps each logical role to one of these; the dispatcher must supply
/// exactly one concrete instance per declared role, all belonging to the
/// entity the invocation targets.
#[derive(Clone, Copy, Debug, PartialEq, Eq, Structural)]
pub enum ComponentKind {
    Position,
    Velocity,
}

} // verus!
