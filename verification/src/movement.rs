use vstd::prelude::*;

use crate::error::SystemError;
use crate::position::{Position, PositionView};
use crate::schema::ComponentKind;

verus! {

/// The bound inputs of the movement system: the one position it declares.
/// The dispatcher owns the instance; the system holds it by exclusive
/// reference for the duration of a single invocation.
#[derive(Debug, PartialEq, Eq)]
pub struct Components {
    pub position: Position,
}

/// What one movement step does to a position: it advances x and y by one
/// and leaves z and the description untouched.
pub open spec fn movement_transform(p: PositionView) -> PositionView {
    PositionView { x: p.x + 1, y: p.y + 1, z: p.z, description: p.description }
}

/// Whether one movement step keeps both coordinates inside the signed
/// 64-bit range.
pub open spec fn movement_in_range(p: PositionView) -> bool {
    &&& i64::MIN <= p.x + 1 <= i64::MAX
    &&& i64::MIN <= p.y + 1 <= i64::MAX
}

/// The declared input schema of the movement system: one role, bound to a
/// position. Role order follows the declaration and carries no semantics.
pub fn input_schema() -> (r: Vec<ComponentKind>)
    ensures
        r@ == seq![ComponentKind::Position],
{
    let mut r: Vec<ComponentKind> = Vec::new();
    r.push(ComponentKind::Position);
    proof {
        assert(r@ =~= seq![ComponentKind::Position]);
    }
    r
}

/// Binds the instances the dispatcher resolved to the system's declared
/// roles. Succeeds exactly when every role received an instance; otherwise
/// the invocation fails with a `BindingError` before the transform runs.
pub fn bind(position: Option<Position>) -> (r: Result<Components, SystemError>)
    ensures
        r is Ok <==> position is Some,
        r matches Ok(c) ==> c.position == position.unwrap(),
        r is Err ==> r == Err::<Components, SystemError>(SystemError::BindingError),
{
    match position {
        Some(position) => Ok(Components { position }),
        None => Err(SystemError::BindingError),
    }
}

/// The movement system: advances the bound position by one along x and y.
/// Deterministic, independent of time and of every other component, and not
/// idempotent (see [`lemma_movement_not_idempotent`]). The trailing byte
/// argument is reserved for future parameterization and is ignored. An
/// update that would overflow fails with `ArithmeticOverflow` and commits
/// nothing.
pub fn execute(components: &mut Components, _args_p: Vec<u8>) -> (r: Result<(), SystemError>)
    ensures
        r is Ok <==> movement_in_range(old(components).position@),
        r is Ok ==> final(components).position@ == movement_transform(old(components).position@),
        r is Err ==> *final(components) == *old(components) && r == Err::<(), SystemError>(
            SystemError::ArithmeticOverflow,
        ),
        old(components).position.wf() ==> final(components).position.wf(),
{
    let nx = components.position.x.checked_add(1);
    let ny = components.position.y.checked_add(1);
    match (nx, ny) {
        (Some(nx), Some(ny)) => {
            components.position.x = nx;
            components.position.y = ny;
            Ok(())
        },
        _ => Err(SystemError::ArithmeticOverflow),
    }
}

/// Movement is not idempotent: two steps from any position advance x and y
/// by two, which differs from the result of a single step.
pub proof fn lemma_movement_not_idempotent(p: PositionView)
    ensures
        movement_transform(movement_transform(p)).x == p.x + 2,
        movement_transform(movement_transform(p)).y == p.y + 2,
        movement_transform(movement_transform(p)) != movement_transform(p),
{
}

} // verus!
