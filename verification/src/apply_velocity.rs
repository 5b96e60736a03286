use vstd::prelude::*;

use crate::error::SystemError;
use crate::position::{Position, PositionView};
use crate::schema::ComponentKind;
use crate::velocity::{Velocity, VelocityView};

verus! {

/// The bound inputs of the apply-velocity system: the position it writes and
/// the velocity it reads. The dispatcher owns both instances; the system
/// holds them by exclusive reference for the duration of a single
/// invocation.
#[derive(Debug, PartialEq, Eq)]
pub struct Components {
    pub position: Position,
    pub velocity: Velocity,
}

/// What one apply-velocity step does to a position: it displaces x and y by
/// the velocity's axis speeds and leaves z and the description untouched.
pub open spec fn apply_velocity_transform(p: PositionView, v: VelocityView) -> PositionView {
    PositionView { x: p.x + v.vx, y: p.y + v.vy, z: p.z, description: p.description }
}

/// Whether one apply-velocity step keeps both coordinates inside the signed
/// 64-bit range.
pub open spec fn apply_velocity_in_range(p: PositionView, v: VelocityView) -> bool {
    &&& i64::MIN <= p.x + v.vx <= i64::MAX
    &&& i64::MIN <= p.y + v.vy <= i64::MAX
}

/// The declared input schema of the apply-velocity system: two roles, bound
/// to a position and a velocity. Role order follows the declaration and
/// carries no semantics.
pub fn input_schema() -> (r: Vec<ComponentKind>)
    ensures
        r@ == seq![ComponentKind::Position, ComponentKind::Velocity],
{
    let mut r: Vec<ComponentKind> = Vec::new();
    r.push(ComponentKind::Position);
    r.push(ComponentKind::Velocity);
    proof {
        assert(r@ =~= seq![ComponentKind::Position, ComponentKind::Velocity]);
    }
    r
}

/// Binds the instances the dispatcher resolved to the system's declared
/// roles. Succeeds exactly when every role received an instance; otherwise
/// the invocation fails with a `BindingError` before the transform runs.
pub fn bind(position: Option<Position>, velocity: Option<Velocity>) -> (r: Result<
    Components,
    SystemError,
>)
    ensures
        r is Ok <==> position is Some && velocity is Some,
        r matches Ok(c) ==> c.position == position.unwrap() && c.velocity == velocity.unwrap(),
        r is Err ==> r == Err::<Components, SystemError>(SystemError::BindingError),
{
    match (position, velocity) {
        (Some(position), Some(velocity)) => Ok(Components { position, velocity }),
        _ => Err(SystemError::BindingError),
    }
}

/// The apply-velocity system: displaces the bound position by the bound
/// velocity. The velocity is read-only and is returned in place, unchanged,
/// as part of the bound outputs. Deterministic given the two input values.
/// The trailing byte argument is reserved for future parameterization and is
/// ignored. An update that would overflow fails with `ArithmeticOverflow`
/// and commits nothing: neither coordinate is written.
pub fn execute(components: &mut Components, _args_p: Vec<u8>) -> (r: Result<(), SystemError>)
    ensures
        r is Ok <==> apply_velocity_in_range(
            old(components).position@,
            old(components).velocity@,
        ),
        r is Ok ==> final(components).position@ == apply_velocity_transform(
            old(components).position@,
            old(components).velocity@,
        ),
        final(components).velocity == old(components).velocity,
        r is Err ==> *final(components) == *old(components) && r == Err::<(), SystemError>(
            SystemError::ArithmeticOverflow,
        ),
        old(components).position.wf() ==> final(components).position.wf(),
{
    let nx = components.position.x.checked_add(components.velocity.vx);
    let ny = components.position.y.checked_add(components.velocity.vy);
    match (nx, ny) {
        (Some(nx), Some(ny)) => {
            components.position.x = nx;
            components.position.y = ny;
            Ok(())
        },
        _ => Err(SystemError::ArithmeticOverflow),
    }
}

} // verus!
