use vstd::prelude::*;

verus! {

/// The mathematical value of a [`Velocity`]: its two axis speeds as
/// unbounded integers.
pub ghost struct VelocityView {
    pub vx: int,
    pub vy: int,
}

/// A velocity component: per-tick displacement along the x and y axes.
/// A pure data holder with no invariant beyond default construction.
#[derive(Clone, Copy, Debug, PartialEq, Eq, Structural)]
pub struct Velocity {
    pub vx: i64,
    pub vy: i64,
}

impl View for Velocity {
    type V = VelocityView;

    open spec fn view(&self) -> VelocityView {
        VelocityView { vx: self.vx as int, vy: self.vy as int }
    }
}

impl Default for Velocity {
    /// A freshly created velocity is at rest: both axis speeds are zero.
    fn default() -> (v: Velocity)
        ensures
            v@ == (VelocityView { vx: 0, vy: 0 }),
    {
        Velocity { vx: 0, vy: 0 }
    }
}

} // verus!
