//! A minimal entity-component-system fragment for a game world: two data
//! components (`Position`, `Velocity`) and two stateless systems (`movement`,
//! `apply_velocity`) that transform a `Position` each tick. A host dispatcher
//! (out of scope here) binds concrete component instances to each system's
//! declared input schema, invokes the system, and persists the results.

pub mod apply_velocity;
pub mod error;
pub mod game;
pub mod movement;
pub mod position;
pub mod schema;
pub mod velocity;
