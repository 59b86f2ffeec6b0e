//! Gameplay-physics core of a brick-breaking arcade game.
//!
//! The crate keeps the books between a component world and a rigid-body
//! engine, turns the engine's contact notifications into collision events,
//! and decides how balls, bricks and the paddle answer them. It works on
//! identifiers, counters and flags; positions, velocities and the like pass
//! through it as values of the caller's own types, and the arithmetic on them
//! is the caller's.
//!
//! One tick runs through the stages of [`tick::Stage`]:
//!
//! * [`input`] and [`paddle`]: the keys held steer the paddle and launch the
//!   ball it holds;
//! * [`physics`] and [`handles`]: what changed is pushed into the engine, and
//!   after the step the engine's state comes back;
//! * [`collision`] and [`events`]: contacts become events, a pair of entities
//!   once per tick, in a log that every reader sees once;
//! * [`ball`] and [`brick`]: each ball answers one contact, each brick takes
//!   one hit, and [`level`] keeps score, lives and the pending level load;
//! * [`render`] and [`sprite`]: the draw commands of the tick.

pub mod audio;
pub mod ball;
pub mod brick;
pub mod collision;
pub mod entity;
pub mod events;
pub mod handles;
pub mod idset;
pub mod input;
pub mod level;
pub mod paddle;
pub mod physics;
pub mod render;
pub mod sprite;
pub mod store;
pub mod tick;
pub mod transform;
