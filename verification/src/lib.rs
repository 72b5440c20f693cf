//! Verified simulation engine for a top-down wave survival shooter.
//!
//! The library covers the gameplay core: entity movement with whole-move
//! collision rejection, combat resolution (projectile damage, death and
//! reward, contact damage), the wave-spawning director, the session state
//! machine, and the run-scoped / persistent economy ledger. Presentation,
//! input devices and rendering are left to the host; each simulation tick is
//! a plain function of the current state, the sampled inputs and the elapsed
//! time in milliseconds.
//!
//! All quantities are integers: world coordinates and health are fixed-point
//! with 1000 stored units per world unit, and every duration is a number of
//! milliseconds.

pub mod combat;
pub mod components;
pub mod geom;
pub mod movement;
pub mod num;
pub mod player;
pub mod progression;
pub mod session;
pub mod settings;
pub mod shop;
pub mod tick;
pub mod timer;
pub mod wave;
pub mod world;

pub use geom::Vec2i;
