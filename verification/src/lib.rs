//! Simulation core of a top-down tank-arena game: a procedurally generated
//! maze whose wall topology feeds both a render mesh and a physics collision
//! mesh, a fixed-timestep simulation world, an event-multiplexing scheduler,
//! input controllers normalized to one bounded control signal, and the
//! render-side forecast computation.
//!
//! All geometry and control values are carried as fixed-point integers
//! (sixteenths for mesh coordinates, thousandths for control signals and
//! kinematic state); the unverified shell converts to floating point at the
//! GPU and physics-engine boundary.

pub mod input;
pub mod main_menu;
pub mod maze;
pub mod prepare_scene;
pub mod render;
pub mod rng;
pub mod scheduler;
pub mod world;
