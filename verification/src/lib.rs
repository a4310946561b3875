//! A predator/prey flocking simulation on a torus, advanced one tick at a time.
//!
//! Schools of boids flock, flee, tire, eat and die; predators hunt them; bugs
//! and food come and go with the seasons. A host draws the world once per tick
//! and may stir the boids with a cursor. The [`world::World`] owns everything
//! and [`world::World::tick`] is the only thing that moves it.
//!
//! All numbers are fixed-point ([`fixed::Fixed`]) and all chance comes from one
//! seeded generator ([`rng::Rng`]), so a run is a function of its seed and of
//! the cursor, on every machine. No operation overflows and none panics.
//!
//! What each function computes is stated over plain mathematical values and
//! proved of the code: [`world::ticked`] says what a tick does to a world,
//! phase by phase.
pub mod boid;
pub mod bug;
pub mod feeding;
pub mod fixed;
pub mod flocking;
pub mod hunting;
pub mod predator;
pub mod rng;
pub mod spatial;
pub mod vector;
pub mod world;
