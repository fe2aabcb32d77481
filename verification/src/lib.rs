//! A small artificial-life engine: agents with a linear controller and a
//! gene vector forage on a regrowing plant grid, reproduce with mutation and
//! starve. Every quantity is an integer or a fixed-point number, so a run is
//! a pure function of its seed, its parameters and the sequence of steps.

pub mod agent;
pub mod brain;
pub mod fixed;
pub mod genes;
pub mod params;
pub mod plant_grid;
pub mod rng;
pub mod time_controller;
pub mod trig;
pub mod util;
pub mod world;

pub use agent::Agent;
pub use agent::TickResult;
pub use brain::Brain;
pub use brain::Command;
pub use brain::Commands;
pub use brain::Percept;
pub use brain::Percepts;
pub use genes::Gene;
pub use genes::Genes;
pub use params::Params;
pub use plant_grid::PlantGrid;
pub use time_controller::TimeController;
pub use world::World;
