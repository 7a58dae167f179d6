//! Verified core of a gyroscope tilt controller.
//!
//! The sensor firmware is a state machine: every step takes the outcome of
//! the last hardware action and decides the next one. The surrounding
//! program performs the bus transactions, the printing and the delays.
//!
//! Beside it stand the pieces of the balance-bike game that read the
//! controller: the steering direction of a rate, the score history and the
//! clearing of a level's scenery.
pub mod rate;
pub mod sensor;
pub mod config;
pub mod firmware;
pub mod laws;
pub mod controller;
pub mod score;
pub mod level;
