//! A discrete-time predator-prey ecosystem: two prey species (goats and
//! rabbits) and one predator (the wolf) age, grow along a Gompertz curve,
//! reproduce, die, and hunt once per simulated day.
//!
//! All weights and food reserves are carried as fixed-point integers in
//! thousandths of a kilogram, so that the growth model and every state
//! transition can be verified.

pub mod azar;
pub mod cabra;
pub mod conejo;
pub mod lobo;
pub mod modelo;
pub mod organismo;
pub mod simulador;
