//! Discrete core of a spin-stabilised projectile trajectory solver: drag-model
//! selection, the coarse default aerodynamic table, and the termination logic
//! of the fixed-step trajectory driver.
pub mod aero;
pub mod driver;
pub mod info;
pub mod models;
