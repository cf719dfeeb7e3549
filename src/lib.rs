//! A fireworks display: rockets climb, burst into fields of particles, and
//! launch again, over a sky of still stars. Lengths are fixed-point integers
//! (`sim::SCALE` units per pixel); the scene hands out the dots to paint.
pub mod colour;
pub mod dot;
pub mod firework;
pub mod graphics;
pub mod rng;
pub mod sim;
