//! Core logic of a progressive Monte Carlo path tracer.
//!
//! The renderer estimates per-pixel radiance by stochastically sampling light
//! paths and averages successive frames into a converging image. This crate
//! holds the parts of that engine that are plain integer and boolean data with
//! proved contracts: the deterministic per-pixel random stream, the packed
//! 8-bit color representation, the keyboard input state the camera consumes,
//! the scene's slot/light-list bookkeeping, and the frame sample counter.
//! The floating-point geometry (rays, intersection, shading) and the display
//! collaborators live in the surrounding application.

pub mod accum;
pub mod color;
pub mod input;
pub mod rng;
pub mod scene;
