//! Core of an offline Monte Carlo path tracer.
//!
//! The modules here hold the parts of the renderer that are exact and
//! discrete: the seeded random stream that drives every stochastic choice,
//! 8-bit colors, the Perlin permutation tables, bounding boxes over a
//! totally ordered coordinate-key space, the bounding-volume-hierarchy
//! builder, configuration parsing, the frame's pixel-coordinate layout, and
//! the integrator's depth-capped recursion policy.  The numeric sampling
//! kernels that consume these (vector algebra, intersection math, material
//! scattering) live with the surrounding application.

pub mod color;
pub mod perlin;
pub mod rng;
pub mod swap;
pub mod aabb;
pub mod bvh;
pub mod frame;
pub mod config;
pub mod shader;
