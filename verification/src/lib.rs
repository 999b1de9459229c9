//! Procedural layout of an abstract top-down city: roads, blocks between the
//! roads and buildings that ring each block, laid out from a few statistical
//! parameters and painted into an image.
//!
//! All lengths, densities and fractions are fixed-point numbers, `i64` values
//! that count millionths; see [`city::fixed`]. The layout is computed exactly on
//! them, so that what it promises — lines inside the plane, lines and cells that
//! tile it, buildings capped by the depth of their block — holds of every input
//! and not only up to rounding.

pub mod city;
pub mod error;
pub mod text;
