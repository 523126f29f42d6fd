//! A particle fluid simulated with smoothed-particle hydrodynamics, in
//! fixed-point arithmetic: the neighbour search over a spatial hash grid, the
//! density and force passes, and the integration step with its boundary
//! response.
//!
//! Every scalar is an `i64` in units of 1/65536 (`fixed`), and results that
//! leave its range saturate, so no input makes a pass overflow. A frame
//! (`simulation`) predicts positions, bins them by cell (`grid`, `search`),
//! sorts the bins and records where each cell starts (`sort`), then sums
//! densities (`density`), surface normals and vorticities (`surface`) and
//! forces (`forces`) over the neighbours of each particle, and commits the
//! particles with the boundary response (`integration`). The sums are stated
//! over all particles that a mask selects (`sums`), so they do not depend on
//! the order in which neighbours are walked. `laws` holds what is proved of
//! the whole: that the neighbour search misses no particle, that a frame
//! without elapsed time changes nothing, and that a configuration without
//! forces injects no energy; `energy` and `series` hold the proof that
//! velocity smoothing makes none.
//!
//! Around the frame stand the configuration and its store (`parameters`), the
//! payload that carries a configuration between processes (`wire`), the
//! keyboard controls (`controls`), the initial layout (`particle`), the mesh
//! of a particle (`geometry`) and the decisions of the host (`schedule`).
pub mod fixed;
pub mod vector;
pub mod parameters;
pub mod grid;
pub mod sort;
pub mod search;
pub mod particle;
pub mod sums;
pub mod series;
pub mod kernels;
pub mod density;
pub mod surface;
pub mod forces;
pub mod integration;
pub mod simulation;
pub mod energy;
pub mod laws;
pub mod controls;
pub mod wire;
pub mod schedule;
pub mod geometry;
