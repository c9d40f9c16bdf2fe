//! Verified core of a live viewer for procedurally generated hexagonal maps.
//!
//! The library keeps an authoritative grid and view model consistent under
//! independently firing UI events, and derives from it the per-cell records
//! that a GPU renderer draws.
pub mod error;
pub mod generator;
pub mod grid;
pub mod instance;
pub mod state;
pub mod terrain;
pub mod viewport;
