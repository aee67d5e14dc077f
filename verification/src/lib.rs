//! Core logic of a minimal interactive paint program.
//!
//! The library tracks a pen (up or down), converts pointer positions from
//! window pixel coordinates to normalized device coordinates, accumulates a
//! single connected line strip of colored vertices, and describes the frame
//! that a GPU backend should draw. Window-system integration and the actual
//! GPU calls live outside the library; they feed plain events in and take a
//! plain frame description out.

pub mod color;
pub mod ndc;
pub mod pen;
pub mod canvas;
