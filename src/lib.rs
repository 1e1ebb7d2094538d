//! Exact fixed-point geometry for an infinite, animated, tiled background.
//!
//! A surface point and an elapsed time are mapped into an axis-aligned tiling
//! space (scroll, then inverse rotation), split into a cell index and an
//! in-cell position (with brick-like row stagger), masked against the inked
//! sub-rectangle of the cell, and remapped to texture coordinates. All of it is
//! integer arithmetic, so every stage has an exact mathematical contract.
pub mod arith;
pub mod params;
pub mod tiling;
pub mod color;
pub mod laws;
