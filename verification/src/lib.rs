//! A falling-sand simulation kernel: loose solids, heavy solids and liquids
//! move over a two-dimensional grid of voxels, one tick at a time.
//!
//! The crate holds the coordinate model ([`positions`]), the grid store with
//! its neighbour lookup ([`map`]), the materials and their movement rules
//! ([`voxels`]) and the tick driver ([`tick`]). Rendering, input and
//! windowing are left to the host; [`camera`] decides how the host's camera
//! scrolls, and [`voxel_world`] hands a world to a compute shader and takes
//! it back.
//!
//! Contracts are stated over [`map::Grid`], the mathematical view of a map,
//! and over the integer functions of [`positions`].

pub mod camera;
pub mod config;
pub mod map;
pub mod positions;
pub mod tick;
pub mod voxel_world;
pub mod voxels;
