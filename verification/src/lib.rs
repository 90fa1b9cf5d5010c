//! A two-dimensional scene library: meshes assembled from triangle sets, a
//! store of drawable entities, a pipeline that plans each frame and fixes
//! its draw order, a fixed-timestep animator, and a generator of randomised
//! shapes.
//!
//! All lengths, colour channels and angles are fixed-point integers counted
//! in thousandths: `1000` stands for one pixel, one full colour channel, or
//! one radian.
//!
//! The library decides; a host carries out. Windows, image files, the
//! renderer and the tessellation of curves belong to the host: the library
//! describes primitives for the tessellator, checks and merges the
//! triangles that come back, and hands the host the commands of each frame.

pub mod animator;
pub mod drawing;
pub mod figure;
pub mod generative_art;
pub mod generator;
pub mod image;
pub mod mesh;
pub mod pipeline;
pub mod store;
pub mod units;
