//! Quad-tagged sphere meshes for a per-quad shading effect.
//!
//! A sphere is cut into a grid of quads, every quad is emitted as two
//! independent triangles, and each vertex is tagged with the number of the
//! quad it belongs to. A shader reads that number as a vertex attribute to
//! vary colour and displacement per quad.

pub mod material;
pub mod mesh;
pub mod pipeline;
pub mod quads;
pub mod sphere;
pub mod update;
