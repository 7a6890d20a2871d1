//! Turns sections of a voxel world into renderable meshes.
//!
//! A section is a cube of 16 by 16 by 16 blocks. [`chunk`] gathers a section and
//! one layer of blocks around it into a [`chunk::LocalSection`]; [`mesh`] walks
//! that section block by block and face by face, drops the faces that a
//! neighbour hides, and lays the others out as quads. What a quad looks like is
//! decided here: its texture, its shading, the turn of its texture and the order
//! of its vertices. The coordinates themselves are of a type of the caller's
//! choosing, so that arithmetic on them stays with the caller.

pub mod assets;
pub mod block;
pub mod chunk;
pub mod direction;
pub mod face;
pub mod laws;
pub mod mesh;
pub mod occlusion;
pub mod rotation;
pub mod uv;
pub mod vec3;
pub mod visible;

pub use chunk::{LocalChunk, LocalSection};
pub use mesh::{mesh_section, MeshData};
pub use occlusion::ao;
