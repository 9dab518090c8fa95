//! Core logic of the Rustcraft voxel game: the block registry and its state
//! ids, number formatting for the debug overlay, shader word decoding, texture
//! id assignment and atlas composition, chunk mesh traversal, the input state
//! machine, the texture buffer pool, the blur pass
//! schedule and a few game-loop counters.

pub mod buffer_pool;
pub mod effects;
pub mod game;
pub mod geometry;
pub mod input;
pub mod mesh;
pub mod resources;
pub mod shader;
pub mod text;
pub mod textures;
pub mod block;
