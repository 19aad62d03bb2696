//! Voxel terrain chunks, their visible-face meshes, chunk-grid addressing,
//! and the input decisions that drive the camera and the renderer.
pub mod camera;
pub mod chunk;
pub mod mesh_lemmas;
pub mod render;
pub mod world;
