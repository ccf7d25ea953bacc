//! A deferred-shading renderer, as the stream of requests it makes of a
//! graphics backend.
//!
//! The scene is drawn in passes: shadow maps first, then the geometry of the
//! scene into a G-buffer, then one full-screen lighting pass for every light
//! into an accumulation buffer, then the composite to the screen. Nothing in
//! this crate touches a graphics driver. Every operation records commands on
//! a [`device::Device`], which also keeps a model of the backend as the
//! commands will leave it; whoever owns the graphics context plays the
//! commands back in order. What each operation records, and what that does
//! to the model, is proved.
//!
//! Reals are carried by their bit patterns and never computed with, see
//! [`math`]. Matrices that need arithmetic are described, not computed, see
//! [`math::MatrixValue`].

pub mod buffers;
pub mod command;
pub mod device;
pub mod f32_2d_vector_to_3d_model;
pub mod frame;
pub mod globals;
pub mod input;
pub mod material_structs;
pub mod math;
pub mod models;
pub mod passes;
pub mod scene_files;
pub mod shaders;
pub mod state;
pub mod targets;
