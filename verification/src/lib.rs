//! Verified core of a real-time forward-pass rasterization renderer.
//!
//! The crate models the renderer's state — surface configuration, camera
//! input, instance grid, mesh/material assets and the per-frame command
//! sequence — as plain data, and proves the invariants that the GPU side
//! depends on: dimension consistency after a resize, validity of every
//! index and binding, the exact order of the recorded draw commands, and
//! the exact byte layout of everything uploaded to the GPU.
//!
//! Scalar quantities destined for the GPU are carried as the bit patterns
//! of IEEE-754 single-precision values (`u32` words), so buffer contents
//! are pinned down to the byte.

pub mod camera;
pub mod events;
pub mod fbits;
pub mod instances;
pub mod mat;
pub mod model;
pub mod pipeline;
pub mod state;
pub mod surface;
pub mod texture;
pub mod vertex;
pub mod wire;
