//! A minimal declarative 2D vector-graphics renderer.
//!
//! Client code builds an immutable [`picture::Picture`] tree and hands it to
//! [`render::Renderer::draw`], which turns the tree into an ordered list of
//! [`render::DeviceOp`] commands for a retained graphics context to execute.
//! All scalar quantities (coordinates, color channels, angles) are carried as
//! IEEE-754 single-precision bit patterns in `u32`, so that the geometry and
//! the rendering pipeline can be specified and verified exactly.

pub mod event;
pub mod extrude_thickline;
pub mod picture;
pub mod render;
pub mod scalar;
