//! Verified core of a texture-painting / material-preview tool.
//!
//! The library models the viewport subsystem: per-view 2D cameras
//! (pan and zoom), exact conversions between the coordinate spaces a view
//! works in, pointer-drag tracking, interaction with the scene's point
//! light, the lifecycle of the off-screen render target each view draws
//! into, and the routing of input events across several views.
//!
//! Every scalar the GUI hands over (a pointer position, a panel size, a
//! zoom factor, a light intensity) is carried as a fixed-point integer in
//! units of one millionth, so that each operation has an exact contract.
//! The host turns GUI floats into these units at the boundary and back.

pub mod fixed;
pub mod geom;
pub mod coord;
pub mod drag;
pub mod input;
pub mod color;
pub mod lights;
pub mod registry;
pub mod maps;
pub mod scene;
pub mod render;
pub mod viewport;
pub mod router;
pub mod balance;
pub mod once;
pub mod property;
pub mod panel;
pub mod project;
pub mod palette;
