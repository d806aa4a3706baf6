//! Navigation and lifecycle core of a 3-D building-model viewer.
//!
//! Three controllers, each run once per tick by the surrounding program:
//! [`camera`] turns pointer and scroll travel into orbit, pan and zoom of an
//! orbital camera; [`lifecycle`] decides when the displayed model is loaded,
//! spawned and destroyed; [`selection`] keeps track of which pickable objects
//! are selected. Real quantities are fixed-point numbers ([`fixed`]), so that
//! every result is stated exactly.

pub mod camera;
pub mod fixed;
pub mod input;
pub mod lifecycle;
pub mod selection;
pub mod vector;
