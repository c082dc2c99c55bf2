//! The host side of a raymarching renderer: the state of the camera and the
//! objects of the scene, and the fixed records in which both are handed to
//! the kernel that draws them.
//!
//! Every scalar of the camera and of the objects is a single-precision value.
//! This crate never computes with such a value: it holds each one as its 32
//! bits, puts them in their places, and reads them back. What it says of a
//! record therefore holds bit for bit, of infinities and NaNs as of any other
//! value.

pub mod camera;
pub mod scene;
pub mod scene_objects;
pub mod single;
