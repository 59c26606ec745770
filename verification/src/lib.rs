//! A small 3D scene and the handler that freezes its orbiting camera.
//!
//! The scene is a ground plane, a cube, a point light and a camera under a
//! free-camera controller. Releasing Escape inverts the controller's
//! `enabled` flag, so that the cube can be selected and dragged without the
//! camera following the pointer.

pub mod entity;
pub mod geometry;
pub mod keyboard;
pub mod orbit;
pub mod scene;
pub mod world;
