//! Data resources: staged buffers, the camera, and mesh assets.

pub mod buffer;
pub mod camera;
pub mod encode;
pub mod model;
