//! Translate voxel scenes into rate-limited block-placement commands.
//!
//! A chat message triggers a build (`trigger`, `protocol`); the first model of a
//! scene is resolved voxel by voxel through the scene's color table and a
//! palette of block identifiers (`voxel`, `color`, `palette`); each block is
//! turned to face the requested direction (`transform`); and the resulting
//! requests are sent in order, spaced by a fixed interval (`dispatch`).

pub mod text;
pub mod color;
pub mod transform;
pub mod trigger;
pub mod palette;
pub mod error;
pub mod voxel;
pub mod protocol;
pub mod dispatch;
