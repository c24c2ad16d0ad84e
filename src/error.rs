//! What can stop a build.

use vstd::prelude::*;

verus! {

/// The reasons a build stops before all of its blocks are placed.
#[derive(Clone, Copy, PartialEq, Eq, Structural, Debug)]
pub enum BuildError {
    /// The palette source is missing or malformed.
    Configuration,
    /// The voxel scene is malformed, holds no model, or a voxel names a color
    /// past the end of the scene's color table.
    Decode,
    /// A voxel's color has no palette entry.
    PaletteMiss,
    /// A block would land outside the range of world coordinates.
    OutOfRange,
}

} // verus!
