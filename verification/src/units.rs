//! Plain geometry in device pixels and in tiles, and the identity of a pipeline.

use vstd::prelude::*;

verus! {

/// The edge length of a square tile, in device pixels.
pub type TileSize = u16;

/// The position of one tile in the grid of tiles that covers an image.
#[derive(Clone, Copy, Debug, PartialEq, Eq, Hash, Structural)]
pub struct TileOffset {
    pub x: u16,
    pub y: u16,
}

/// A position in device pixels.
#[derive(Clone, Copy, Debug, PartialEq, Eq, Hash, Structural)]
pub struct DeviceUintPoint {
    pub x: u32,
    pub y: u32,
}

/// An extent in device pixels.
#[derive(Clone, Copy, Debug, PartialEq, Eq, Hash, Structural)]
pub struct DeviceUintSize {
    pub width: u32,
    pub height: u32,
}

/// A rectangle in device pixels.
#[derive(Clone, Copy, Debug, PartialEq, Eq, Hash, Structural)]
pub struct DeviceUintRect {
    pub origin: DeviceUintPoint,
    pub size: DeviceUintSize,
}

/// The size of a texture in device pixels, as graphics interfaces give it.
#[derive(Clone, Copy, Debug, PartialEq, Eq, Hash, Structural)]
pub struct DeviceIntSize {
    pub width: i32,
    pub height: i32,
}

/// The identity of one pipeline: the source that made it and its index there.
#[derive(Clone, Copy, Debug, PartialEq, Eq, Hash, Structural)]
pub struct PipelineId(pub u32, pub u32);

} // verus!
