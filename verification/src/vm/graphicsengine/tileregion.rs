//! Regions of tiles.

use vstd::prelude::*;

verus! {

/// A region of tiles in a tile map, with the tile that counts as its
/// center.
#[derive(Clone, Copy, Debug, PartialEq, Eq)]
pub struct TileRegion {
    pub top: u32,
    pub left: u32,
    pub width: u32,
    pub height: u32,
    pub center_x: u32,
    pub center_y: u32,
}

impl Default for TileRegion {
    fn default() -> (region: Self)
        ensures
            region == (TileRegion {
                top: 0,
                left: 0,
                width: 0,
                height: 0,
                center_x: 0,
                center_y: 0,
            }),
    {
        TileRegion { top: 0, left: 0, width: 0, height: 0, center_x: 0, center_y: 0 }
    }
}

} // verus!
