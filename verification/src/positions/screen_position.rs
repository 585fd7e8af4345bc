//! A pixel of the screen.

use vstd::prelude::*;
use crate::config::WorldConfig;
use crate::positions::snap_axis;
use crate::positions::snapped_position::SnappedPosition;

verus! {

/// A whole pixel, inside the world or outside of it. A coordinate left of
/// or below the world is negative.
#[derive(Clone, Copy, Debug, PartialEq, Eq, Structural)]
pub struct ScreenPosition {
    pub x: isize,
    pub y: isize,
}

impl Default for ScreenPosition {
    fn default() -> (position: Self)
        ensures
            position == (ScreenPosition { x: 0, y: 0 }),
    {
        ScreenPosition { x: 0, y: 0 }
    }
}

impl core::ops::Sub for ScreenPosition {
    type Output = Self;

    /// This pixel as seen from `other`.
    fn sub(self, other: Self) -> (difference: Self) {
        ScreenPosition { x: self.x - other.x, y: self.y - other.y }
    }
}

impl vstd::std_specs::ops::SubSpecImpl for ScreenPosition {
    open spec fn obeys_sub_spec() -> bool {
        true
    }

    open spec fn sub_req(self, other: Self) -> bool {
        &&& isize::MIN <= self.x - other.x <= isize::MAX
        &&& isize::MIN <= self.y - other.y <= isize::MAX
    }

    open spec fn sub_spec(self, other: Self) -> Self {
        ScreenPosition { x: (self.x - other.x) as isize, y: (self.y - other.y) as isize }
    }
}

impl ScreenPosition {
    /// The origin of the voxel under this pixel, or of the nearest voxel of
    /// the world if the pixel is outside.
    pub fn to_snapped(&self, world_config: &WorldConfig) -> (snapped: SnappedPosition)
        requires
            world_config.wf(),
        ensures
            snapped@ == (
                snap_axis(
                    self.x as int,
                    world_config.px_per_voxel as int,
                    world_config.pixels_width as int,
                ),
                snap_axis(
                    self.y as int,
                    world_config.px_per_voxel as int,
                    world_config.pixels_height as int,
                ),
            ),
    {
        SnappedPosition::from_screen_position(self, world_config)
    }
}

} // verus!
