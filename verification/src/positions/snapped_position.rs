//! The pixel at the origin of a voxel.

use vstd::prelude::*;
use crate::config::WorldConfig;
use crate::positions::{pixel_of_voxel, snap_axis, voxel_of_pixel};
use crate::positions::screen_position::ScreenPosition;
use crate::positions::world_position::WorldPosition;

verus! {

/// A pixel position that was brought to the origin of a voxel.
///
/// Its view is the pair of its coordinates. Both are at most `isize::MAX`,
/// so that every snapped position is a screen position too.
#[derive(Clone, Copy, Debug, PartialEq, Eq, Structural)]
pub struct SnappedPosition {
    x: usize,
    y: usize,
}

impl View for SnappedPosition {
    type V = (int, int);

    closed spec fn view(&self) -> (int, int) {
        (self.x as int, self.y as int)
    }
}

impl Default for SnappedPosition {
    fn default() -> (position: Self)
        ensures
            position@ == (0int, 0int),
    {
        SnappedPosition { x: 0, y: 0 }
    }
}

/// One axis of [`SnappedPosition::from_screen_position`].
fn snap_coordinate(coordinate: isize, cell: usize, extent: usize) -> (snapped: usize)
    requires
        0 < cell <= extent <= isize::MAX,
    ensures
        snapped == snap_axis(coordinate as int, cell as int, extent as int),
        snapped <= extent - cell,
{
    if coordinate < 0 {
        proof {
            let c = coordinate as int;
            let d = cell as int;
            vstd::arithmetic::div_mod::lemma_fundamental_div_mod(c, d);
            vstd::arithmetic::div_mod::lemma_mod_bound(c, d);
            assert((c / d) * d < 0) by (nonlinear_arith)
                requires
                    c < 0,
                    d > 0,
                    c == d * (c / d) + c % d,
                    0 <= c % d < d,
            ;
        }
        0
    } else {
        let pixel = coordinate as usize;
        proof {
            let c = pixel as int;
            let d = cell as int;
            vstd::arithmetic::div_mod::lemma_fundamental_div_mod(c, d);
            vstd::arithmetic::div_mod::lemma_mod_pos_bound(c, d);
            assert(0 <= (c / d) * d <= c) by (nonlinear_arith)
                requires
                    c >= 0,
                    d > 0,
                    c == d * (c / d) + c % d,
                    0 <= c % d < d,
            ;
        }
        let snapped = (pixel / cell) * cell;
        if snapped > extent - cell {
            extent - cell
        } else {
            snapped
        }
    }
}

impl SnappedPosition {
    #[verifier::type_invariant]
    spec fn fits_screen(&self) -> bool {
        self.x <= isize::MAX && self.y <= isize::MAX
    }

    /// The horizontal pixel coordinate.
    pub fn x(&self) -> (x: usize)
        ensures
            x == self@.0,
            x <= isize::MAX,
    {
        proof {
            use_type_invariant(self);
        }
        self.x
    }

    /// The vertical pixel coordinate.
    pub fn y(&self) -> (y: usize)
        ensures
            y == self@.1,
            y <= isize::MAX,
    {
        proof {
            use_type_invariant(self);
        }
        self.y
    }

    /// The same pixel as a screen position.
    pub fn to_screen_position(&self) -> (screen: ScreenPosition)
        ensures
            screen.x == self@.0,
            screen.y == self@.1,
    {
        proof {
            use_type_invariant(self);
        }
        ScreenPosition { x: self.x as isize, y: self.y as isize }
    }

    /// The voxel that holds this pixel, for voxels of `px_per_voxel` pixels.
    pub fn to_world_position(&self, px_per_voxel: usize) -> (world: WorldPosition)
        requires
            px_per_voxel > 0,
        ensures
            world.x == voxel_of_pixel(self@.0, px_per_voxel as int),
            world.y == voxel_of_pixel(self@.1, px_per_voxel as int),
    {
        WorldPosition { x: self.x / px_per_voxel, y: self.y / px_per_voxel }
    }

    /// The pixel at the origin of the voxel `world_pos`, for voxels of
    /// `px_per_voxel` pixels.
    pub fn from_world_position(world_pos: &WorldPosition, px_per_voxel: usize) -> (snapped:
        SnappedPosition)
        requires
            world_pos.x * px_per_voxel <= isize::MAX,
            world_pos.y * px_per_voxel <= isize::MAX,
        ensures
            snapped@ == (
                pixel_of_voxel(world_pos.x as int, px_per_voxel as int),
                pixel_of_voxel(world_pos.y as int, px_per_voxel as int),
            ),
    {
        SnappedPosition { x: world_pos.x * px_per_voxel, y: world_pos.y * px_per_voxel }
    }

    /// The origin of the voxel under the pixel `screen_pos`. A pixel outside
    /// the world is first brought to the nearest voxel of its row and column
    /// that is inside.
    pub fn from_screen_position(
        screen_pos: &ScreenPosition,
        world_config: &WorldConfig,
    ) -> (snapped: SnappedPosition)
        requires
            world_config.wf(),
        ensures
            snapped@ == (
                snap_axis(
                    screen_pos.x as int,
                    world_config.px_per_voxel as int,
                    world_config.pixels_width as int,
                ),
                snap_axis(
                    screen_pos.y as int,
                    world_config.px_per_voxel as int,
                    world_config.pixels_height as int,
                ),
            ),
    {
        proof {
            let px = world_config.px_per_voxel as int;
            let w = world_config.voxels_width as int;
            let h = world_config.voxels_height as int;
            assert(px <= w * px && px <= h * px) by (nonlinear_arith)
                requires
                    px > 0,
                    w >= 1,
                    h >= 1,
            ;
        }
        let cell = world_config.px_per_voxel;
        let x = snap_coordinate(screen_pos.x, cell, world_config.pixels_width);
        let y = snap_coordinate(screen_pos.y, cell, world_config.pixels_height);
        SnappedPosition { x, y }
    }
}

} // verus!
