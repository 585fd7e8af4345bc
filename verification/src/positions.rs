//! The three ways to name a place in the world.
//!
//! A [`ScreenPosition`](screen_position::ScreenPosition) is any pixel, inside
//! the world or not. A [`SnappedPosition`](snapped_position::SnappedPosition)
//! is the pixel at the origin of a voxel. A
//! [`WorldPosition`](world_position::WorldPosition) is the column and row of
//! a voxel. The conversions between them are stated over the integer
//! functions of this module.

use vstd::prelude::*;
use crate::config::WorldConfig;
use crate::positions::screen_position::ScreenPosition;
use crate::positions::world_position::WorldPosition;

pub mod screen_position;
pub mod snapped_position;
pub mod world_position;

verus! {

/// One pixel coordinate brought to the origin of its voxel and into the
/// world: the largest multiple of `cell` that is at most `coordinate`, then
/// held between `0` and `extent - cell`.
pub open spec fn snap_axis(coordinate: int, cell: int, extent: int) -> int {
    let snapped = (coordinate / cell) * cell;
    if snapped < 0 {
        0
    } else if snapped > extent - cell {
        extent - cell
    } else {
        snapped
    }
}

/// The voxel index that holds a pixel coordinate.
pub open spec fn voxel_of_pixel(coordinate: int, cell: int) -> int {
    coordinate / cell
}

/// The pixel coordinate at which a voxel index starts.
pub open spec fn pixel_of_voxel(index: int, cell: int) -> int {
    index * cell
}

/// A snapped coordinate is a whole number of voxels and lies inside the
/// world.
pub proof fn lemma_snap_axis_in_world(coordinate: int, cell: int, voxels: int)
    requires
        cell > 0,
        voxels > 0,
    ensures
        0 <= snap_axis(coordinate, cell, voxels * cell) <= voxels * cell - cell,
        snap_axis(coordinate, cell, voxels * cell) % cell == 0,
        0 <= voxel_of_pixel(snap_axis(coordinate, cell, voxels * cell), cell) < voxels,
{
    let extent = voxels * cell;
    let s = snap_axis(coordinate, cell, extent);
    assert(extent - cell == (voxels - 1) * cell) by (nonlinear_arith)
        requires
            extent == voxels * cell,
    ;
    assert(extent - cell >= 0) by (nonlinear_arith)
        requires
            extent - cell == (voxels - 1) * cell,
            voxels >= 1,
            cell > 0,
    ;
    vstd::arithmetic::div_mod::lemma_mod_multiples_basic(coordinate / cell, cell);
    vstd::arithmetic::div_mod::lemma_mod_multiples_basic(voxels - 1, cell);
    assert(0int % cell == 0) by (nonlinear_arith)
        requires
            cell > 0,
    ;
    assert(s % cell == 0);
    vstd::arithmetic::div_mod::lemma_div_pos_is_pos(s, cell);
    assert(s / cell < voxels) by (nonlinear_arith)
        requires
            0 <= s <= (voxels - 1) * cell,
            cell > 0,
    ;
}

/// A coordinate that already is the origin of a voxel of the world is left
/// where it is by snapping.
pub proof fn lemma_snap_axis_fixes_origins(index: int, cell: int, voxels: int)
    requires
        cell > 0,
        0 <= index < voxels,
    ensures
        snap_axis(pixel_of_voxel(index, cell), cell, voxels * cell) == pixel_of_voxel(index, cell),
        voxel_of_pixel(pixel_of_voxel(index, cell), cell) == index,
{
    vstd::arithmetic::div_mod::lemma_div_multiples_vanish(index, cell);
    assert(cell * index == index * cell) by (nonlinear_arith);
    assert(0 <= index * cell <= voxels * cell - cell) by (nonlinear_arith)
        requires
            cell > 0,
            0 <= index < voxels,
    ;
}

/// Snapping a pixel of the world is the same as asking for its voxel and
/// taking that voxel's origin.
pub proof fn lemma_snap_axis_inside(coordinate: int, cell: int, voxels: int)
    requires
        cell > 0,
        0 <= coordinate < voxels * cell,
    ensures
        snap_axis(coordinate, cell, voxels * cell) == pixel_of_voxel(
            voxel_of_pixel(coordinate, cell),
            cell,
        ),
        0 <= voxel_of_pixel(coordinate, cell) < voxels,
{
    let q = coordinate / cell;
    vstd::arithmetic::div_mod::lemma_fundamental_div_mod(coordinate, cell);
    vstd::arithmetic::div_mod::lemma_mod_pos_bound(coordinate, cell);
    assert(cell * q == q * cell) by (nonlinear_arith);
    assert(0 <= q < voxels) by (nonlinear_arith)
        requires
            cell > 0,
            0 <= coordinate < voxels * cell,
            coordinate == q * cell + coordinate % cell,
            0 <= coordinate % cell < cell,
    ;
    assert(q * cell <= voxels * cell - cell) by (nonlinear_arith)
        requires
            cell > 0,
            0 <= q < voxels,
    ;
    assert(q * cell >= 0) by (nonlinear_arith)
        requires
            cell > 0,
            0 <= q,
    ;
}

/// Snapping a snapped coordinate changes nothing.
pub proof fn lemma_snap_axis_idempotent(coordinate: int, cell: int, voxels: int)
    requires
        cell > 0,
        voxels > 0,
    ensures
        snap_axis(snap_axis(coordinate, cell, voxels * cell), cell, voxels * cell) == snap_axis(
            coordinate,
            cell,
            voxels * cell,
        ),
{
    let once = snap_axis(coordinate, cell, voxels * cell);
    lemma_snap_axis_in_world(coordinate, cell, voxels);
    lemma_snap_axis_inside(once, cell, voxels);
    vstd::arithmetic::div_mod::lemma_fundamental_div_mod(once, cell);
    assert(cell * (once / cell) == (once / cell) * cell) by (nonlinear_arith);
}

/// The voxel under a pixel; for a pixel outside the world, the nearest
/// voxel of the world in the pixel's row and column.
pub open spec fn spec_screen_to_grid(
    screen: ScreenPosition,
    world_config: &WorldConfig,
) -> WorldPosition {
    WorldPosition {
        x: voxel_of_pixel(
            snap_axis(
                screen.x as int,
                world_config.px_per_voxel as int,
                world_config.pixels_width as int,
            ),
            world_config.px_per_voxel as int,
        ) as usize,
        y: voxel_of_pixel(
            snap_axis(
                screen.y as int,
                world_config.px_per_voxel as int,
                world_config.pixels_height as int,
            ),
            world_config.px_per_voxel as int,
        ) as usize,
    }
}

/// The pixel at the origin of a voxel.
pub open spec fn spec_grid_to_screen(
    position: WorldPosition,
    world_config: &WorldConfig,
) -> ScreenPosition {
    ScreenPosition {
        x: pixel_of_voxel(position.x as int, world_config.px_per_voxel as int) as isize,
        y: pixel_of_voxel(position.y as int, world_config.px_per_voxel as int) as isize,
    }
}

/// Every pixel, inside the world or not, has a voxel of the grid.
pub proof fn lemma_screen_to_grid_in_grid(screen: ScreenPosition, world_config: &WorldConfig)
    requires
        world_config.wf(),
    ensures
        spec_screen_to_grid(screen, world_config).x < world_config.voxels_width,
        spec_screen_to_grid(screen, world_config).y < world_config.voxels_height,
{
    lemma_snap_axis_in_world(
        screen.x as int,
        world_config.px_per_voxel as int,
        world_config.voxels_width as int,
    );
    lemma_snap_axis_in_world(
        screen.y as int,
        world_config.px_per_voxel as int,
        world_config.voxels_height as int,
    );
}

/// The origin of a voxel of the grid is a pixel of the world.
pub proof fn lemma_grid_to_screen_in_world(position: WorldPosition, world_config: &WorldConfig)
    requires
        world_config.wf(),
        position.x < world_config.voxels_width,
        position.y < world_config.voxels_height,
    ensures
        0 <= pixel_of_voxel(position.x as int, world_config.px_per_voxel as int)
            <= world_config.pixels_width - world_config.px_per_voxel,
        0 <= pixel_of_voxel(position.y as int, world_config.px_per_voxel as int)
            <= world_config.pixels_height - world_config.px_per_voxel,
        spec_grid_to_screen(position, world_config).x == position.x * world_config.px_per_voxel,
        spec_grid_to_screen(position, world_config).y == position.y * world_config.px_per_voxel,
        position.x * world_config.px_per_voxel <= isize::MAX,
        position.y * world_config.px_per_voxel <= isize::MAX,
{
    lemma_snap_axis_fixes_origins(
        position.x as int,
        world_config.px_per_voxel as int,
        world_config.voxels_width as int,
    );
    lemma_snap_axis_fixes_origins(
        position.y as int,
        world_config.px_per_voxel as int,
        world_config.voxels_height as int,
    );
    lemma_snap_axis_in_world(
        pixel_of_voxel(position.x as int, world_config.px_per_voxel as int),
        world_config.px_per_voxel as int,
        world_config.voxels_width as int,
    );
    lemma_snap_axis_in_world(
        pixel_of_voxel(position.y as int, world_config.px_per_voxel as int),
        world_config.px_per_voxel as int,
        world_config.voxels_height as int,
    );
}

/// From a voxel of the grid to its pixel and back leads to the same voxel.
pub proof fn lemma_grid_round_trip(position: WorldPosition, world_config: &WorldConfig)
    requires
        world_config.wf(),
        position.x < world_config.voxels_width,
        position.y < world_config.voxels_height,
    ensures
        spec_screen_to_grid(spec_grid_to_screen(position, world_config), world_config) == position,
{
    lemma_grid_to_screen_in_world(position, world_config);
    lemma_snap_axis_fixes_origins(
        position.x as int,
        world_config.px_per_voxel as int,
        world_config.voxels_width as int,
    );
    lemma_snap_axis_fixes_origins(
        position.y as int,
        world_config.px_per_voxel as int,
        world_config.voxels_height as int,
    );
}

/// The voxel under the pixel `screen`; for a pixel outside the world, the
/// nearest voxel of the world in the pixel's row and column.
pub fn screen_to_grid(screen: &ScreenPosition, world_config: &WorldConfig) -> (position:
    WorldPosition)
    requires
        world_config.wf(),
    ensures
        position == spec_screen_to_grid(*screen, world_config),
        position.x < world_config.voxels_width,
        position.y < world_config.voxels_height,
{
    proof {
        lemma_screen_to_grid_in_grid(*screen, world_config);
    }
    screen.to_snapped(world_config).to_world_position(world_config.px_per_voxel)
}

/// The pixel at the origin of the voxel `position`. Every voxel of the
/// grid has one; a voxel outside the grid has one if it fits a pixel
/// coordinate.
pub fn grid_to_screen(position: &WorldPosition, world_config: &WorldConfig) -> (screen:
    ScreenPosition)
    requires
        position.x * world_config.px_per_voxel <= isize::MAX,
        position.y * world_config.px_per_voxel <= isize::MAX,
    ensures
        screen == spec_grid_to_screen(*position, world_config),
{
    position.to_snapped(world_config.px_per_voxel).to_screen_position()
}

} // verus!
