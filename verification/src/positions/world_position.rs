//! The column and row of a voxel.

use vstd::prelude::*;
use crate::positions::pixel_of_voxel;
use crate::positions::snapped_position::SnappedPosition;

verus! {

/// Column `x` and row `y` of a voxel. Row 0 is the bottom row.
#[derive(Clone, Copy, Debug, PartialEq, Eq, Structural)]
pub struct WorldPosition {
    pub x: usize,
    pub y: usize,
}

impl Default for WorldPosition {
    fn default() -> (position: Self)
        ensures
            position == (WorldPosition { x: 0, y: 0 }),
    {
        WorldPosition { x: 0, y: 0 }
    }
}

impl core::ops::Add for WorldPosition {
    type Output = Self;

    /// The position that lies `other` columns and rows further on.
    fn add(self, other: Self) -> (sum: Self) {
        WorldPosition { x: self.x + other.x, y: self.y + other.y }
    }
}

impl vstd::std_specs::ops::AddSpecImpl for WorldPosition {
    open spec fn obeys_add_spec() -> bool {
        true
    }

    open spec fn add_req(self, other: Self) -> bool {
        self.x + other.x <= usize::MAX && self.y + other.y <= usize::MAX
    }

    open spec fn add_spec(self, other: Self) -> Self {
        WorldPosition { x: (self.x + other.x) as usize, y: (self.y + other.y) as usize }
    }
}

impl core::ops::Sub for WorldPosition {
    type Output = Self;

    /// The position that lies `other` columns and rows back.
    fn sub(self, other: Self) -> (difference: Self) {
        WorldPosition { x: self.x - other.x, y: self.y - other.y }
    }
}

impl vstd::std_specs::ops::SubSpecImpl for WorldPosition {
    open spec fn obeys_sub_spec() -> bool {
        true
    }

    open spec fn sub_req(self, other: Self) -> bool {
        self.x >= other.x && self.y >= other.y
    }

    open spec fn sub_spec(self, other: Self) -> Self {
        WorldPosition { x: (self.x - other.x) as usize, y: (self.y - other.y) as usize }
    }
}

impl WorldPosition {
    /// The place of this voxel in a row-major store that is `voxels_width`
    /// columns wide.
    pub open spec fn spec_as_index(&self, voxels_width: int) -> int {
        self.y * voxels_width + self.x
    }

    /// The voxel kept at `index` of a row-major store that is
    /// `voxels_width` columns wide.
    pub open spec fn spec_from_index(index: int, voxels_width: int) -> (int, int) {
        (index % voxels_width, index / voxels_width)
    }

    /// The pixel at the origin of this voxel.
    pub fn to_snapped(&self, px_per_voxel: usize) -> (snapped: SnappedPosition)
        requires
            self.x * px_per_voxel <= isize::MAX,
            self.y * px_per_voxel <= isize::MAX,
        ensures
            snapped@ == (
                pixel_of_voxel(self.x as int, px_per_voxel as int),
                pixel_of_voxel(self.y as int, px_per_voxel as int),
            ),
    {
        SnappedPosition::from_world_position(self, px_per_voxel)
    }

    /// The place of this voxel in a row-major store that is `voxels_width`
    /// columns wide.
    pub fn as_index(&self, voxels_width: usize) -> (index: usize)
        requires
            self.spec_as_index(voxels_width as int) <= usize::MAX,
        ensures
            index == self.spec_as_index(voxels_width as int),
    {
        proof {
            assert(self.y * voxels_width <= self.spec_as_index(voxels_width as int));
        }
        self.y * voxels_width + self.x
    }

    /// The voxel kept at `index` of a row-major store that is
    /// `voxels_width` columns wide.
    pub fn from_index(index: usize, voxels_width: usize) -> (position: Self)
        requires
            voxels_width > 0,
        ensures
            (position.x as int, position.y as int) == Self::spec_from_index(
                index as int,
                voxels_width as int,
            ),
    {
        WorldPosition { x: index % voxels_width, y: index / voxels_width }
    }
}

/// Every voxel of a grid has an index below the cell count, distinct from
/// that of every other voxel, and the index leads back to the voxel.
pub proof fn lemma_index_round_trip(position: WorldPosition, voxels_width: int, voxels_height: int)
    requires
        position.x < voxels_width,
        position.y < voxels_height,
    ensures
        0 <= position.spec_as_index(voxels_width) < voxels_width * voxels_height,
        WorldPosition::spec_from_index(position.spec_as_index(voxels_width), voxels_width) == (
            position.x as int,
            position.y as int,
        ),
{
    let x = position.x as int;
    let y = position.y as int;
    let index = position.spec_as_index(voxels_width);
    assert(0 <= y * voxels_width && y * voxels_width + voxels_width <= voxels_width
        * voxels_height) by (nonlinear_arith)
        requires
            0 <= y < voxels_height,
            0 < voxels_width,
    ;
    assert(voxels_width * y == y * voxels_width) by (nonlinear_arith);
    vstd::arithmetic::div_mod::lemma_fundamental_div_mod_converse(index, voxels_width, y, x);
}

/// An index below the cell count names a voxel of the grid, and that voxel
/// has this index.
pub proof fn lemma_position_round_trip(index: int, voxels_width: int, voxels_height: int)
    requires
        voxels_width > 0,
        0 <= index < voxels_width * voxels_height,
    ensures
        ({
            let (x, y) = WorldPosition::spec_from_index(index, voxels_width);
            &&& 0 <= x < voxels_width
            &&& 0 <= y < voxels_height
            &&& y * voxels_width + x == index
        }),
{
    let x = index % voxels_width;
    let y = index / voxels_width;
    vstd::arithmetic::div_mod::lemma_fundamental_div_mod(index, voxels_width);
    vstd::arithmetic::div_mod::lemma_mod_pos_bound(index, voxels_width);
    vstd::arithmetic::div_mod::lemma_div_pos_is_pos(index, voxels_width);
    assert(voxels_width * y == y * voxels_width) by (nonlinear_arith);
    assert(y < voxels_height) by (nonlinear_arith)
        requires
            y * voxels_width + x == index,
            0 <= x,
            index < voxels_width * voxels_height,
            voxels_width > 0,
    ;
}

} // verus!
