//! The dimensions of the world, fixed when the world is created.

use vstd::prelude::*;

verus! {

/// Size of the voxel grid and of one voxel on screen.
///
/// `pixels_width` and `pixels_height` are derived from the other three fields.
/// A configuration made by [`WorldConfig::new`] or [`WorldConfig::try_new`]
/// is well formed; one written as a literal need not be.
#[derive(Clone, Copy, Debug, PartialEq, Eq, Structural)]
pub struct WorldConfig {
    /// Number of voxel columns.
    pub voxels_width: usize,
    /// Number of voxel rows.
    pub voxels_height: usize,
    /// Edge of one voxel, in pixels.
    pub px_per_voxel: usize,
    /// Width of the world in pixels.
    pub pixels_width: usize,
    /// Height of the world in pixels.
    pub pixels_height: usize,
}

/// The dimensions from which a well-formed configuration can be made: all
/// positive, with a pixel extent that fits a signed pixel coordinate and a
/// cell count that fits `usize`.
pub open spec fn valid_dimensions(
    voxels_width: int,
    voxels_height: int,
    px_per_voxel: int,
) -> bool {
    &&& voxels_width > 0
    &&& voxels_height > 0
    &&& px_per_voxel > 0
    &&& voxels_width * px_per_voxel <= isize::MAX
    &&& voxels_height * px_per_voxel <= isize::MAX
    &&& voxels_width * voxels_height <= usize::MAX
}

impl WorldConfig {
    /// The configuration's invariant.
    pub open spec fn wf(&self) -> bool {
        &&& valid_dimensions(
            self.voxels_width as int,
            self.voxels_height as int,
            self.px_per_voxel as int,
        )
        &&& self.pixels_width == self.voxels_width * self.px_per_voxel
        &&& self.pixels_height == self.voxels_height * self.px_per_voxel
    }

    /// Number of cells of the grid.
    pub open spec fn spec_cell_count(&self) -> int {
        self.voxels_width * self.voxels_height
    }

    /// Builds the configuration of a world of `voxels_width` by
    /// `voxels_height` voxels, each `px_per_voxel` pixels wide.
    pub fn new(voxels_width: usize, voxels_height: usize, px_per_voxel: usize) -> (config: Self)
        requires
            valid_dimensions(voxels_width as int, voxels_height as int, px_per_voxel as int),
        ensures
            config.wf(),
            config.voxels_width == voxels_width,
            config.voxels_height == voxels_height,
            config.px_per_voxel == px_per_voxel,
    {
        WorldConfig {
            voxels_width,
            voxels_height,
            px_per_voxel,
            pixels_width: voxels_width * px_per_voxel,
            pixels_height: voxels_height * px_per_voxel,
        }
    }

    /// Builds the configuration if the dimensions allow one.
    pub fn try_new(voxels_width: usize, voxels_height: usize, px_per_voxel: usize) -> (config:
        Option<Self>)
        ensures
            config.is_some() <==> valid_dimensions(
                voxels_width as int,
                voxels_height as int,
                px_per_voxel as int,
            ),
            config matches Some(c) ==> c.wf() && c.voxels_width == voxels_width && c.voxels_height
                == voxels_height && c.px_per_voxel == px_per_voxel,
    {
        if voxels_width == 0 || voxels_height == 0 || px_per_voxel == 0 {
            return None;
        }
        let limit: usize = isize::MAX as usize;
        let pixels_width = match voxels_width.checked_mul(px_per_voxel) {
            Some(p) => p,
            None => { return None; },
        };
        let pixels_height = match voxels_height.checked_mul(px_per_voxel) {
            Some(p) => p,
            None => { return None; },
        };
        if pixels_width > limit || pixels_height > limit {
            return None;
        }
        if voxels_width.checked_mul(voxels_height).is_none() {
            return None;
        }
        Some(WorldConfig { voxels_width, voxels_height, px_per_voxel, pixels_width, pixels_height })
    }

    /// Whether the configuration is well formed. One made by `new` or
    /// `try_new` and not changed since always is.
    pub fn is_well_formed(&self) -> (ok: bool)
        ensures
            ok == self.wf(),
    {
        match Self::try_new(self.voxels_width, self.voxels_height, self.px_per_voxel) {
            Some(made) => made.pixels_width == self.pixels_width && made.pixels_height
                == self.pixels_height,
            None => false,
        }
    }

    /// Number of cells of the grid.
    pub fn cell_count(&self) -> (count: usize)
        requires
            self.wf(),
        ensures
            count == self.spec_cell_count(),
    {
        self.voxels_width * self.voxels_height
    }
}

} // verus!
