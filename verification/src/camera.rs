//! What the camera does when the player scrolls the world sideways.
//!
//! The host reads the keys and moves the camera. What to do is decided
//! here, from the keys and from where the player looks.

use vstd::prelude::*;
use crate::config::WorldConfig;

verus! {

/// Pixels that the camera moves in one step.
pub const CAMERA_SPEED: u32 = 5;

/// The pixel of the world at the left edge of what the player sees.
#[derive(Clone, Copy, Debug, PartialEq, Eq, Structural)]
pub struct PlayerWorldViewpoint {
    pub x: u32,
    pub y: u32,
}

/// What the host has to do with the camera.
#[derive(Clone, Copy, Debug, PartialEq, Eq, Structural)]
pub enum CameraMove {
    /// Nothing.
    Stay,
    /// Move the camera `CAMERA_SPEED` pixels to the left.
    Left,
    /// Move the camera `CAMERA_SPEED` pixels to the right.
    Right,
    /// The view has reached the right edge of the world: narrow the
    /// viewport by `2 * CAMERA_SPEED` pixels and move it as far to the right.
    ShrinkViewport,
}

/// The part of the window that the camera draws to, along the horizontal
/// axis: its left edge and its width, in physical pixels.
#[derive(Clone, Copy, Debug, PartialEq, Eq, Structural)]
pub struct ViewportSpan {
    pub position: u32,
    pub size: u32,
}

impl ViewportSpan {
    /// The span after the viewport shrank by one step: narrower by
    /// `2 * CAMERA_SPEED` pixels, and as far to the right. `None` where it is
    /// too narrow for that, or too far to the right for a `u32`.
    pub open spec fn spec_shrunk(self) -> Option<ViewportSpan> {
        if self.size >= 2 * CAMERA_SPEED && self.position + 2 * CAMERA_SPEED <= u32::MAX {
            Some(
                ViewportSpan {
                    position: (self.position + 2 * CAMERA_SPEED) as u32,
                    size: (self.size - 2 * CAMERA_SPEED) as u32,
                },
            )
        } else {
            None
        }
    }

    /// The span after the viewport shrank by one step, if it can.
    pub fn shrunk(&self) -> (span: Option<ViewportSpan>)
        ensures
            span == self.spec_shrunk(),
    {
        let step = 2 * CAMERA_SPEED;
        if self.size >= step && self.position <= u32::MAX - step {
            Some(ViewportSpan { position: self.position + step, size: self.size - step })
        } else {
            None
        }
    }
}

/// The column of pixels that the player looks at after the keys were
/// applied to `x`: a step to the left for `left`, then a step to the right
/// for `right`, each taken round a world of `pixels_width` pixels.
pub open spec fn spec_scroll(x: int, left: bool, right: bool, pixels_width: int) -> int {
    let after_left = if left {
        (x - CAMERA_SPEED) % pixels_width
    } else {
        x
    };
    if right {
        (after_left + CAMERA_SPEED) % pixels_width
    } else {
        after_left
    }
}

/// What the camera does for the keys that are down. Left wins over right,
/// and is taken only while the player does not yet look at the left edge.
/// To the right the camera moves while the right edge of the view is inside
/// the world; from there on the viewport shrinks.
pub open spec fn spec_camera_move(
    left: bool,
    right: bool,
    viewpoint_x: u32,
    right_edge_in_world: bool,
) -> CameraMove {
    if left && viewpoint_x > 0 {
        CameraMove::Left
    } else if right {
        if right_edge_in_world {
            CameraMove::Right
        } else {
            CameraMove::ShrinkViewport
        }
    } else {
        CameraMove::Stay
    }
}

/// The world is as wide as its columns and cells say, and that is more than
/// nothing.
proof fn lemma_world_has_pixels(world_config: &WorldConfig)
    requires
        world_config.wf(),
    ensures
        world_config.pixels_width > 0,
{
    let columns = world_config.voxels_width as int;
    let cell = world_config.px_per_voxel as int;
    assert(columns * cell > 0) by (nonlinear_arith)
        requires
            columns > 0,
            cell > 0,
    ;
}

impl PlayerWorldViewpoint {
    /// Whether [`PlayerWorldViewpoint::scroll`] can take the keys from
    /// `x`: the world is well formed and not wider than a `u32` counts, a
    /// step to the left does not lead below zero, and a step to the right
    /// not beyond what a `u32` counts.
    pub open spec fn can_scroll(
        x: u32,
        left: bool,
        right: bool,
        world_config: &WorldConfig,
    ) -> bool {
        &&& world_config.wf()
        &&& world_config.pixels_width <= u32::MAX
        &&& left ==> x >= CAMERA_SPEED
        &&& right ==> spec_scroll(x as int, left, false, world_config.pixels_width as int)
            + CAMERA_SPEED <= u32::MAX
    }

    /// Scrolls the viewpoint by the keys that are down: `left` takes it a
    /// step to the left, `right` a step to the right, round the world.
    pub fn scroll(&mut self, left: bool, right: bool, world_config: &WorldConfig)
        requires
            Self::can_scroll(old(self).x, left, right, world_config),
        ensures
            final(self).x == spec_scroll(
                old(self).x as int,
                left,
                right,
                world_config.pixels_width as int,
            ),
            final(self).y == old(self).y,
    {
        proof {
            lemma_world_has_pixels(world_config);
        }
        let pixels_width = world_config.pixels_width as u32;
        if left {
            self.x = (self.x - CAMERA_SPEED) % pixels_width;
        }
        if right {
            self.x = (self.x + CAMERA_SPEED) % pixels_width;
        }
    }

    /// Scrolls the viewpoint by the keys that are down if that can be done,
    /// and says whether it was. Otherwise the viewpoint stays where it is.
    pub fn try_scroll(&mut self, left: bool, right: bool, world_config: &WorldConfig) -> (done:
        bool)
        ensures
            done == Self::can_scroll(old(self).x, left, right, world_config),
            done ==> final(self).x == spec_scroll(
                old(self).x as int,
                left,
                right,
                world_config.pixels_width as int,
            ),
            !done ==> final(self).x == old(self).x,
            final(self).y == old(self).y,
    {
        if !world_config.is_well_formed() || world_config.pixels_width > u32::MAX as usize {
            return false;
        }
        if left && self.x < CAMERA_SPEED {
            return false;
        }
        proof {
            lemma_world_has_pixels(world_config);
        }
        let pixels_width = world_config.pixels_width as u32;
        let after_left = if left {
            (self.x - CAMERA_SPEED) % pixels_width
        } else {
            self.x
        };
        if right && after_left > u32::MAX - CAMERA_SPEED {
            return false;
        }
        self.scroll(left, right, world_config);
        true
    }
}

/// What the camera does for the keys that are down, with the player looking
/// at column `viewpoint_x`. `right_edge_in_world` says whether the right
/// edge of the view is still left of the right edge of the world.
pub fn camera_move(left: bool, right: bool, viewpoint_x: u32, right_edge_in_world: bool) -> (action:
    CameraMove)
    ensures
        action == spec_camera_move(left, right, viewpoint_x, right_edge_in_world),
{
    if left && viewpoint_x > 0 {
        CameraMove::Left
    } else if right {
        if right_edge_in_world {
            CameraMove::Right
        } else {
            CameraMove::ShrinkViewport
        }
    } else {
        CameraMove::Stay
    }
}

} // verus!
