//! The tick driver: one step of the simulation over all live voxels.
//!
//! The host names the live voxels by the screen positions of their
//! drawables. A tick takes them in the order in which they are listed and
//! works on the one grid: a voxel that is taken later sees the moves of
//! those taken before it. Each entry is taken once, at the cell that it
//! names at that moment: when two voxels change places, the entry of the
//! voxel that was pushed aside goes with it.

use vstd::prelude::*;
use crate::config::WorldConfig;
use crate::map::{lemma_apply_keeps_grid, lemma_legal_move_keeps_voxels, GameMap, Grid};
use crate::positions::{
    grid_to_screen,
    lemma_grid_to_screen_in_world,
    screen_to_grid,
    spec_grid_to_screen,
    spec_screen_to_grid,
};
use crate::positions::screen_position::ScreenPosition;
use crate::positions::world_position::WorldPosition;
use crate::voxels::{lemma_update_is_legal, Move, Voxel};

verus! {

/// One drawable that the host has to move after a tick.
#[derive(Clone, Copy, Debug, PartialEq, Eq, Structural)]
pub struct VoxelUpdate {
    /// Where the drawable was.
    pub old_position: ScreenPosition,
    /// Where it has to go.
    pub new_position: ScreenPosition,
    /// The voxel that it shows.
    pub voxel: Voxel,
}

/// What a tick works on: the grid, the cell that each live entry names, and
/// the updates gathered so far.
pub struct TickState {
    pub grid: Grid,
    pub positions: Seq<WorldPosition>,
    pub updates: Seq<VoxelUpdate>,
}

/// The cells that the entries name after entry `index` made `action` from
/// `source`. The entry itself names the target. After a swap, every other
/// entry that named the target names `source`.
pub open spec fn relocate(
    positions: Seq<WorldPosition>,
    index: int,
    source: WorldPosition,
    action: Move,
) -> Seq<WorldPosition> {
    match action {
        Move::Displace(target) => positions.update(index, target),
        Move::Swap(target) => Seq::new(
            positions.len(),
            |k: int|
                if k == index {
                    target
                } else if positions[k] == target {
                    source
                } else {
                    positions[k]
                },
        ),
    }
}

/// The updates that follow from `voxel` making `action` from `source` on
/// `grid`: one for the voxel, and after a swap one for the voxel that it
/// changed places with.
pub open spec fn updates_of(
    grid: Grid,
    world_config: &WorldConfig,
    source: WorldPosition,
    voxel: Voxel,
    action: Move,
) -> Seq<VoxelUpdate> {
    let moved = VoxelUpdate {
        old_position: spec_grid_to_screen(source, world_config),
        new_position: spec_grid_to_screen(action.target(), world_config),
        voxel,
    };
    match action {
        Move::Displace(_) => seq![moved],
        Move::Swap(target) => match grid.occupant(target) {
            Some(other) => seq![
                moved,
                VoxelUpdate {
                    old_position: spec_grid_to_screen(target, world_config),
                    new_position: spec_grid_to_screen(source, world_config),
                    voxel: other,
                },
            ],
            None => seq![moved],
        },
    }
}

/// The state after entry `index` was taken: the voxel at the cell that it
/// names makes its move, if there is a voxel and it can move.
pub open spec fn step(state: TickState, world_config: &WorldConfig, index: int) -> TickState {
    let source = state.positions[index];
    match state.grid.occupant(source) {
        None => state,
        Some(voxel) => match voxel.spec_update(state.grid, source) {
            None => state,
            Some(action) => TickState {
                grid: state.grid.apply(source, action),
                positions: relocate(state.positions, index, source, action),
                updates: state.updates + updates_of(
                    state.grid,
                    world_config,
                    source,
                    voxel,
                    action,
                ),
            },
        },
    }
}

/// The state after the entries from `from` up to `count` were taken, in
/// that order.
pub open spec fn run(
    state: TickState,
    world_config: &WorldConfig,
    from: nat,
    count: nat,
) -> TickState
    decreases count - from,
{
    if from >= count {
        state
    } else {
        run(step(state, world_config, from as int), world_config, from + 1, count)
    }
}

/// The state after one tick over the live voxels that `live` names.
pub open spec fn spec_tick(
    grid: Grid,
    world_config: &WorldConfig,
    live: Seq<ScreenPosition>,
) -> TickState {
    run(
        TickState {
            grid,
            positions: Seq::new(live.len(), |k: int| spec_screen_to_grid(live[k], world_config)),
            updates: Seq::empty(),
        },
        world_config,
        0,
        live.len(),
    )
}

/// Taking an entry leaves a grid of the same size with the same number of
/// voxels.
pub proof fn lemma_step_keeps_voxels(state: TickState, world_config: &WorldConfig, index: int)
    requires
        state.grid.wf(),
    ensures
        step(state, world_config, index).grid.wf(),
        step(state, world_config, index).grid.width == state.grid.width,
        step(state, world_config, index).grid.height == state.grid.height,
        step(state, world_config, index).grid.voxel_count() == state.grid.voxel_count(),
{
    let source = state.positions[index];
    if let Some(voxel) = state.grid.occupant(source) {
        if let Some(action) = voxel.spec_update(state.grid, source) {
            lemma_update_is_legal(voxel, state.grid, source);
            lemma_apply_keeps_grid(state.grid, source, action);
            lemma_legal_move_keeps_voxels(state.grid, source, action);
        }
    }
}

/// A tick neither makes nor loses a voxel, and leaves a grid of the same
/// size.
pub proof fn lemma_tick_keeps_voxels(
    grid: Grid,
    world_config: &WorldConfig,
    live: Seq<ScreenPosition>,
)
    requires
        grid.wf(),
    ensures
        spec_tick(grid, world_config, live).grid.wf(),
        spec_tick(grid, world_config, live).grid.width == grid.width,
        spec_tick(grid, world_config, live).grid.height == grid.height,
        spec_tick(grid, world_config, live).grid.voxel_count() == grid.voxel_count(),
{
    let start = TickState {
        grid,
        positions: Seq::new(live.len(), |k: int| spec_screen_to_grid(live[k], world_config)),
        updates: Seq::empty(),
    };
    lemma_run_keeps_voxels(start, world_config, 0, live.len());
}

proof fn lemma_run_keeps_voxels(state: TickState, world_config: &WorldConfig, from: nat, count: nat)
    requires
        state.grid.wf(),
    ensures
        run(state, world_config, from, count).grid.wf(),
        run(state, world_config, from, count).grid.width == state.grid.width,
        run(state, world_config, from, count).grid.height == state.grid.height,
        run(state, world_config, from, count).grid.voxel_count() == state.grid.voxel_count(),
    decreases count - from,
{
    if from < count {
        lemma_step_keeps_voxels(state, world_config, from as int);
        lemma_run_keeps_voxels(
            step(state, world_config, from as int),
            world_config,
            from + 1,
            count,
        );
    }
}

/// Takes entry `index`: lets the voxel at the cell that the entry names make
/// its move, and records what the host has to redraw.
fn advance(
    map: &mut GameMap,
    world_config: &WorldConfig,
    positions: &mut Vec<WorldPosition>,
    updates: &mut Vec<VoxelUpdate>,
    index: usize,
)
    requires
        old(map).wf(),
        world_config.wf(),
        old(map).fits(world_config),
        index < old(positions)@.len(),
        forall|k: int| 0 <= k < old(positions)@.len() ==> old(map)@.contains(old(positions)@[k]),
    ensures
        final(map).wf(),
        final(map).fits(world_config),
        final(positions)@.len() == old(positions)@.len(),
        forall|k: int|
            0 <= k < final(positions)@.len() ==> final(map)@.contains(final(positions)@[k]),
        (TickState { grid: final(map)@, positions: final(positions)@, updates: final(updates)@ })
            == step(
            TickState { grid: old(map)@, positions: old(positions)@, updates: old(updates)@ },
            world_config,
            index as int,
        ),
{
    let source = positions[index];
    let voxel = match map.get_cell(&source) {
        Ok(Some(voxel)) => voxel,
        _ => { return ; },
    };
    let action = match voxel.update(world_config, map, source) {
        Some(action) => action,
        None => { return ; },
    };
    proof {
        lemma_update_is_legal(voxel, map@, source);
        lemma_grid_to_screen_in_world(source, world_config);
        lemma_grid_to_screen_in_world(action.target(), world_config);
    }
    let ghost before = TickState { grid: map@, positions: positions@, updates: updates@ };
    let old_position = grid_to_screen(&source, world_config);
    match action {
        Move::Displace(target) => {
            let new_position = grid_to_screen(&target, world_config);
            let _ = map.apply_move(&source, &action);
            positions.set(index, target);
            updates.push(VoxelUpdate { old_position, new_position, voxel });
        },
        Move::Swap(target) => {
            let new_position = grid_to_screen(&target, world_config);
            let other = map.get_cell(&target);
            let _ = map.apply_move(&source, &action);
            let count = positions.len();
            let mut k: usize = 0;
            while k < count
                invariant
                    k <= count,
                    index < count,
                    positions@.len() == count,
                    before.positions.len() == count,
                    forall|j: int|
                        0 <= j < k ==> positions@[j] == relocate(
                            before.positions,
                            index as int,
                            source,
                            action,
                        )[j],
                    forall|j: int| k <= j < count ==> positions@[j] == before.positions[j],
                    action == Move::Swap(target),
                decreases count - k,
            {
                if k == index {
                    positions.set(k, target);
                } else if positions[k] == target {
                    positions.set(k, source);
                }
                k = k + 1;
            }
            updates.push(VoxelUpdate { old_position, new_position, voxel });
            if let Ok(Some(other)) = other {
                updates.push(
                    VoxelUpdate {
                        old_position: new_position,
                        new_position: old_position,
                        voxel: other,
                    },
                );
            }
        },
    }
    proof {
        let after = step(before, world_config, index as int);
        assert(positions@ =~= after.positions);
        assert(updates@ =~= after.updates);
    }
}

/// Runs one tick over the live voxels whose drawables stand at `live`, and
/// returns what the host has to redraw, in the order in which it happened.
///
/// The entries are taken in the order of `live`, each at the cell under its
/// position, on the one grid. An entry whose cell is empty when its turn
/// comes is passed over.
pub fn tick(map: &mut GameMap, world_config: &WorldConfig, live: &Vec<ScreenPosition>) -> (updates:
    Vec<VoxelUpdate>)
    requires
        old(map).wf(),
        world_config.wf(),
        old(map).fits(world_config),
    ensures
        final(map).wf(),
        final(map).fits(world_config),
        final(map)@ == spec_tick(old(map)@, world_config, live@).grid,
        updates@ == spec_tick(old(map)@, world_config, live@).updates,
        final(map)@.voxel_count() == old(map)@.voxel_count(),
{
    proof {
        lemma_tick_keeps_voxels(map@, world_config, live@);
    }
    let count = live.len();
    let mut positions: Vec<WorldPosition> = Vec::new();
    let mut read: usize = 0;
    while read < count
        invariant
            read <= count,
            count == live@.len(),
            world_config.wf(),
            map.fits(world_config),
            positions@.len() == read,
            forall|k: int|
                0 <= k < read ==> positions@[k] == spec_screen_to_grid(live@[k], world_config),
            forall|k: int| 0 <= k < read ==> map@.contains(positions@[k]),
        decreases count - read,
    {
        positions.push(screen_to_grid(&live[read], world_config));
        read = read + 1;
    }
    let mut updates: Vec<VoxelUpdate> = Vec::new();
    let ghost start = TickState { grid: map@, positions: positions@, updates: updates@ };
    proof {
        assert(start.positions =~= Seq::new(
            live@.len(),
            |k: int| spec_screen_to_grid(live@[k], world_config),
        ));
    }
    let mut taken: usize = 0;
    while taken < count
        invariant
            taken <= count,
            world_config.wf(),
            map.wf(),
            map.fits(world_config),
            positions@.len() == count,
            forall|k: int| 0 <= k < count ==> map@.contains(positions@[k]),
            run(
                TickState { grid: map@, positions: positions@, updates: updates@ },
                world_config,
                taken as nat,
                count as nat,
            ) == run(start, world_config, 0, count as nat),
        decreases count - taken,
    {
        advance(map, world_config, &mut positions, &mut updates, taken);
        taken = taken + 1;
    }
    updates
}

} // verus!
