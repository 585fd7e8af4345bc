//! The grid that holds the voxels, and the lookup of a cell's neighbours.

use vstd::prelude::*;
use crate::config::WorldConfig;
use crate::positions::world_position::{lemma_index_round_trip, WorldPosition};
use crate::voxels::{Element, Move, Voxel, VoxelStruct};

verus! {

/// The directions in which a voxel looks for a place to go.
#[derive(Clone, Copy, Debug, PartialEq, Eq, Structural)]
pub enum Direction {
    Left,
    Right,
    Bottom,
    BottomLeft,
    BottomRight,
    /// Two rows down, one column to the left.
    Bottom2Left,
    /// Two rows down, one column to the right.
    Bottom2Right,
}

impl Direction {
    /// Columns to the right that the direction leads; negative to the left.
    pub open spec fn column_shift(self) -> int {
        match self {
            Direction::Left | Direction::BottomLeft | Direction::Bottom2Left => -1,
            Direction::Right | Direction::BottomRight | Direction::Bottom2Right => 1,
            Direction::Bottom => 0,
        }
    }

    /// Rows down that the direction leads.
    pub open spec fn rows_down(self) -> int {
        match self {
            Direction::Left | Direction::Right => 0,
            Direction::Bottom | Direction::BottomLeft | Direction::BottomRight => 1,
            Direction::Bottom2Left | Direction::Bottom2Right => 2,
        }
    }
}

/// The only failure of the grid: a cell was asked for that the grid does not
/// have.
#[derive(Clone, Copy, Debug, PartialEq, Eq, Structural)]
pub enum MapError {
    OutOfRange,
}

/// A grid as contracts see it: its size and the voxels of its occupied
/// cells. A cell that `cells` has no entry for is empty.
pub struct Grid {
    pub width: nat,
    pub height: nat,
    pub cells: Map<WorldPosition, Voxel>,
}

impl Grid {
    /// Whether `position` is a cell of the grid.
    pub open spec fn contains(self, position: WorldPosition) -> bool {
        position.x < self.width && position.y < self.height
    }

    /// The grid's invariant: it has cells, no more columns or rows than a
    /// position can name, every entry is at a cell of the grid, and no entry
    /// is the out-of-grid mark.
    pub open spec fn wf(self) -> bool {
        &&& 0 < self.width <= usize::MAX
        &&& 0 < self.height <= usize::MAX
        &&& self.cells.dom().finite()
        &&& forall|position: WorldPosition| #[trigger]
            self.cells.dom().contains(position) ==> self.contains(position)
                && self.cells[position] is of
    }

    /// Number of voxels on the grid.
    pub open spec fn voxel_count(self) -> nat {
        self.cells.dom().len()
    }

    /// What the cell at `position` holds; `None` if it is empty.
    pub open spec fn occupant(self, position: WorldPosition) -> Option<Voxel> {
        if self.cells.dom().contains(position) {
            Some(self.cells[position])
        } else {
            None
        }
    }

    /// The grid with `voxel` at `position`, whatever was there.
    pub open spec fn place(self, position: WorldPosition, voxel: Voxel) -> Grid {
        Grid { cells: self.cells.insert(position, voxel), ..self }
    }

    /// The grid with the cell at `position` empty.
    pub open spec fn clear(self, position: WorldPosition) -> Grid {
        Grid { cells: self.cells.remove(position), ..self }
    }

    /// The grid with `occupant` as the content of the cell at `position`.
    pub open spec fn put(self, position: WorldPosition, occupant: Option<Voxel>) -> Grid {
        match occupant {
            Some(voxel) => self.place(position, voxel),
            None => self.clear(position),
        }
    }

    /// The place that `direction` leads to from `position`. Columns wrap
    /// round the grid. Rows do not: below row 0 the row stays 0.
    pub open spec fn target(self, position: WorldPosition, direction: Direction) -> WorldPosition {
        WorldPosition {
            x: ((position.x + direction.column_shift()) % (self.width as int)) as usize,
            y: if position.y >= direction.rows_down() {
                (position.y - direction.rows_down()) as usize
            } else {
                0
            },
        }
    }

    /// What a voxel at `position` finds in `direction`, and where. Where the
    /// direction leads below the bottom row, or to a row that the grid does
    /// not have, it finds the out-of-grid mark.
    pub open spec fn neighbour(self, position: WorldPosition, direction: Direction) -> (
        Option<Voxel>,
        WorldPosition,
    ) {
        let target = self.target(position, direction);
        if position.y < direction.rows_down() || target.y >= self.height {
            (Some(Voxel::OOB), target)
        } else {
            (self.occupant(target), target)
        }
    }

    /// The grid after the voxel at `source` made the move `action`. A
    /// displaced voxel leaves its cell empty and takes the target, whatever
    /// was there. Swapped cells exchange what they hold. Where `source` is
    /// empty nothing moves.
    pub open spec fn apply(self, source: WorldPosition, action: Move) -> Grid {
        match self.occupant(source) {
            None => self,
            Some(voxel) => match action {
                Move::Displace(target) => self.clear(source).place(target, voxel),
                Move::Swap(target) => self.put(source, self.occupant(target)).place(target, voxel),
            },
        }
    }
}

/// The grid store: one cell for each position of the world, each empty or
/// holding a voxel.
pub struct GameMap {
    width: usize,
    height: usize,
    cells: Vec<Option<Voxel>>,
}

impl View for GameMap {
    type V = Grid;

    closed spec fn view(&self) -> Grid {
        Grid {
            width: self.width as nat,
            height: self.height as nat,
            cells: Map::new(
                |position: WorldPosition|
                    position.x < self.width && position.y < self.height
                        && self.cells@[position.spec_as_index(self.width as int)] is Some,
                |position: WorldPosition|
                    self.cells@[position.spec_as_index(self.width as int)].unwrap(),
            ),
        }
    }
}

impl GameMap {
    /// The store has one cell for each position.
    pub closed spec fn storage_wf(&self) -> bool {
        self.cells@.len() == self.width * self.height
    }

    /// The map's invariant.
    pub open spec fn wf(&self) -> bool {
        self.storage_wf() && self@.wf()
    }

    /// Whether the map has the size that `world_config` gives.
    pub open spec fn fits(&self, world_config: &WorldConfig) -> bool {
        self@.width == world_config.voxels_width && self@.height == world_config.voxels_height
    }

    /// An empty map of `voxels_width` by `voxels_height` cells.
    pub fn new(voxels_width: usize, voxels_height: usize) -> (map: Self)
        requires
            voxels_width > 0,
            voxels_height > 0,
            voxels_width * voxels_height <= usize::MAX,
        ensures
            map.wf(),
            map@.width == voxels_width,
            map@.height == voxels_height,
            map@.cells == Map::<WorldPosition, Voxel>::empty(),
    {
        let count = voxels_width * voxels_height;
        let mut cells: Vec<Option<Voxel>> = Vec::new();
        let mut filled: usize = 0;
        while filled < count
            invariant
                filled <= count,
                cells@.len() == filled,
                forall|i: int| 0 <= i < filled ==> cells@[i] is None,
            decreases count - filled,
        {
            cells.push(None);
            filled = filled + 1;
        }
        let map = GameMap { width: voxels_width, height: voxels_height, cells };
        proof {
            assert forall|position: WorldPosition| !(#[trigger] map@.cells.dom().contains(
                position,
            )) by {
                if position.x < voxels_width && position.y < voxels_height {
                    lemma_index_round_trip(position, voxels_width as int, voxels_height as int);
                }
            }
            assert(map@.cells =~= Map::<WorldPosition, Voxel>::empty());
        }
        map
    }

    /// The empty map of the world that `world_config` describes.
    pub fn initialize(world_config: &WorldConfig) -> (map: Self)
        requires
            world_config.wf(),
        ensures
            map.wf(),
            map.fits(world_config),
            map@.cells == Map::<WorldPosition, Voxel>::empty(),
    {
        Self::new(world_config.voxels_width, world_config.voxels_height)
    }

    /// Number of columns.
    pub fn width(&self) -> (width: usize)
        ensures
            width == self@.width,
    {
        self.width
    }

    /// Number of rows.
    pub fn height(&self) -> (height: usize)
        ensures
            height == self@.height,
    {
        self.height
    }

    /// Where the store keeps the cell at `position`.
    fn index_of(&self, position: &WorldPosition) -> (index: usize)
        requires
            self.storage_wf(),
            self@.contains(*position),
        ensures
            index == position.spec_as_index(self.width as int),
            index < self.cells@.len(),
    {
        let count = self.cells.len();
        proof {
            lemma_index_round_trip(*position, self.width as int, self.height as int);
            assert(position.y * self.width <= position.spec_as_index(self.width as int));
            assert(position.spec_as_index(self.width as int) < count);
        }
        position.y * self.width + position.x
    }

    /// What the cell at `position` holds: `None` for an empty cell, never
    /// the out-of-grid mark. Fails for a position that the grid does not
    /// have.
    pub fn get_cell(&self, position: &WorldPosition) -> (cell: Result<Option<Voxel>, MapError>)
        requires
            self.wf(),
        ensures
            self@.contains(*position) ==> cell == Ok::<Option<Voxel>, MapError>(
                self@.occupant(*position),
            ),
            !self@.contains(*position) ==> cell == Err::<Option<Voxel>, MapError>(
                MapError::OutOfRange,
            ),
            cell != Ok::<Option<Voxel>, MapError>(Some(Voxel::OOB)),
    {
        if position.x >= self.width || position.y >= self.height {
            return Err(MapError::OutOfRange);
        }
        let index = self.index_of(position);
        Ok(self.cells[index])
    }

    /// Makes `occupant` the content of the cell at `position`.
    fn store(&mut self, position: &WorldPosition, occupant: Option<Voxel>)
        requires
            old(self).wf(),
            old(self)@.contains(*position),
            occupant != Some(Voxel::OOB),
        ensures
            final(self).wf(),
            final(self)@ == old(self)@.put(*position, occupant),
    {
        let index = self.index_of(position);
        self.cells.set(index, occupant);
        proof {
            let width = self.width as int;
            let height = self.height as int;
            let expected = old(self)@.put(*position, occupant);
            lemma_index_round_trip(*position, width, height);
            assert forall|other: WorldPosition|
                #![trigger self@.cells.dom().contains(other)]
                #![trigger expected.cells.dom().contains(other)]
                self@.cells.dom().contains(other) == expected.cells.dom().contains(other) && (
                self@.cells.dom().contains(other) ==> self@.cells[other]
                    == expected.cells[other]) by {
                if other.x < width && other.y < height {
                    lemma_index_round_trip(other, width, height);
                }
            }
            assert(self@.cells =~= expected.cells);
        }
    }

    /// Puts `voxel` into the cell at `position`, whatever the cell held.
    /// Fails, and changes nothing, for a position that the grid does not
    /// have.
    pub fn set_cell(&mut self, position: &WorldPosition, voxel: &Voxel) -> (done: Result<
        (),
        MapError,
    >)
        requires
            old(self).wf(),
            voxel is of,
        ensures
            final(self).wf(),
            old(self)@.contains(*position) ==> done.is_ok() && final(self)@ == old(self)@.place(
                *position,
                *voxel,
            ),
            !old(self)@.contains(*position) ==> done == Err::<(), MapError>(MapError::OutOfRange)
                && final(self)@ == old(self)@,
    {
        if position.x >= self.width || position.y >= self.height {
            return Err(MapError::OutOfRange);
        }
        self.store(position, Some(*voxel));
        Ok(())
    }

    /// Empties the cell at `position`. Fails, and changes nothing, for a
    /// position that the grid does not have.
    pub fn delete_cell(&mut self, position: &WorldPosition) -> (done: Result<(), MapError>)
        requires
            old(self).wf(),
        ensures
            final(self).wf(),
            old(self)@.contains(*position) ==> done.is_ok() && final(self)@ == old(self)@.clear(
                *position,
            ),
            !old(self)@.contains(*position) ==> done == Err::<(), MapError>(MapError::OutOfRange)
                && final(self)@ == old(self)@,
    {
        if position.x >= self.width || position.y >= self.height {
            return Err(MapError::OutOfRange);
        }
        self.store(position, None);
        Ok(())
    }

    /// What a voxel at `position` finds in `direction`, and where.
    pub fn get_neighbour_voxel(&self, position: WorldPosition, direction: Direction) -> (found: (
        Option<Voxel>,
        WorldPosition,
    ))
        requires
            self.wf(),
        ensures
            found == self@.neighbour(position, direction),
    {
        let column = position.x % self.width;
        let x = match direction {
            Direction::Left | Direction::BottomLeft | Direction::Bottom2Left => {
                if column == 0 {
                    self.width - 1
                } else {
                    column - 1
                }
            },
            Direction::Right | Direction::BottomRight | Direction::Bottom2Right => {
                if column == self.width - 1 {
                    0
                } else {
                    column + 1
                }
            },
            Direction::Bottom => column,
        };
        let rows: usize = match direction {
            Direction::Left | Direction::Right => 0,
            Direction::Bottom | Direction::BottomLeft | Direction::BottomRight => 1,
            Direction::Bottom2Left | Direction::Bottom2Right => 2,
        };
        proof {
            lemma_shifted_column(position.x as int, direction.column_shift(), self.width as int);
        }
        if position.y < rows {
            return (Some(Voxel::OOB), WorldPosition { x, y: 0 });
        }
        let target = WorldPosition { x, y: position.y - rows };
        if target.y >= self.height {
            (Some(Voxel::OOB), target)
        } else {
            let index = self.index_of(&target);
            (self.cells[index], target)
        }
    }

    /// What lies one column to the left, in the same row.
    pub fn get_left_voxel(
        &self,
        world_position: WorldPosition,
        world_config: &WorldConfig,
    ) -> (found: (Option<Voxel>, WorldPosition))
        requires
            self.wf(),
        ensures
            found == self@.neighbour(world_position, Direction::Left),
    {
        self.get_neighbour_voxel(world_position, Direction::Left)
    }

    /// What lies one column to the right, in the same row.
    pub fn get_right_voxel(
        &self,
        world_position: WorldPosition,
        world_config: &WorldConfig,
    ) -> (found: (Option<Voxel>, WorldPosition))
        requires
            self.wf(),
        ensures
            found == self@.neighbour(world_position, Direction::Right),
    {
        self.get_neighbour_voxel(world_position, Direction::Right)
    }

    /// What lies one row down, in the same column.
    pub fn get_bottom_voxel(
        &self,
        world_position: WorldPosition,
        world_config: &WorldConfig,
    ) -> (found: (Option<Voxel>, WorldPosition))
        requires
            self.wf(),
        ensures
            found == self@.neighbour(world_position, Direction::Bottom),
    {
        self.get_neighbour_voxel(world_position, Direction::Bottom)
    }

    /// What lies one row down and one column to the left.
    pub fn get_bottom_left_voxel(
        &self,
        world_position: WorldPosition,
        world_config: &WorldConfig,
    ) -> (found: (Option<Voxel>, WorldPosition))
        requires
            self.wf(),
        ensures
            found == self@.neighbour(world_position, Direction::BottomLeft),
    {
        self.get_neighbour_voxel(world_position, Direction::BottomLeft)
    }

    /// What lies one row down and one column to the right.
    pub fn get_bottom_right_voxel(
        &self,
        world_position: WorldPosition,
        world_config: &WorldConfig,
    ) -> (found: (Option<Voxel>, WorldPosition))
        requires
            self.wf(),
        ensures
            found == self@.neighbour(world_position, Direction::BottomRight),
    {
        self.get_neighbour_voxel(world_position, Direction::BottomRight)
    }

    /// What lies two rows down and one column to the left.
    pub fn get_bottom2_left_voxel(
        &self,
        world_position: WorldPosition,
        world_config: &WorldConfig,
    ) -> (found: (Option<Voxel>, WorldPosition))
        requires
            self.wf(),
        ensures
            found == self@.neighbour(world_position, Direction::Bottom2Left),
    {
        self.get_neighbour_voxel(world_position, Direction::Bottom2Left)
    }

    /// What lies two rows down and one column to the right.
    pub fn get_bottom2_right_voxel(
        &self,
        world_position: WorldPosition,
        world_config: &WorldConfig,
    ) -> (found: (Option<Voxel>, WorldPosition))
        requires
            self.wf(),
        ensures
            found == self@.neighbour(world_position, Direction::Bottom2Right),
    {
        self.get_neighbour_voxel(world_position, Direction::Bottom2Right)
    }

    /// Puts a new voxel of `element` into the cell at `position` if the cell
    /// is empty, and returns it. An occupied cell is left as it is, and
    /// `None` returned. Fails for a position that the grid does not have.
    pub fn place_voxel(
        &mut self,
        world_config: &WorldConfig,
        position: &WorldPosition,
        element: Element,
        entity: u64,
    ) -> (placed: Result<Option<Voxel>, MapError>)
        requires
            old(self).wf(),
        ensures
            final(self).wf(),
            !old(self)@.contains(*position) ==> placed == Err::<Option<Voxel>, MapError>(
                MapError::OutOfRange,
            ) && final(self)@ == old(self)@,
            old(self)@.contains(*position) && old(self)@.occupant(*position) is Some ==> placed
                == Ok::<Option<Voxel>, MapError>(None) && final(self)@ == old(self)@,
            old(self)@.contains(*position) && old(self)@.occupant(*position) is None ==> placed
                == Ok::<Option<Voxel>, MapError>(
                Some(Voxel::spec_made(world_config, element, entity)),
            ) && final(self)@ == old(self)@.place(
                *position,
                Voxel::spec_made(world_config, element, entity),
            ),
    {
        if position.x >= self.width || position.y >= self.height {
            return Err(MapError::OutOfRange);
        }
        let index = self.index_of(position);
        if self.cells[index].is_some() {
            return Ok(None);
        }
        let voxel = Voxel::of { data: VoxelStruct::new(world_config, element, entity) };
        self.store(position, Some(voxel));
        Ok(Some(voxel))
    }

    /// Lets the voxel at `source` make the move `action`; where `source` is
    /// empty, nothing moves. Fails, and changes nothing, if the grid does not
    /// have `source` or the target of the move.
    pub fn apply_move(&mut self, source: &WorldPosition, action: &Move) -> (done: Result<
        (),
        MapError,
    >)
        requires
            old(self).wf(),
        ensures
            final(self).wf(),
            old(self)@.contains(*source) && old(self)@.contains(action.target()) ==> done.is_ok()
                && final(self)@ == old(self)@.apply(*source, *action),
            !(old(self)@.contains(*source) && old(self)@.contains(action.target())) ==> done
                == Err::<(), MapError>(MapError::OutOfRange) && final(self)@ == old(self)@,
    {
        let target = match action {
            Move::Displace(target) => *target,
            Move::Swap(target) => *target,
        };
        if source.x >= self.width || source.y >= self.height || target.x >= self.width || target.y
            >= self.height {
            return Err(MapError::OutOfRange);
        }
        let source_index = self.index_of(source);
        let moving = self.cells[source_index];
        if moving.is_none() {
            return Ok(());
        }
        match action {
            Move::Displace(_) => {
                self.store(source, None);
            },
            Move::Swap(_) => {
                let target_index = self.index_of(&target);
                let other = self.cells[target_index];
                self.store(source, other);
            },
        }
        self.store(&target, moving);
        Ok(())
    }
}

/// The column that lies `shift` columns to the right of `column`, on a grid
/// whose columns wrap: one step from the remainder of `column`.
proof fn lemma_shifted_column(column: int, shift: int, width: int)
    requires
        0 <= column,
        0 < width,
        -1 <= shift <= 1,
    ensures
        shift == -1 && column % width == 0 ==> (column + shift) % width == width - 1,
        shift == -1 && column % width != 0 ==> (column + shift) % width == column % width - 1,
        shift == 1 && column % width == width - 1 ==> (column + shift) % width == 0,
        shift == 1 && column % width != width - 1 ==> (column + shift) % width == column % width
            + 1,
        shift == 0 ==> (column + shift) % width == column % width,
{
    let q = column / width;
    let r = column % width;
    vstd::arithmetic::div_mod::lemma_fundamental_div_mod(column, width);
    vstd::arithmetic::div_mod::lemma_mod_bound(column, width);
    assert(width * q == q * width) by (nonlinear_arith);
    if shift == -1 {
        if r == 0 {
            assert((q - 1) * width == q * width - width) by (nonlinear_arith);
            vstd::arithmetic::div_mod::lemma_fundamental_div_mod_converse(
                column + shift,
                width,
                q - 1,
                width - 1,
            );
        } else {
            vstd::arithmetic::div_mod::lemma_fundamental_div_mod_converse(
                column + shift,
                width,
                q,
                r - 1,
            );
        }
    } else if shift == 1 {
        if r == width - 1 {
            assert((q + 1) * width == q * width + width) by (nonlinear_arith);
            vstd::arithmetic::div_mod::lemma_fundamental_div_mod_converse(
                column + shift,
                width,
                q + 1,
                0,
            );
        } else {
            vstd::arithmetic::div_mod::lemma_fundamental_div_mod_converse(
                column + shift,
                width,
                q,
                r + 1,
            );
        }
    }
}

/// On a grid whose columns wrap, the left neighbour of a cell of the first
/// column is the cell of the last column in the same row, and the right
/// neighbour of a cell of the last column is the cell of the first.
pub proof fn lemma_columns_wrap(grid: Grid, position: WorldPosition)
    requires
        grid.wf(),
        grid.contains(position),
    ensures
        position.x == 0 ==> grid.neighbour(position, Direction::Left) == (
            grid.occupant(WorldPosition { x: (grid.width - 1) as usize, y: position.y }),
            WorldPosition { x: (grid.width - 1) as usize, y: position.y },
        ),
        position.x == grid.width - 1 ==> grid.neighbour(position, Direction::Right) == (
            grid.occupant(WorldPosition { x: 0, y: position.y }),
            WorldPosition { x: 0, y: position.y },
        ),
{
    lemma_shifted_column(position.x as int, -1, grid.width as int);
    lemma_shifted_column(position.x as int, 1, grid.width as int);
    vstd::arithmetic::div_mod::lemma_small_mod(position.x as nat, grid.width);
}

/// Inside a row a step to the left or right leads to the next column of the
/// same row.
pub proof fn lemma_columns_inside(grid: Grid, position: WorldPosition)
    requires
        grid.wf(),
        grid.contains(position),
    ensures
        position.x > 0 ==> grid.target(position, Direction::Left) == (WorldPosition {
            x: (position.x - 1) as usize,
            y: position.y,
        }),
        position.x < grid.width - 1 ==> grid.target(position, Direction::Right) == (WorldPosition {
            x: (position.x + 1) as usize,
            y: position.y,
        }),
        grid.target(position, Direction::Bottom).x == position.x,
{
    lemma_shifted_column(position.x as int, -1, grid.width as int);
    lemma_shifted_column(position.x as int, 1, grid.width as int);
    lemma_shifted_column(position.x as int, 0, grid.width as int);
    vstd::arithmetic::div_mod::lemma_small_mod(position.x as nat, grid.width);
}

/// Rows do not wrap: from the bottom row, what lies below, below to the
/// left and below to the right is the out-of-grid mark.
pub proof fn lemma_nothing_below_bottom_row(grid: Grid, position: WorldPosition)
    requires
        grid.wf(),
        position.y == 0,
    ensures
        grid.neighbour(position, Direction::Bottom).0 == Some(Voxel::OOB),
        grid.neighbour(position, Direction::BottomLeft).0 == Some(Voxel::OOB),
        grid.neighbour(position, Direction::BottomRight).0 == Some(Voxel::OOB),
{
}

/// A direction that leads below the bottom row, or to a row above the grid,
/// finds the out-of-grid mark; so do, from the two lowest rows, the
/// directions that lead two rows down.
pub proof fn lemma_nothing_outside_rows(grid: Grid, position: WorldPosition, direction: Direction)
    requires
        grid.wf(),
    ensures
        position.y < direction.rows_down() || position.y - direction.rows_down() >= grid.height
            <==> grid.neighbour(position, direction).0 == Some(Voxel::OOB),
        position.y < 2 ==> grid.neighbour(position, Direction::Bottom2Left).0 == Some(Voxel::OOB)
            && grid.neighbour(position, Direction::Bottom2Right).0 == Some(Voxel::OOB),
{
}

/// A move on a grid leaves a grid: applied to cells of the grid it keeps
/// the invariant and the size.
pub proof fn lemma_apply_keeps_grid(grid: Grid, source: WorldPosition, action: Move)
    requires
        grid.wf(),
        grid.contains(source),
        grid.contains(action.target()),
    ensures
        grid.apply(source, action).wf(),
        grid.apply(source, action).width == grid.width,
        grid.apply(source, action).height == grid.height,
{
}

/// A move into an empty cell, and a swap with an occupied one, neither make
/// nor lose a voxel.
pub proof fn lemma_legal_move_keeps_voxels(grid: Grid, source: WorldPosition, action: Move)
    requires
        grid.wf(),
        grid.occupant(source) is Some,
        action is Displace ==> grid.occupant(action.target()) is None,
        action is Swap ==> grid.occupant(action.target()) is Some,
    ensures
        grid.apply(source, action).voxel_count() == grid.voxel_count(),
{
    let target = action.target();
    match action {
        Move::Displace(_) => {
            assert(!grid.cells.dom().remove(source).contains(target));
        },
        Move::Swap(_) => {
            assert(grid.cells.dom().insert(source) =~= grid.cells.dom());
            assert(grid.cells.dom().insert(source).insert(target) =~= grid.cells.dom());
        },
    }
}

/// A displacement takes the voxel from its cell to the target and touches
/// no other cell.
pub proof fn lemma_displace_moves_one_voxel(
    grid: Grid,
    source: WorldPosition,
    target: WorldPosition,
)
    requires
        grid.occupant(source) is Some,
        source != target,
    ensures
        grid.apply(source, Move::Displace(target)).occupant(target) == grid.occupant(source),
        grid.apply(source, Move::Displace(target)).occupant(source) is None,
        forall|other: WorldPosition|
            other != source && other != target ==> #[trigger] grid.apply(
                source,
                Move::Displace(target),
            ).occupant(other) == grid.occupant(other),
{
}

/// A swap exchanges what the two cells hold and touches no other cell.
pub proof fn lemma_swap_exchanges_two_voxels(
    grid: Grid,
    source: WorldPosition,
    target: WorldPosition,
)
    requires
        grid.occupant(source) is Some,
    ensures
        grid.apply(source, Move::Swap(target)).occupant(target) == grid.occupant(source),
        grid.apply(source, Move::Swap(target)).occupant(source) == grid.occupant(target),
        forall|other: WorldPosition|
            other != source && other != target ==> #[trigger] grid.apply(
                source,
                Move::Swap(target),
            ).occupant(other) == grid.occupant(other),
{
}

/// The target of every direction has a column of the grid, and every
/// neighbour that is not the out-of-grid mark is found at a cell of the
/// grid and is what that cell holds.
pub proof fn lemma_neighbour_in_grid(grid: Grid, position: WorldPosition, direction: Direction)
    requires
        grid.wf(),
    ensures
        grid.target(position, direction).x < grid.width,
        grid.neighbour(position, direction).0 != Some(Voxel::OOB) ==> grid.contains(
            grid.neighbour(position, direction).1,
        ) && grid.neighbour(position, direction).0 == grid.occupant(
            grid.neighbour(position, direction).1,
        ),
{
    vstd::arithmetic::div_mod::lemma_mod_bound(
        position.x + direction.column_shift(),
        grid.width as int,
    );
}

} // verus!
