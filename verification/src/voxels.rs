//! Voxels, the materials they are made of, and the rules by which each
//! material moves.

use vstd::prelude::*;
use crate::config::WorldConfig;
use crate::map::{lemma_columns_inside, lemma_neighbour_in_grid, Direction, GameMap, Grid};
use crate::positions::world_position::WorldPosition;

verus! {

/// How a voxel behaves towards its neighbours.
#[derive(Clone, Copy, Debug, PartialEq, Eq, Structural)]
pub enum Kind {
    Solid,
    Liquid,
}

/// The material of a voxel. It selects the rule by which the voxel moves.
#[derive(Clone, Copy, Debug, PartialEq, Eq, Structural)]
pub enum Element {
    Sand,
    Water,
    Earth,
}

/// What an occupied cell holds.
#[derive(Clone, Copy, Debug, PartialEq, Eq, Structural)]
pub struct VoxelStruct {
    /// Edge of the voxel, in pixels.
    pub size: usize,
    /// Distance the voxel falls in one tick, in pixels.
    pub speed: usize,
    pub element: Element,
    pub kind: Kind,
    /// The host's handle of the drawable that shows this voxel.
    pub entity: u64,
}

/// The result of looking at a place: a voxel, or the mark that the place is
/// not part of the grid. An empty cell is `None` of `Option<Voxel>`.
#[allow(non_camel_case_types)]
#[derive(Clone, Copy, Debug, PartialEq, Eq, Structural)]
pub enum Voxel {
    /// The place looked at lies outside the grid. Never stored in a grid.
    OOB,
    /// A voxel of some material.
    of { data: VoxelStruct },
}

/// What a voxel does in one tick.
#[derive(Clone, Copy, Debug, PartialEq, Eq, Structural)]
pub enum Move {
    /// The voxel goes to an empty cell.
    Displace(WorldPosition),
    /// The voxel changes places with the occupant of the cell.
    Swap(WorldPosition),
}

impl Move {
    /// The cell that the move leads to.
    pub open spec fn target(self) -> WorldPosition {
        match self {
            Move::Displace(target) => target,
            Move::Swap(target) => target,
        }
    }
}

impl VoxelStruct {
    /// A new voxel of `element` for the world of `world_config`: as large
    /// as a cell, falling one cell in a tick, of the kind of its material.
    pub open spec fn spec_new(world_config: &WorldConfig, element: Element, entity: u64) -> Self {
        VoxelStruct {
            size: world_config.px_per_voxel,
            speed: world_config.px_per_voxel,
            element,
            kind: element.spec_kind(),
            entity,
        }
    }

    /// A new voxel of `element` for the world of `world_config`, shown by
    /// the drawable `entity`.
    pub fn new(world_config: &WorldConfig, element: Element, entity: u64) -> (data: Self)
        ensures
            data == Self::spec_new(world_config, element, entity),
    {
        VoxelStruct {
            size: world_config.px_per_voxel,
            speed: world_config.px_per_voxel,
            element,
            kind: element.kind(),
            entity,
        }
    }
}

impl Element {
    /// The kind that every voxel of this material has.
    pub open spec fn spec_kind(self) -> Kind {
        match self {
            Element::Sand => Kind::Solid,
            Element::Water => Kind::Liquid,
            Element::Earth => Kind::Solid,
        }
    }

    /// The directions in which a voxel of this material tries to move, the
    /// preferred one first.
    pub open spec fn candidates(self) -> Seq<Direction> {
        match self {
            Element::Sand => seq![Direction::Bottom, Direction::BottomLeft, Direction::BottomRight],
            Element::Earth => seq![
                Direction::Bottom,
                Direction::Bottom2Left,
                Direction::Bottom2Right,
            ],
            Element::Water => seq![
                Direction::Bottom,
                Direction::BottomLeft,
                Direction::BottomRight,
                Direction::Left,
                Direction::Right,
            ],
        }
    }

    /// What a voxel of this material does when it finds `occupant` at
    /// `target`.
    pub open spec fn behaviour(self, occupant: Option<Voxel>, target: WorldPosition) -> Option<
        Move,
    > {
        match self {
            Element::Water => Voxel::spec_liquid_behaviour(occupant, target),
            _ => Voxel::spec_falling_solid_behaviour(occupant, target),
        }
    }

    /// The move that the first of `directions`, from index `from` on,
    /// yields in which the material can move at all.
    pub open spec fn first_move(
        self,
        grid: Grid,
        position: WorldPosition,
        directions: Seq<Direction>,
        from: nat,
    ) -> Option<Move>
        decreases directions.len() - from,
    {
        if from >= directions.len() {
            None
        } else {
            let (occupant, target) = grid.neighbour(position, directions[from as int]);
            match self.behaviour(occupant, target) {
                Some(found) => Some(found),
                None => self.first_move(grid, position, directions, from + 1),
            }
        }
    }

    /// The material that the player places after this one when stepping
    /// through the materials: sand, water, earth, and sand again.
    pub open spec fn spec_next(self) -> Element {
        match self {
            Element::Sand => Element::Water,
            Element::Water => Element::Earth,
            Element::Earth => Element::Sand,
        }
    }

    /// The material that the player places after this one.
    pub fn next(self) -> (element: Element)
        ensures
            element == self.spec_next(),
    {
        match self {
            Element::Sand => Element::Water,
            Element::Water => Element::Earth,
            Element::Earth => Element::Sand,
        }
    }

    /// The kind that every voxel of this material has.
    pub fn kind(self) -> (kind: Kind)
        ensures
            kind == self.spec_kind(),
    {
        match self {
            Element::Sand => Kind::Solid,
            Element::Water => Kind::Liquid,
            Element::Earth => Kind::Solid,
        }
    }
}

impl Voxel {
    /// The voxel that a new `VoxelStruct` of `element` makes.
    pub open spec fn spec_made(world_config: &WorldConfig, element: Element, entity: u64) -> Voxel {
        Voxel::of { data: VoxelStruct::spec_new(world_config, element, entity) }
    }

    /// The rule of a solid that falls: into an empty cell it moves, with a
    /// liquid it changes places, and anything else stops it.
    pub open spec fn spec_falling_solid_behaviour(
        other_voxel: Option<Voxel>,
        new_pos: WorldPosition,
    ) -> Option<Move> {
        match other_voxel {
            None => Some(Move::Displace(new_pos)),
            Some(Voxel::of { data }) => if data.kind == Kind::Liquid {
                Some(Move::Swap(new_pos))
            } else {
                None
            },
            Some(Voxel::OOB) => None,
        }
    }

    /// The rule of a liquid: it moves into an empty cell and nowhere else.
    pub open spec fn spec_liquid_behaviour(
        other_voxel: Option<Voxel>,
        new_pos: WorldPosition,
    ) -> Option<Move> {
        match other_voxel {
            None => Some(Move::Displace(new_pos)),
            Some(_) => None,
        }
    }

    /// The move that this voxel makes from `position` on `grid`: that of the
    /// first candidate direction of its material in which it can move. The
    /// out-of-grid mark never moves.
    pub open spec fn spec_update(self, grid: Grid, position: WorldPosition) -> Option<Move> {
        match self {
            Voxel::OOB => None,
            Voxel::of { data } => data.element.first_move(
                grid,
                position,
                data.element.candidates(),
                0,
            ),
        }
    }

    /// The rule of a solid that falls, for the occupant `other_voxel` of the
    /// cell `new_pos`.
    pub fn falling_solid_behaviour(other_voxel: &Option<Voxel>, new_pos: WorldPosition) -> (found:
        Option<Move>)
        ensures
            found == Self::spec_falling_solid_behaviour(*other_voxel, new_pos),
    {
        match other_voxel {
            None => Some(Move::Displace(new_pos)),
            Some(voxel) => match voxel {
                Voxel::of { data } => match data.kind {
                    Kind::Liquid => Some(Move::Swap(new_pos)),
                    Kind::Solid => None,
                },
                Voxel::OOB => None,
            },
        }
    }

    /// The rule of a liquid, for the occupant `other_voxel` of the cell
    /// `new_pos`.
    pub fn liquid_behaviour(other_voxel: &Option<Voxel>, new_pos: WorldPosition) -> (found: Option<
        Move,
    >)
        ensures
            found == Self::spec_liquid_behaviour(*other_voxel, new_pos),
    {
        match other_voxel {
            None => Some(Move::Displace(new_pos)),
            Some(_) => None,
        }
    }

    /// The move that this voxel makes from `world_position` on `world`, if
    /// it can move. The map is only read.
    pub fn update(
        &self,
        world_config: &WorldConfig,
        world: &mut GameMap,
        world_position: WorldPosition,
    ) -> (found: Option<Move>)
        requires
            old(world).wf(),
        ensures
            *final(world) == *old(world),
            found == self.spec_update(old(world)@, world_position),
    {
        match self {
            Voxel::of { data } => match data.element {
                Element::Water => Voxel::update_water(world_config, world, world_position),
                Element::Sand => Voxel::update_sand(world_config, world, world_position),
                Element::Earth => Voxel::update_earth(world_config, world, world_position),
            },
            Voxel::OOB => None,
        }
    }

    fn update_water(
        world_config: &WorldConfig,
        world: &mut GameMap,
        world_position: WorldPosition,
    ) -> (found: Option<Move>)
        requires
            old(world).wf(),
        ensures
            *final(world) == *old(world),
            found == Element::Water.first_move(
                old(world)@,
                world_position,
                Element::Water.candidates(),
                0,
            ),
    {
        proof {
            reveal_with_fuel(Element::first_move, 6);
        }
        let (occupant, target) = world.get_bottom_voxel(world_position, world_config);
        if let Some(found) = Voxel::liquid_behaviour(&occupant, target) {
            return Some(found);
        }
        let (occupant, target) = world.get_bottom_left_voxel(world_position, world_config);
        if let Some(found) = Voxel::liquid_behaviour(&occupant, target) {
            return Some(found);
        }
        let (occupant, target) = world.get_bottom_right_voxel(world_position, world_config);
        if let Some(found) = Voxel::liquid_behaviour(&occupant, target) {
            return Some(found);
        }
        let (occupant, target) = world.get_left_voxel(world_position, world_config);
        if let Some(found) = Voxel::liquid_behaviour(&occupant, target) {
            return Some(found);
        }
        let (occupant, target) = world.get_right_voxel(world_position, world_config);
        Voxel::liquid_behaviour(&occupant, target)
    }

    fn update_sand(
        world_config: &WorldConfig,
        map: &mut GameMap,
        world_position: WorldPosition,
    ) -> (found: Option<Move>)
        requires
            old(map).wf(),
        ensures
            *final(map) == *old(map),
            found == Element::Sand.first_move(
                old(map)@,
                world_position,
                Element::Sand.candidates(),
                0,
            ),
    {
        proof {
            reveal_with_fuel(Element::first_move, 4);
        }
        let (occupant, target) = map.get_bottom_voxel(world_position, world_config);
        if let Some(found) = Voxel::falling_solid_behaviour(&occupant, target) {
            return Some(found);
        }
        let (occupant, target) = map.get_bottom_left_voxel(world_position, world_config);
        if let Some(found) = Voxel::falling_solid_behaviour(&occupant, target) {
            return Some(found);
        }
        let (occupant, target) = map.get_bottom_right_voxel(world_position, world_config);
        Voxel::falling_solid_behaviour(&occupant, target)
    }

    fn update_earth(
        world_config: &WorldConfig,
        world: &mut GameMap,
        world_position: WorldPosition,
    ) -> (found: Option<Move>)
        requires
            old(world).wf(),
        ensures
            *final(world) == *old(world),
            found == Element::Earth.first_move(
                old(world)@,
                world_position,
                Element::Earth.candidates(),
                0,
            ),
    {
        proof {
            reveal_with_fuel(Element::first_move, 4);
        }
        let (occupant, target) = world.get_bottom_voxel(world_position, world_config);
        if let Some(found) = Voxel::falling_solid_behaviour(&occupant, target) {
            return Some(found);
        }
        let (occupant, target) = world.get_bottom2_left_voxel(world_position, world_config);
        if let Some(found) = Voxel::falling_solid_behaviour(&occupant, target) {
            return Some(found);
        }
        let (occupant, target) = world.get_bottom2_right_voxel(world_position, world_config);
        Voxel::falling_solid_behaviour(&occupant, target)
    }
}

/// The materials with which the host draws the voxels, one handle for each
/// element.
pub struct VoxelManager<H> {
    pub sand_material: H,
    pub water_material: H,
    pub earth_material: H,
}

impl<H: Clone> VoxelManager<H> {
    /// Which of the three handles belongs to `element`.
    pub open spec fn material_of(&self, element: Element) -> H {
        match element {
            Element::Sand => self.sand_material,
            Element::Water => self.water_material,
            Element::Earth => self.earth_material,
        }
    }

    /// A new voxel of `element` for the world of `world_config`, shown by
    /// the drawable `entity`.
    pub fn spawn_voxel(&self, world_config: &WorldConfig, element: Element, entity: u64) -> (data:
        VoxelStruct)
        ensures
            data == VoxelStruct::spec_new(world_config, element, entity),
    {
        VoxelStruct::new(world_config, element, entity)
    }

    /// A clone of the handle with which voxels of `element` are drawn.
    pub fn get_material(&self, element: Element) -> (material: H)
        ensures
            cloned(self.material_of(element), material),
    {
        match element {
            Element::Sand => self.sand_material.clone(),
            Element::Water => self.water_material.clone(),
            Element::Earth => self.earth_material.clone(),
        }
    }
}

/// Whether `action` is a legal move on `grid`, or no move at all: a
/// displacement leads to an empty cell of the grid, a swap to a cell of the
/// grid that holds a liquid.
pub open spec fn is_legal(grid: Grid, action: Option<Move>) -> bool {
    match action {
        Some(Move::Displace(target)) => grid.contains(target) && grid.occupant(target) is None,
        Some(Move::Swap(target)) => grid.contains(target) && (grid.occupant(target) matches Some(
            Voxel::of { data },
        ) && data.kind == Kind::Liquid),
        None => true,
    }
}

/// A move that the rules yield is legal.
pub proof fn lemma_update_is_legal(voxel: Voxel, grid: Grid, position: WorldPosition)
    requires
        grid.wf(),
    ensures
        is_legal(grid, voxel.spec_update(grid, position)),
{
    if let Voxel::of { data } = voxel {
        lemma_first_move_is_legal(data.element, grid, position, data.element.candidates(), 0);
    }
}

proof fn lemma_first_move_is_legal(
    element: Element,
    grid: Grid,
    position: WorldPosition,
    directions: Seq<Direction>,
    from: nat,
)
    requires
        grid.wf(),
    ensures
        is_legal(grid, element.first_move(grid, position, directions, from)),
    decreases directions.len() - from,
{
    if from < directions.len() {
        lemma_neighbour_in_grid(grid, position, directions[from as int]);
        lemma_first_move_is_legal(element, grid, position, directions, from + 1);
    }
}

/// Whatever its material, a voxel with an empty cell right below it falls
/// into that cell.
pub proof fn lemma_falls_into_empty_cell(data: VoxelStruct, grid: Grid, position: WorldPosition)
    requires
        grid.wf(),
        grid.contains(position),
        position.y > 0,
        grid.occupant(WorldPosition { x: position.x, y: (position.y - 1) as usize }) is None,
    ensures
        (Voxel::of { data }).spec_update(grid, position) == Some(
            Move::Displace(WorldPosition { x: position.x, y: (position.y - 1) as usize }),
        ),
{
    lemma_columns_inside(grid, position);
}

/// Sand and earth sink: with a liquid right below it, a voxel of either
/// changes places with the liquid.
pub proof fn lemma_solid_sinks_through_liquid(
    data: VoxelStruct,
    below: VoxelStruct,
    grid: Grid,
    position: WorldPosition,
)
    requires
        grid.wf(),
        grid.contains(position),
        position.y > 0,
        data.element != Element::Water,
        below.kind == Kind::Liquid,
        grid.occupant(WorldPosition { x: position.x, y: (position.y - 1) as usize }) == Some(
            Voxel::of { data: below },
        ),
    ensures
        (Voxel::of { data }).spec_update(grid, position) == Some(
            Move::Swap(WorldPosition { x: position.x, y: (position.y - 1) as usize }),
        ),
{
    lemma_columns_inside(grid, position);
}

/// A voxel of the bottom row cannot fall: sand and earth rest there, and
/// water goes at most sideways.
pub proof fn lemma_bottom_row_holds(data: VoxelStruct, grid: Grid, position: WorldPosition)
    requires
        grid.wf(),
        position.y == 0,
    ensures
        data.element != Element::Water ==> (Voxel::of { data }).spec_update(grid, position) is None,
        (Voxel::of { data }).spec_update(grid, position) matches Some(action) ==> action
            is Displace && action.target().y == 0,
{
    reveal_with_fuel(Element::first_move, 6);
}

} // verus!
