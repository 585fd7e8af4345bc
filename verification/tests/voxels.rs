use sandbase::config::WorldConfig;
use sandbase::map::GameMap;
use sandbase::positions::world_position::WorldPosition;
use sandbase::voxels::{Element, Kind, Move, Voxel, VoxelManager, VoxelStruct};

fn voxel(element: Element, entity: u64) -> Voxel {
    let world_config = WorldConfig::new(20, 20, 10);
    Voxel::of { data: VoxelStruct::new(&world_config, element, entity) }
}

fn at(x: usize, y: usize) -> WorldPosition {
    WorldPosition { x, y }
}

fn world_with(cells: &[(usize, usize, Element)]) -> (WorldConfig, GameMap) {
    let world_config = WorldConfig::new(20, 20, 10);
    let mut map = GameMap::initialize(&world_config);
    for (entity, (x, y, element)) in cells.iter().enumerate() {
        let placed = map.place_voxel(&world_config, &at(*x, *y), *element, entity as u64);
        assert!(matches!(placed, Ok(Some(_))));
    }
    (world_config, map)
}

#[test]
fn falling_solid_moves_into_an_empty_cell() {
    let target = at(5, 9);
    assert_eq!(Voxel::falling_solid_behaviour(&None, target), Some(Move::Displace(target)));
}

#[test]
fn falling_solid_swaps_with_a_liquid() {
    let target = at(5, 9);
    assert_eq!(
        Voxel::falling_solid_behaviour(&Some(voxel(Element::Water, 1)), target),
        Some(Move::Swap(target))
    );
}

#[test]
fn falling_solid_is_stopped_by_a_solid() {
    let target = at(5, 9);
    assert_eq!(Voxel::falling_solid_behaviour(&Some(voxel(Element::Sand, 1)), target), None);
    assert_eq!(Voxel::falling_solid_behaviour(&Some(voxel(Element::Earth, 1)), target), None);
}

#[test]
fn falling_solid_is_stopped_by_the_edge_of_the_grid() {
    assert_eq!(Voxel::falling_solid_behaviour(&Some(Voxel::OOB), at(5, 0)), None);
}

#[test]
fn falling_solid_goes_by_the_kind_of_the_occupant() {
    let world_config = WorldConfig::new(20, 20, 10);
    let mut data = VoxelStruct::new(&world_config, Element::Sand, 1);
    data.kind = Kind::Liquid;
    assert_eq!(
        Voxel::falling_solid_behaviour(&Some(Voxel::of { data }), at(1, 1)),
        Some(Move::Swap(at(1, 1)))
    );
}

#[test]
fn liquid_moves_into_an_empty_cell() {
    let target = at(0, 3);
    assert_eq!(Voxel::liquid_behaviour(&None, target), Some(Move::Displace(target)));
}

#[test]
fn liquid_is_stopped_by_anything_else() {
    let target = at(0, 3);
    assert_eq!(Voxel::liquid_behaviour(&Some(voxel(Element::Water, 1)), target), None);
    assert_eq!(Voxel::liquid_behaviour(&Some(voxel(Element::Sand, 1)), target), None);
    assert_eq!(Voxel::liquid_behaviour(&Some(voxel(Element::Earth, 1)), target), None);
    assert_eq!(Voxel::liquid_behaviour(&Some(Voxel::OOB), target), None);
}

#[test]
fn kind_follows_from_the_element() {
    assert_eq!(Element::Sand.kind(), Kind::Solid);
    assert_eq!(Element::Water.kind(), Kind::Liquid);
    assert_eq!(Element::Earth.kind(), Kind::Solid);
}

#[test]
fn elements_are_stepped_through_in_a_circle() {
    assert_eq!(Element::Sand.next(), Element::Water);
    assert_eq!(Element::Water.next(), Element::Earth);
    assert_eq!(Element::Earth.next(), Element::Sand);
}

#[test]
fn spawn_voxel_fills_in_size_speed_and_kind() {
    let world_config = WorldConfig::new(158, 72, 10);
    let manager = VoxelManager { sand_material: 1u8, water_material: 2u8, earth_material: 3u8 };
    assert_eq!(
        manager.spawn_voxel(&world_config, Element::Sand, 41),
        VoxelStruct { size: 10, speed: 10, element: Element::Sand, kind: Kind::Solid, entity: 41 }
    );
    assert_eq!(
        manager.spawn_voxel(&world_config, Element::Water, 42),
        VoxelStruct {
            size: 10,
            speed: 10,
            element: Element::Water,
            kind: Kind::Liquid,
            entity: 42
        }
    );
    assert_eq!(
        manager.spawn_voxel(&world_config, Element::Earth, 43),
        VoxelStruct { size: 10, speed: 10, element: Element::Earth, kind: Kind::Solid, entity: 43 }
    );
    let coarse = WorldConfig::new(10, 10, 32);
    assert_eq!(manager.spawn_voxel(&coarse, Element::Sand, 0).size, 32);
    assert_eq!(manager.spawn_voxel(&coarse, Element::Sand, 0).speed, 32);
    assert_eq!(
        VoxelStruct::new(&coarse, Element::Water, 9),
        manager.spawn_voxel(&coarse, Element::Water, 9)
    );
}

#[test]
fn get_material_picks_the_handle_of_the_element() {
    let manager = VoxelManager {
        sand_material: String::from("sand"),
        water_material: String::from("water"),
        earth_material: String::from("earth"),
    };
    assert_eq!(manager.get_material(Element::Sand), "sand");
    assert_eq!(manager.get_material(Element::Water), "water");
    assert_eq!(manager.get_material(Element::Earth), "earth");
}

#[test]
fn sand_falls_straight_down_first() {
    let (world_config, mut map) = world_with(&[(5, 10, Element::Sand)]);
    let sand = map.get_cell(&at(5, 10)).unwrap().unwrap();
    assert_eq!(sand.update(&world_config, &mut map, at(5, 10)), Some(Move::Displace(at(5, 9))));
    // the map was only read
    assert_eq!(map.get_cell(&at(5, 10)), Ok(Some(sand)));
    assert_eq!(map.get_cell(&at(5, 9)), Ok(None));
}

#[test]
fn sand_slides_down_to_the_left_then_to_the_right() {
    let (world_config, mut map) = world_with(&[(5, 10, Element::Sand), (5, 9, Element::Sand)]);
    let sand = map.get_cell(&at(5, 10)).unwrap().unwrap();
    assert_eq!(sand.update(&world_config, &mut map, at(5, 10)), Some(Move::Displace(at(4, 9))));

    let (world_config, mut map) =
        world_with(&[(5, 10, Element::Sand), (5, 9, Element::Sand), (4, 9, Element::Earth)]);
    assert_eq!(sand.update(&world_config, &mut map, at(5, 10)), Some(Move::Displace(at(6, 9))));
}

#[test]
fn sand_rests_on_solids() {
    let (world_config, mut map) = world_with(&[
        (5, 10, Element::Sand),
        (4, 9, Element::Sand),
        (5, 9, Element::Earth),
        (6, 9, Element::Sand),
    ]);
    let sand = map.get_cell(&at(5, 10)).unwrap().unwrap();
    assert_eq!(sand.update(&world_config, &mut map, at(5, 10)), None);
}

#[test]
fn sand_rests_on_the_bottom_row() {
    let (world_config, mut map) = world_with(&[(5, 0, Element::Sand)]);
    let sand = map.get_cell(&at(5, 0)).unwrap().unwrap();
    assert_eq!(sand.update(&world_config, &mut map, at(5, 0)), None);
}

#[test]
fn sand_sinks_through_water() {
    let (world_config, mut map) = world_with(&[(5, 10, Element::Sand), (5, 9, Element::Water)]);
    let sand = map.get_cell(&at(5, 10)).unwrap().unwrap();
    assert_eq!(sand.update(&world_config, &mut map, at(5, 10)), Some(Move::Swap(at(5, 9))));
}

#[test]
fn sand_sinks_through_water_beside_a_solid_floor() {
    let (world_config, mut map) =
        world_with(&[(5, 10, Element::Sand), (5, 9, Element::Earth), (4, 9, Element::Water)]);
    let sand = map.get_cell(&at(5, 10)).unwrap().unwrap();
    assert_eq!(sand.update(&world_config, &mut map, at(5, 10)), Some(Move::Swap(at(4, 9))));
}

#[test]
fn earth_slides_only_over_a_drop_of_two_rows() {
    // The cell below is taken and those beside it are free: sand would slide
    // there, earth looks two rows down.
    let (world_config, mut map) = world_with(&[(5, 10, Element::Earth), (5, 9, Element::Sand)]);
    let earth = map.get_cell(&at(5, 10)).unwrap().unwrap();
    assert_eq!(earth.update(&world_config, &mut map, at(5, 10)), Some(Move::Displace(at(4, 8))));

    let (world_config, mut map) =
        world_with(&[(5, 10, Element::Earth), (5, 9, Element::Sand), (4, 8, Element::Sand)]);
    assert_eq!(earth.update(&world_config, &mut map, at(5, 10)), Some(Move::Displace(at(6, 8))));

    let (world_config, mut map) = world_with(&[
        (5, 10, Element::Earth),
        (5, 9, Element::Sand),
        (4, 8, Element::Sand),
        (6, 8, Element::Sand),
    ]);
    assert_eq!(earth.update(&world_config, &mut map, at(5, 10)), None);
}

#[test]
fn earth_on_the_second_row_has_no_drop_of_two_rows() {
    let (world_config, mut map) = world_with(&[(5, 1, Element::Earth), (5, 0, Element::Sand)]);
    let earth = map.get_cell(&at(5, 1)).unwrap().unwrap();
    assert_eq!(earth.update(&world_config, &mut map, at(5, 1)), None);
    // with the cell below free it still falls
    let (world_config, mut map) = world_with(&[(5, 1, Element::Earth)]);
    assert_eq!(earth.update(&world_config, &mut map, at(5, 1)), Some(Move::Displace(at(5, 0))));
}

#[test]
fn water_tries_down_then_diagonals_then_sideways() {
    let (world_config, mut map) = world_with(&[(5, 10, Element::Water)]);
    let water = map.get_cell(&at(5, 10)).unwrap().unwrap();
    assert_eq!(water.update(&world_config, &mut map, at(5, 10)), Some(Move::Displace(at(5, 9))));

    let (world_config, mut map) = world_with(&[(5, 10, Element::Water), (5, 9, Element::Sand)]);
    assert_eq!(water.update(&world_config, &mut map, at(5, 10)), Some(Move::Displace(at(4, 9))));

    let (world_config, mut map) =
        world_with(&[(5, 10, Element::Water), (5, 9, Element::Sand), (4, 9, Element::Sand)]);
    assert_eq!(water.update(&world_config, &mut map, at(5, 10)), Some(Move::Displace(at(6, 9))));

    let (world_config, mut map) = world_with(&[
        (5, 10, Element::Water),
        (5, 9, Element::Sand),
        (4, 9, Element::Sand),
        (6, 9, Element::Sand),
    ]);
    assert_eq!(water.update(&world_config, &mut map, at(5, 10)), Some(Move::Displace(at(4, 10))));

    let (world_config, mut map) = world_with(&[
        (5, 10, Element::Water),
        (5, 9, Element::Sand),
        (4, 9, Element::Sand),
        (6, 9, Element::Sand),
        (4, 10, Element::Water),
    ]);
    assert_eq!(water.update(&world_config, &mut map, at(5, 10)), Some(Move::Displace(at(6, 10))));

    let (world_config, mut map) = world_with(&[
        (5, 10, Element::Water),
        (5, 9, Element::Sand),
        (4, 9, Element::Sand),
        (6, 9, Element::Sand),
        (4, 10, Element::Water),
        (6, 10, Element::Earth),
    ]);
    assert_eq!(water.update(&world_config, &mut map, at(5, 10)), None);
}

#[test]
fn water_never_swaps() {
    let (world_config, mut map) = world_with(&[(5, 10, Element::Water), (5, 9, Element::Water)]);
    let water = map.get_cell(&at(5, 10)).unwrap().unwrap();
    assert_eq!(water.update(&world_config, &mut map, at(5, 10)), Some(Move::Displace(at(4, 9))));
}

#[test]
fn water_on_the_bottom_row_flows_sideways_round_the_world() {
    let (world_config, mut map) = world_with(&[(0, 0, Element::Water)]);
    let water = map.get_cell(&at(0, 0)).unwrap().unwrap();
    assert_eq!(water.update(&world_config, &mut map, at(0, 0)), Some(Move::Displace(at(19, 0))));

    let (world_config, mut map) = world_with(&[(0, 0, Element::Water), (19, 0, Element::Sand)]);
    assert_eq!(water.update(&world_config, &mut map, at(0, 0)), Some(Move::Displace(at(1, 0))));
}

#[test]
fn sand_in_the_first_column_slides_round_the_world() {
    let (world_config, mut map) = world_with(&[(0, 5, Element::Sand), (0, 4, Element::Sand)]);
    let sand = map.get_cell(&at(0, 5)).unwrap().unwrap();
    assert_eq!(sand.update(&world_config, &mut map, at(0, 5)), Some(Move::Displace(at(19, 4))));
}

#[test]
fn the_out_of_grid_mark_never_moves() {
    let (world_config, mut map) = world_with(&[]);
    assert_eq!(Voxel::OOB.update(&world_config, &mut map, at(5, 10)), None);
}
