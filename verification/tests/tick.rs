use sandbase::config::WorldConfig;
use sandbase::map::GameMap;
use sandbase::positions::screen_position::ScreenPosition;
use sandbase::positions::world_position::WorldPosition;
use sandbase::tick::{tick, VoxelUpdate};
use sandbase::voxels::{Element, Voxel};

fn grid(x: usize, y: usize) -> WorldPosition {
    WorldPosition { x, y }
}

fn pixel(x: isize, y: isize) -> ScreenPosition {
    ScreenPosition { x, y }
}

fn world() -> (WorldConfig, GameMap) {
    let world_config = WorldConfig::new(20, 20, 10);
    let map = GameMap::initialize(&world_config);
    (world_config, map)
}

fn put(
    map: &mut GameMap,
    world_config: &WorldConfig,
    x: usize,
    y: usize,
    element: Element,
) -> Voxel {
    let entity = (y * 100 + x) as u64;
    map.place_voxel(world_config, &grid(x, y), element, entity).unwrap().unwrap()
}

#[test]
fn sand_over_an_empty_cell_falls_one_row_in_one_tick() {
    let (world_config, mut map) = world();
    let sand = put(&mut map, &world_config, 5, 10, Element::Sand);

    let updates = tick(&mut map, &world_config, &vec![pixel(50, 100)]);

    assert_eq!(map.get_cell(&grid(5, 9)), Ok(Some(sand)));
    assert_eq!(map.get_cell(&grid(5, 10)), Ok(None));
    assert_eq!(
        updates,
        vec![VoxelUpdate {
            old_position: pixel(50, 100),
            new_position: pixel(50, 90),
            voxel: sand
        }]
    );
}

#[test]
fn sand_over_water_changes_places_with_it() {
    let (world_config, mut map) = world();
    let sand = put(&mut map, &world_config, 5, 10, Element::Sand);
    let water = put(&mut map, &world_config, 5, 9, Element::Water);

    let updates = tick(&mut map, &world_config, &vec![pixel(50, 100)]);

    assert_eq!(map.get_cell(&grid(5, 9)), Ok(Some(sand)));
    assert_eq!(map.get_cell(&grid(5, 10)), Ok(Some(water)));
    assert_eq!(
        updates,
        vec![
            VoxelUpdate { old_position: pixel(50, 100), new_position: pixel(50, 90), voxel: sand },
            VoxelUpdate { old_position: pixel(50, 90), new_position: pixel(50, 100), voxel: water },
        ]
    );
}

#[test]
fn a_tick_without_live_voxels_changes_nothing() {
    let (world_config, mut map) = world();
    let sand = put(&mut map, &world_config, 5, 10, Element::Sand);
    let updates = tick(&mut map, &world_config, &Vec::new());
    assert!(updates.is_empty());
    assert_eq!(map.get_cell(&grid(5, 10)), Ok(Some(sand)));
}

#[test]
fn an_entry_over_an_empty_cell_is_passed_over() {
    let (world_config, mut map) = world();
    let sand = put(&mut map, &world_config, 5, 10, Element::Sand);
    let updates = tick(&mut map, &world_config, &vec![pixel(70, 100), pixel(-4, 3000)]);
    assert!(updates.is_empty());
    assert_eq!(map.get_cell(&grid(5, 10)), Ok(Some(sand)));
}

#[test]
fn a_voxel_at_rest_gives_no_update() {
    let (world_config, mut map) = world();
    let sand = put(&mut map, &world_config, 5, 0, Element::Sand);
    let updates = tick(&mut map, &world_config, &vec![pixel(50, 0)]);
    assert!(updates.is_empty());
    assert_eq!(map.get_cell(&grid(5, 0)), Ok(Some(sand)));
}

#[test]
fn any_pixel_of_the_voxel_names_it() {
    let (world_config, mut map) = world();
    let sand = put(&mut map, &world_config, 5, 10, Element::Sand);
    let updates = tick(&mut map, &world_config, &vec![pixel(57, 109)]);
    assert_eq!(
        updates,
        vec![VoxelUpdate {
            old_position: pixel(50, 100),
            new_position: pixel(50, 90),
            voxel: sand
        }]
    );
}

#[test]
fn a_voxel_sees_the_moves_of_those_taken_before_it() {
    // Two grains stacked: taken from the bottom up both fall; taken from the top
    // down the upper one finds the cell below still occupied and slides aside.
    let (world_config, mut map) = world();
    let lower = put(&mut map, &world_config, 5, 10, Element::Sand);
    let upper = put(&mut map, &world_config, 5, 11, Element::Sand);
    let updates = tick(&mut map, &world_config, &vec![pixel(50, 100), pixel(50, 110)]);
    assert_eq!(map.get_cell(&grid(5, 9)), Ok(Some(lower)));
    assert_eq!(map.get_cell(&grid(5, 10)), Ok(Some(upper)));
    assert_eq!(map.get_cell(&grid(5, 11)), Ok(None));
    assert_eq!(updates.len(), 2);

    let (world_config, mut map) = world();
    let lower = put(&mut map, &world_config, 5, 10, Element::Sand);
    let upper = put(&mut map, &world_config, 5, 11, Element::Sand);
    let updates = tick(&mut map, &world_config, &vec![pixel(50, 110), pixel(50, 100)]);
    assert_eq!(map.get_cell(&grid(4, 10)), Ok(Some(upper)));
    assert_eq!(map.get_cell(&grid(5, 9)), Ok(Some(lower)));
    assert_eq!(map.get_cell(&grid(5, 10)), Ok(None));
    assert_eq!(map.get_cell(&grid(5, 11)), Ok(None));
    assert_eq!(
        updates,
        vec![
            VoxelUpdate {
                old_position: pixel(50, 110),
                new_position: pixel(40, 100),
                voxel: upper
            },
            VoxelUpdate { old_position: pixel(50, 100), new_position: pixel(50, 90), voxel: lower },
        ]
    );
}

#[test]
fn the_entry_of_a_swapped_voxel_goes_with_it() {
    // Sand sinks into the water below it. The water is then taken at the cell
    // that the sand left: it finds the sand below and flows down to the left.
    let (world_config, mut map) = world();
    let sand = put(&mut map, &world_config, 5, 10, Element::Sand);
    let water = put(&mut map, &world_config, 5, 9, Element::Water);

    let updates = tick(&mut map, &world_config, &vec![pixel(50, 100), pixel(50, 90)]);

    assert_eq!(map.get_cell(&grid(5, 9)), Ok(Some(sand)));
    assert_eq!(map.get_cell(&grid(5, 10)), Ok(None));
    assert_eq!(map.get_cell(&grid(4, 9)), Ok(Some(water)));
    assert_eq!(
        updates,
        vec![
            VoxelUpdate { old_position: pixel(50, 100), new_position: pixel(50, 90), voxel: sand },
            VoxelUpdate { old_position: pixel(50, 90), new_position: pixel(50, 100), voxel: water },
            VoxelUpdate { old_position: pixel(50, 100), new_position: pixel(40, 90), voxel: water },
        ]
    );
}

#[test]
fn a_swapped_voxel_that_was_taken_before_is_not_taken_again() {
    let (world_config, mut map) = world();
    let sand = put(&mut map, &world_config, 5, 10, Element::Sand);
    let water = put(&mut map, &world_config, 5, 9, Element::Water);

    // The water goes first and falls; the sand then falls after it.
    let updates = tick(&mut map, &world_config, &vec![pixel(50, 90), pixel(50, 100)]);

    assert_eq!(map.get_cell(&grid(5, 8)), Ok(Some(water)));
    assert_eq!(map.get_cell(&grid(5, 9)), Ok(Some(sand)));
    assert_eq!(map.get_cell(&grid(5, 10)), Ok(None));
    assert_eq!(
        updates,
        vec![
            VoxelUpdate { old_position: pixel(50, 90), new_position: pixel(50, 80), voxel: water },
            VoxelUpdate { old_position: pixel(50, 100), new_position: pixel(50, 90), voxel: sand },
        ]
    );
}

#[test]
fn earth_falls_and_then_rests_on_sand() {
    let (world_config, mut map) = world();
    let earth = put(&mut map, &world_config, 5, 2, Element::Earth);
    let sand = put(&mut map, &world_config, 5, 0, Element::Sand);
    let live = vec![pixel(50, 20), pixel(50, 0)];
    let first = tick(&mut map, &world_config, &live);
    assert_eq!(
        first,
        vec![VoxelUpdate { old_position: pixel(50, 20), new_position: pixel(50, 10), voxel: earth }]
    );
    let second = tick(&mut map, &world_config, &vec![pixel(50, 10), pixel(50, 0)]);
    assert!(second.is_empty());
    assert_eq!(map.get_cell(&grid(5, 1)), Ok(Some(earth)));
    assert_eq!(map.get_cell(&grid(5, 0)), Ok(Some(sand)));
}

#[test]
fn a_tick_keeps_every_voxel() {
    let (world_config, mut map) = world();
    let mut live = Vec::new();
    let mut placed = 0;
    for (x, y, element) in [
        (3, 7, Element::Sand),
        (3, 6, Element::Water),
        (3, 5, Element::Earth),
        (4, 7, Element::Water),
        (0, 0, Element::Water),
        (19, 3, Element::Sand),
        (19, 2, Element::Sand),
    ] {
        put(&mut map, &world_config, x, y, element);
        live.push(pixel(x as isize * 10, y as isize * 10));
        placed += 1;
    }
    for _ in 0..5 {
        let updates = tick(&mut map, &world_config, &live);
        live.clear();
        let mut found = 0;
        for x in 0..20 {
            for y in 0..20 {
                if let Ok(Some(voxel)) = map.get_cell(&grid(x, y)) {
                    assert_ne!(voxel, Voxel::OOB);
                    live.push(pixel(x as isize * 10, y as isize * 10));
                    found += 1;
                }
            }
        }
        assert_eq!(found, placed);
        for update in updates {
            assert_ne!(update.old_position, update.new_position);
        }
    }
}
