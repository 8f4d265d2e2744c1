use roadsim2d::geometry::{
    gridmap_enforce_bounds, gridmap_xy_to_world, vec2i32_distance2, world_distance2_of,
    world_to_gridmap_xy, world_to_gridmap_xy_enforce_bounds, WorldPoint, TOWN_SIZE,
};
use roadsim2d::grid_map::TownGridMap;
use roadsim2d::town::{
    find_free_cell_close_to, find_free_space_close_to, find_shortest_path,
    make_random_town_gridmap, make_square_town_gridmap,
};

fn turtle_advance(theta: i64) -> (i8, i8) {
    let t = theta as f64 / 1.0e6;
    ((4.0 * t.cos()) as i8, (4.0 * t.sin()) as i8)
}

#[test]
fn cell_centres_map_back_to_their_cells() {
    for &c in &[(0usize, 0usize), (999, 999), (500, 500), (123, 877), (0, 999)] {
        let w = gridmap_xy_to_world(c);
        assert_eq!(world_to_gridmap_xy_enforce_bounds(w), c);
    }
}

#[test]
fn cell_centre_coordinates() {
    assert_eq!(gridmap_xy_to_world((500, 500)), WorldPoint::new(500, 500));
    assert_eq!(gridmap_xy_to_world((0, 999)), WorldPoint::new(-499_500, 499_500));
    assert_eq!(gridmap_xy_to_world((509, 490)), WorldPoint::new(9_500, -9_500));
}

#[test]
fn world_points_map_to_cells() {
    assert_eq!(world_to_gridmap_xy(WorldPoint::new(0, 0)), (500, 500));
    assert_eq!(world_to_gridmap_xy(WorldPoint::new(999, -1)), (500, 499));
    assert_eq!(world_to_gridmap_xy(WorldPoint::new(-500_000, 499_999)), (0, 999));
    assert_eq!(world_to_gridmap_xy(WorldPoint::new(-600_000, 700_000)), (-100, 1200));
}

#[test]
fn far_points_are_clamped_to_the_border() {
    let far = WorldPoint::new(-900_000_000, 900_000_000);
    assert_eq!(world_to_gridmap_xy_enforce_bounds(far), (0, TOWN_SIZE - 1));
    assert_eq!(world_to_gridmap_xy_enforce_bounds(WorldPoint::new(500_000, -500_001)), (999, 0));
    assert_eq!(gridmap_enforce_bounds((-5, 1000)), (0, 999));
    assert_eq!(gridmap_enforce_bounds((7, 8)), (7, 8));
}

#[test]
fn distances() {
    assert_eq!(vec2i32_distance2((500, 500), (503, 496)), 25);
    assert_eq!(vec2i32_distance2((0, 0), (999, 999)), 2 * 999 * 999);
    assert_eq!(world_distance2_of(WorldPoint::new(1_000, 0), WorldPoint::new(-2_000, 4_000)), 25_000_000);
}

#[test]
fn square_town_has_one_block() {
    let grid = make_square_town_gridmap();
    assert_eq!(grid.cells().len(), 100);
    assert!(grid.has_cell((500, 500)));
    assert!(grid.has_cell((509, 509)));
    assert!(!grid.has_cell((510, 509)));
    assert!(!grid.has_cell((499, 500)));
}

#[test]
fn grid_cells_and_neighbours() {
    let mut grid = TownGridMap::new();
    assert!(grid.add_cell((10, 10)));
    assert!(!grid.add_cell((10, 10)));
    assert!(!grid.add_cell((1000, 3)));
    assert!(grid.add_cell((11, 11)));
    assert!(grid.add_cell((12, 10)));
    assert_eq!(grid.cells().len(), 3);
    let near = grid.neighbours((11, 11));
    assert_eq!(near.len(), 2);
    assert!(near.contains(&(10, 10)) && near.contains(&(12, 10)));
    assert!(grid.neighbours((10, 10)).contains(&(11, 11)));
    assert!(grid.neighbours((20, 20)).is_empty());
    let next = grid.successors((10, 10));
    assert_eq!(next, vec![((11, 11), 1u64)]);
}

#[test]
fn nearest_free_space_from_outside_the_block() {
    let grid = make_square_town_gridmap();
    // Left of the block, level with its middle: the nearest cell is on its left edge.
    let r = find_free_space_close_to(&grid, WorldPoint::new(-20_000, 4_200));
    assert_eq!(r, Some(gridmap_xy_to_world((500, 504))));
    // Beyond the far corner: the corner cell.
    let r = find_free_space_close_to(&grid, WorldPoint::new(30_000, 30_000));
    assert_eq!(r, Some(WorldPoint::new(9_500, 9_500)));
    // Far outside the town: clamped first, then the block corner nearest to it.
    let r = find_free_space_close_to(&grid, WorldPoint::new(-900_000, -900_000));
    assert_eq!(r, Some(WorldPoint::new(500, 500)));
    // Inside the block: the cell itself.
    let r = find_free_space_close_to(&grid, WorldPoint::new(3_700, 6_100));
    assert_eq!(r, Some(WorldPoint::new(3_500, 6_500)));
}

#[test]
fn nearest_free_cell_tie_takes_lowest_column_then_row() {
    let mut grid = TownGridMap::new();
    grid.add_cell((12, 10));
    grid.add_cell((10, 12));
    grid.add_cell((8, 10));
    grid.add_cell((10, 8));
    assert_eq!(find_free_cell_close_to(&grid, (10, 10)), Some((8, 10)));
    grid.add_cell((9, 11));
    assert_eq!(find_free_cell_close_to(&grid, (10, 10)), Some((9, 11)));
}

#[test]
fn nearest_free_space_on_empty_town() {
    let grid = TownGridMap::new();
    assert_eq!(find_free_space_close_to(&grid, WorldPoint::new(0, 0)), None);
}

#[test]
fn shortest_path_across_the_square_block() {
    let grid = make_square_town_gridmap();
    let start = gridmap_xy_to_world((500, 500));
    let end = gridmap_xy_to_world((509, 509));
    let path = find_shortest_path(&grid, start, end).expect("block is connected");
    // Chebyshev distance 9: nine diagonal moves, ten cells.
    assert_eq!(path.len(), 10);
    assert_eq!(path.front(), Some(&start));
    assert_eq!(path.back(), Some(&end));
    for (a, b) in path.iter().zip(path.iter().skip(1)) {
        assert!((a.x - b.x).abs() <= 1_000 && (a.y - b.y).abs() <= 1_000);
        assert!(a != b);
    }
}

#[test]
fn shortest_path_along_an_edge() {
    let grid = make_square_town_gridmap();
    let path = find_shortest_path(&grid, gridmap_xy_to_world((500, 500)), gridmap_xy_to_world((509, 500)))
        .expect("block is connected");
    assert_eq!(path.len(), 10);
}

#[test]
fn shortest_path_between_islands_is_none() {
    let mut grid = TownGridMap::new();
    for x in 100..105 {
        for y in 100..105 {
            grid.add_cell((x, y));
            grid.add_cell((x + 10, y));
        }
    }
    let a = gridmap_xy_to_world((102, 102));
    let b = gridmap_xy_to_world((112, 102));
    assert!(find_shortest_path(&grid, a, b).is_none());
    assert!(find_shortest_path(&grid, a, gridmap_xy_to_world((104, 100))).is_some());
    // A one-cell bridge joins them.
    for x in 105..110 {
        grid.add_cell((x, 102));
    }
    let path = find_shortest_path(&grid, a, b).expect("bridged");
    assert_eq!(path.len(), 11);
}

#[test]
fn shortest_path_to_itself_and_from_blocked_cell() {
    let grid = make_square_town_gridmap();
    let p = gridmap_xy_to_world((503, 503));
    assert_eq!(find_shortest_path(&grid, p, p).map(|q| q.len()), Some(1));
    let blocked = gridmap_xy_to_world((10, 10));
    assert!(find_shortest_path(&grid, blocked, p).is_none());
}

#[test]
fn random_town_stays_inside_the_grid() {
    let grid = make_random_town_gridmap(7, turtle_advance);
    let cells = grid.cells();
    assert!(cells.len() >= 64);
    for &(x, y) in &cells {
        assert!(x >= 1 && x <= TOWN_SIZE - 2);
        assert!(y >= 1 && y <= TOWN_SIZE - 2);
    }
    for x in 496..504 {
        for y in 496..504 {
            assert!(grid.has_cell((x, y)));
        }
    }
}

#[test]
fn random_town_is_reproducible() {
    let a = make_random_town_gridmap(42, turtle_advance);
    let b = make_random_town_gridmap(42, turtle_advance);
    let mut ca = a.cells();
    let mut cb = b.cells();
    ca.sort();
    cb.sort();
    assert_eq!(ca, cb);
}

#[test]
fn random_town_with_a_fixed_heading_is_a_straight_road() {
    // Every turtle moves 4 cells right per step whatever its heading.
    let grid = make_random_town_gridmap(3, |_theta: i64| (4i8, 0i8));
    for &(x, y) in &grid.cells() {
        assert!(y >= 496 && y < 504, "cell {:?} off the road", (x, y));
    }
    assert!(grid.has_cell((998, 500)) || grid.has_cell((997, 500)) || grid.has_cell((995, 500)));
}
