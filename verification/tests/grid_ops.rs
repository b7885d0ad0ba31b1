use game_of_life::Universe;

/// Read one cell through the raw bit view.
fn alive(u: &Universe, x: u32, y: u32) -> bool {
    u.cells().contains((x + y * u.width()) as usize)
}

/// The set of live cells, as (x, y) pairs.
fn live_cells(u: &Universe) -> Vec<(u32, u32)> {
    let mut out = Vec::new();
    for y in 0..u.height() {
        for x in 0..u.width() {
            if alive(u, x, y) {
                out.push((x, y));
            }
        }
    }
    out
}

#[test]
fn new_grid_is_all_dead() {
    let u = Universe::new(7, 5);
    assert_eq!(u.width(), 7);
    assert_eq!(u.height(), 5);
    assert_eq!(u.cells().len(), 35);
    assert!(live_cells(&u).is_empty());
}

#[test]
fn dead_grid_stays_dead() {
    let mut u = Universe::new(6, 6);
    for _ in 0..10 {
        u.tick();
    }
    assert!(live_cells(&u).is_empty());
    assert_eq!(u.width(), 6);
    assert_eq!(u.height(), 6);
}

#[test]
fn block_is_unchanged_by_tick() {
    let mut u = Universe::new(4, 4);
    u.set_cell(1, 1, true);
    u.set_cell(2, 1, true);
    u.set_cell(1, 2, true);
    u.set_cell(2, 2, true);
    u.tick();
    assert_eq!(live_cells(&u), vec![(1, 1), (2, 1), (1, 2), (2, 2)]);
}

#[test]
fn block_across_the_corner_is_unchanged_by_tick() {
    // The block anchored at (3, 3) on a 4x4 torus covers all four corners.
    let mut u = Universe::new(4, 4);
    u.set_cell(3, 3, true);
    u.set_cell(0, 3, true);
    u.set_cell(3, 0, true);
    u.set_cell(0, 0, true);
    u.tick();
    assert_eq!(live_cells(&u), vec![(0, 0), (3, 0), (0, 3), (3, 3)]);
}

#[test]
fn blinker_oscillates_with_period_two() {
    let mut u = Universe::new(5, 5);
    u.set_cell(1, 2, true);
    u.set_cell(2, 2, true);
    u.set_cell(3, 2, true);
    u.tick();
    assert_eq!(live_cells(&u), vec![(2, 1), (2, 2), (2, 3)]);
    u.tick();
    assert_eq!(live_cells(&u), vec![(1, 2), (2, 2), (3, 2)]);
}

#[test]
fn line_across_the_edge_wraps_toroidally() {
    // A horizontal blinker that runs through the left edge: its middle cell
    // sits at (0, 2), its ends at (4, 2) and (1, 2). It turns vertical only
    // because the count at (0, 1) and (0, 3) sees the wrapped end at (4, 2).
    let mut u = Universe::new(5, 5);
    u.set_cell(4, 2, true);
    u.set_cell(0, 2, true);
    u.set_cell(1, 2, true);
    u.tick();
    assert_eq!(live_cells(&u), vec![(0, 1), (0, 2), (0, 3)]);
}

#[test]
fn lone_corner_cells_count_each_other_across_the_diagonal() {
    // Three cells in a wrapped diagonal line on a 4x4 torus: (3, 3) and
    // (1, 1) are both diagonal neighbours of (0, 0) only by wraparound.
    let mut u = Universe::new(4, 4);
    u.set_cell(3, 3, true);
    u.set_cell(0, 0, true);
    u.set_cell(1, 1, true);
    u.tick();
    // (0, 0) survives with exactly its two wrapped diagonal neighbours;
    // both ends die of underpopulation, and no dead cell reaches three.
    assert_eq!(live_cells(&u), vec![(0, 0)]);
}

#[test]
fn resize_width_resets_all_cells() {
    let mut u = Universe::new(5, 4);
    u.set_cell(2, 2, true);
    u.set_cell(4, 3, true);
    u.set_width(3);
    assert_eq!(u.width(), 3);
    assert_eq!(u.height(), 4);
    assert_eq!(u.cells().len(), 12);
    assert!(live_cells(&u).is_empty());
}

#[test]
fn resize_height_resets_all_cells() {
    let mut u = Universe::new(5, 4);
    u.set_cell(1, 1, true);
    u.set_height(7);
    assert_eq!(u.width(), 5);
    assert_eq!(u.height(), 7);
    assert_eq!(u.cells().len(), 35);
    assert!(live_cells(&u).is_empty());
}

#[test]
fn clear_twice_equals_clear_once() {
    let mut u = Universe::new(4, 4);
    u.set_cell(0, 0, true);
    u.set_cell(3, 2, true);
    u.clear();
    let after_once = (u.width(), u.height(), live_cells(&u), u.get_image_data());
    u.clear();
    let after_twice = (u.width(), u.height(), live_cells(&u), u.get_image_data());
    assert_eq!(after_once, after_twice);
    assert!(after_once.2.is_empty());
}

#[test]
fn image_data_maps_cells_to_texels() {
    let mut u = Universe::new(3, 2);
    u.set_cell(1, 0, true);
    u.set_cell(2, 1, true);
    let data = u.get_image_data();
    assert_eq!(data.len(), 3 * 2 * 4);
    for y in 0..2u32 {
        for x in 0..3u32 {
            let i = ((x + y * 3) * 4) as usize;
            let texel = [data[i], data[i + 1], data[i + 2], data[i + 3]];
            if (x, y) == (1, 0) || (x, y) == (2, 1) {
                assert_eq!(texel, [0, 0, 0, 255]);
            } else {
                assert_eq!(texel, [255, 255, 255, 255]);
            }
        }
    }
}

#[test]
fn set_cell_flips_only_the_one_cell() {
    let mut u = Universe::new(4, 3);
    u.set_cell(2, 1, true);
    assert_eq!(live_cells(&u), vec![(2, 1)]);
    u.set_cell(2, 1, false);
    assert!(live_cells(&u).is_empty());
}

#[test]
fn empty_grid_operations_are_no_ops() {
    let mut u = Universe::new(0, 0);
    u.tick();
    assert_eq!(u.width(), 0);
    assert_eq!(u.height(), 0);
    assert_eq!(u.cells().len(), 0);
    assert_eq!(u.get_image_data().len(), 0);

    let mut v = Universe::new(4, 0);
    v.tick();
    v.clear();
    assert_eq!(v.width(), 4);
    assert_eq!(v.height(), 0);
    assert_eq!(v.get_image_data().len(), 0);
}

#[test]
fn underpopulation_and_overpopulation() {
    // A lone cell dies; the centre of a 3x3 full square dies of crowding.
    let mut u = Universe::new(5, 5);
    u.set_cell(2, 2, true);
    u.tick();
    assert!(live_cells(&u).is_empty());

    let mut v = Universe::new(5, 5);
    for y in 1..4 {
        for x in 1..4 {
            v.set_cell(x, y, true);
        }
    }
    v.tick();
    assert!(!alive(&v, 2, 2));
}
