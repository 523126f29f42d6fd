use fluid_simulation::fixed::ONE;
use fluid_simulation::grid::{
    cell_of, hash_cell, key_of_cell, neighbour_cell, Cell, BLOCK_CELLS, EMPTY_CELL,
};
use fluid_simulation::search::{NeighbourSearchGridState, NeighbourSearchSortState};
use fluid_simulation::sort::{find_cell_starts, sort};
use fluid_simulation::vector::Vector3;

fn brute_force(positions: &Vec<Vector3>, center: Vector3, radius: i64) -> Vec<u32> {
    let mut out = Vec::new();
    for (i, p) in positions.iter().enumerate() {
        if center.distance_within(*p, radius).is_some() {
            out.push(i as u32);
        }
    }
    out
}

fn scattered(count: u32) -> Vec<Vector3> {
    let mut positions = Vec::new();
    let mut state: u64 = 12345;
    for _ in 0..count {
        state = state.wrapping_mul(6364136223846793005).wrapping_add(1442695040888963407);
        let x = ((state >> 33) % (8 * ONE as u64)) as i64 - 4 * ONE;
        state = state.wrapping_mul(6364136223846793005).wrapping_add(1442695040888963407);
        let y = ((state >> 33) % (8 * ONE as u64)) as i64 - 4 * ONE;
        state = state.wrapping_mul(6364136223846793005).wrapping_add(1442695040888963407);
        let z = ((state >> 33) % (2 * ONE as u64)) as i64 - ONE;
        positions.push(Vector3::new(x, y, z));
    }
    positions
}

#[test]
fn a_cell_is_the_coordinate_over_the_size_rounded_down() {
    let c = cell_of(Vector3::new(-1, -ONE, ONE - 1), ONE);
    assert_eq!(c, Cell { x: -1, y: -1, z: 0 });
    let d = cell_of(Vector3::new(-ONE - 1, 5 * ONE, 0), ONE);
    assert_eq!(d, Cell { x: -2, y: 5, z: 0 });
    let e = cell_of(Vector3::new(i64::MIN, i64::MAX, 7), 1);
    assert_eq!(e, Cell { x: i64::MIN, y: i64::MAX, z: 7 });
    let f = cell_of(Vector3::new(i64::MIN, i64::MAX, 7), i64::MAX);
    assert_eq!(f, Cell { x: -2, y: 1, z: 0 });
}

#[test]
fn the_hash_mixes_each_axis_with_its_prime() {
    assert_eq!(hash_cell(Cell { x: 0, y: 0, z: 0 }), 0);
    assert_eq!(hash_cell(Cell { x: 1, y: 0, z: 0 }), 73856093);
    assert_eq!(hash_cell(Cell { x: 0, y: 1, z: 0 }), 19349663);
    assert_eq!(hash_cell(Cell { x: 0, y: 0, z: 1 }), 83492791);
    assert_eq!(hash_cell(Cell { x: 1, y: 2, z: 3 }), 147163718);
    assert_eq!(hash_cell(Cell { x: -1, y: 0, z: 0 }), 4221111203);
    assert_eq!(hash_cell(Cell { x: -1, y: -1, z: -1 }), 4266112139);
}

#[test]
fn the_hash_wraps_coordinates_to_32_bits() {
    assert_eq!(hash_cell(Cell { x: (1i64 << 32) + 1, y: 0, z: 0 }), 73856093);
    assert_eq!(
        hash_cell(Cell { x: i64::MAX, y: i64::MIN, z: 0 }),
        hash_cell(Cell { x: -1, y: 0, z: 0 })
    );
}

#[test]
fn a_key_lies_below_the_table_size() {
    assert_eq!(key_of_cell(Cell { x: 1, y: 2, z: 3 }, 7), 2);
    assert_eq!(key_of_cell(Cell { x: -1, y: 0, z: 0 }, 7), 1);
    assert_eq!(key_of_cell(Cell { x: 9, y: 9, z: 9 }, 1), 0);
}

#[test]
fn the_block_around_a_cell_has_27_distinct_cells() {
    let c = Cell { x: 10, y: -3, z: 0 };
    let mut seen = Vec::new();
    for t in 0..BLOCK_CELLS {
        let d = neighbour_cell(c, t);
        assert!((d.x - c.x).abs() <= 1 && (d.y - c.y).abs() <= 1 && (d.z - c.z).abs() <= 1);
        assert!(!seen.contains(&d));
        seen.push(d);
    }
    assert_eq!(seen.len(), 27);
    assert_eq!(neighbour_cell(c, 0), Cell { x: 9, y: -4, z: -1 });
    assert_eq!(neighbour_cell(c, 13), c);
    assert_eq!(neighbour_cell(c, 26), Cell { x: 11, y: -2, z: 1 });
}

#[test]
fn the_block_wraps_at_the_ends_of_the_range() {
    let c = Cell { x: i64::MAX, y: i64::MIN, z: 0 };
    assert_eq!(neighbour_cell(c, 26), Cell { x: i64::MIN, y: i64::MIN + 1, z: 1 });
    assert_eq!(neighbour_cell(c, 0), Cell { x: i64::MAX - 1, y: i64::MAX, z: -1 });
}

#[test]
fn sorting_orders_pairs_by_key_and_keeps_them_all() {
    let pairs = vec![(5u32, 0u32), (1, 1), (3, 2), (1, 3), (0, 4), (5, 5), (3, 6)];
    let sorted = sort(&pairs);
    assert_eq!(sorted.len(), pairs.len());
    for i in 1..sorted.len() {
        assert!(sorted[i - 1].0 <= sorted[i].0);
    }
    let mut expected = pairs.clone();
    expected.sort();
    let mut got = sorted.clone();
    got.sort();
    assert_eq!(got, expected);
    let keys: Vec<u32> = sorted.iter().map(|p| p.0).collect();
    assert_eq!(keys, vec![0, 1, 1, 3, 3, 5, 5]);
}

#[test]
fn sorting_keeps_the_order_of_pairs_with_equal_keys() {
    let pairs = vec![(5u32, 0u32), (1, 9), (3, 2), (1, 3), (0, 4), (5, 5), (3, 6), (1, 1)];
    assert_eq!(
        sort(&pairs),
        vec![(0, 4), (1, 9), (1, 3), (1, 1), (3, 2), (3, 6), (5, 0), (5, 5)]
    );
    let mut many = Vec::new();
    for i in 0..1000u32 {
        many.push(((i * 7919) % 13, i));
    }
    let sorted = sort(&many);
    for i in 1..sorted.len() {
        assert!(sorted[i - 1].0 <= sorted[i].0);
        if sorted[i - 1].0 == sorted[i].0 {
            assert!(sorted[i - 1].1 < sorted[i].1);
        }
    }
}

#[test]
fn sorting_nothing_and_one_pair() {
    assert_eq!(sort(&Vec::new()), Vec::<(u32, u32)>::new());
    assert_eq!(sort(&vec![(9, 4)]), vec![(9, 4)]);
}

#[test]
fn sorting_keeps_pairs_that_occur_twice() {
    let sorted = sort(&vec![(2, 7), (1, 1), (2, 7), (0, 3)]);
    assert_eq!(sorted, vec![(0, 3), (1, 1), (2, 7), (2, 7)]);
}

#[test]
fn cell_starts_point_to_the_first_entry_of_each_key() {
    let keys = vec![0u32, 1, 1, 3, 3, 5, 5];
    let starts = find_cell_starts(&keys, 7);
    assert_eq!(starts, vec![0, 1, EMPTY_CELL, 3, EMPTY_CELL, 5, EMPTY_CELL]);
}

#[test]
fn cell_starts_of_no_keys_are_all_empty() {
    assert_eq!(find_cell_starts(&Vec::new(), 3), vec![EMPTY_CELL, EMPTY_CELL, EMPTY_CELL]);
    assert_eq!(find_cell_starts(&Vec::new(), 0), Vec::<u32>::new());
    assert_eq!(EMPTY_CELL, u32::MAX);
}

#[test]
fn new_tables_are_empty() {
    let tables = NeighbourSearchGridState::new(4);
    assert_eq!(tables.key_cell_hash, vec![0, 0, 0, 0]);
    assert_eq!(tables.value_particle_id, vec![0, 0, 0, 0]);
    assert_eq!(tables.cell_start, vec![EMPTY_CELL; 4]);
    let search = NeighbourSearchSortState::new(1);
    assert_eq!(search.grid_state.key_cell_hash, vec![0]);
    assert_eq!(search.grid_state.value_particle_id, vec![0]);
    assert_eq!(search.grid_state.cell_start, vec![EMPTY_CELL]);
}

#[test]
fn binning_gives_each_particle_the_key_of_its_cell() {
    let positions = vec![
        Vector3::new(ONE + 5, 2 * ONE + 1, 3 * ONE),
        Vector3::new(-1, 0, 0),
        Vector3::new(0, 0, 0),
    ];
    let mut tables = NeighbourSearchGridState::new(3);
    tables.calc_hash(&positions, ONE);
    assert_eq!(tables.value_particle_id, vec![0, 1, 2]);
    assert_eq!(
        tables.key_cell_hash,
        vec![147163718 % 3, 4221111203u32 % 3, 0]
    );
}

#[test]
fn sorting_the_tables_keeps_keys_with_their_particles() {
    let mut search = NeighbourSearchSortState::new(5);
    search.grid_state.key_cell_hash = vec![4, 2, 4, 0, 2];
    search.grid_state.value_particle_id = vec![0, 1, 2, 3, 4];
    let starts_before = search.grid_state.cell_start.clone();
    search.sort();
    assert_eq!(search.grid_state.key_cell_hash, vec![0, 2, 2, 4, 4]);
    let mut pairs: Vec<(u32, u32)> = search
        .grid_state
        .key_cell_hash
        .iter()
        .cloned()
        .zip(search.grid_state.value_particle_id.iter().cloned())
        .collect();
    pairs.sort();
    assert_eq!(pairs, vec![(0, 3), (2, 1), (2, 4), (4, 0), (4, 2)]);
    assert_eq!(search.grid_state.value_particle_id, vec![3, 1, 4, 0, 2]);
    assert_eq!(search.grid_state.cell_start, starts_before);
}

#[test]
fn the_rebuilt_structure_is_sorted_and_complete() {
    let positions = scattered(200);
    let mut search = NeighbourSearchSortState::new(200);
    search.rebuild(&positions, ONE);
    let tables = &search.grid_state;
    for i in 1..200 {
        assert!(tables.key_cell_hash[i - 1] <= tables.key_cell_hash[i]);
    }
    let mut ids = tables.value_particle_id.clone();
    ids.sort();
    assert_eq!(ids, (0..200u32).collect::<Vec<u32>>());
    for i in 0..200 {
        let id = tables.value_particle_id[i] as usize;
        let key = key_of_cell(cell_of(positions[id], ONE), 200);
        assert_eq!(tables.key_cell_hash[i], key);
    }
    for key in 0..200u32 {
        let first = tables.key_cell_hash.iter().position(|k| *k == key);
        match first {
            Some(i) => assert_eq!(tables.cell_start[key as usize], i as u32),
            None => assert_eq!(tables.cell_start[key as usize], EMPTY_CELL),
        }
    }
}

#[test]
fn a_query_reports_exactly_the_particles_within_the_radius() {
    let positions = scattered(300);
    let mut search = NeighbourSearchSortState::new(300);
    search.rebuild(&positions, ONE);
    for i in 0..300 {
        for radius in [ONE, ONE / 2, 1000, 0] {
            let mut found = search.grid_state.neighbours(&positions, ONE, positions[i], radius);
            let count = found.len();
            found.sort();
            found.dedup();
            assert_eq!(found.len(), count);
            assert_eq!(found, brute_force(&positions, positions[i], radius));
            assert!(found.contains(&(i as u32)));
        }
    }
}

#[test]
fn two_particles_within_a_kernel_radius_find_each_other() {
    let positions = vec![
        Vector3::new(ONE - 1, ONE - 1, 0),
        Vector3::new(ONE, ONE, 0),
        Vector3::new(-3 * ONE, 7 * ONE, 0),
        Vector3::new(2 * ONE - 2, ONE - 1, 0),
    ];
    let mut search = NeighbourSearchSortState::new(4);
    search.rebuild(&positions, ONE);
    let around_first = search.grid_state.neighbours(&positions, ONE, positions[0], ONE);
    let around_second = search.grid_state.neighbours(&positions, ONE, positions[1], ONE);
    let around_fourth = search.grid_state.neighbours(&positions, ONE, positions[3], ONE);
    assert!(around_first.contains(&1) && around_second.contains(&0));
    assert!(around_first.contains(&3) && around_fourth.contains(&0));
    assert!(around_second.contains(&3) && around_fourth.contains(&1));
    assert!(!around_first.contains(&2));
    let around_third = search.grid_state.neighbours(&positions, ONE, positions[2], ONE);
    assert_eq!(around_third, vec![2]);
}

#[test]
fn a_query_with_a_negative_radius_reports_nothing() {
    let positions = vec![Vector3::new(0, 0, 0), Vector3::new(1, 0, 0)];
    let mut search = NeighbourSearchSortState::new(2);
    search.rebuild(&positions, ONE);
    let found = search.grid_state.neighbours(&positions, ONE, positions[0], -1);
    assert!(found.is_empty());
}

#[test]
fn a_query_far_outside_still_works() {
    let positions = vec![
        Vector3::new(i64::MAX, i64::MAX, i64::MAX),
        Vector3::new(i64::MIN, i64::MIN, i64::MIN),
        Vector3::new(i64::MAX - 5, i64::MAX, i64::MAX),
    ];
    let mut search = NeighbourSearchSortState::new(3);
    search.rebuild(&positions, 10);
    let mut found = search.grid_state.neighbours(&positions, 10, positions[0], 10);
    found.sort();
    assert_eq!(found, vec![0, 2]);
    let found = search.grid_state.neighbours(&positions, 10, positions[1], 10);
    assert_eq!(found, vec![1]);
}

#[test]
fn all_particles_in_one_cell_are_found_once() {
    let positions = vec![Vector3::new(5, 5, 5); 40];
    let mut search = NeighbourSearchSortState::new(40);
    search.rebuild(&positions, ONE);
    let mut found = search.grid_state.neighbours(&positions, ONE, positions[7], 0);
    found.sort();
    assert_eq!(found, (0..40u32).collect::<Vec<u32>>());
}
