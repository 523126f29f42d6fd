//! The neighbour structure of a frame: every particle binned by the key of
//! its cell, the bins sorted, the start of each run recorded, and the query
//! that walks the block of cells around a point.
use vstd::prelude::*;
use vstd::seq_lib::*;
use crate::grid::{
    block_cell, block_has_key, cell_at, cell_key, cell_of, key_of_cell, lemma_block_covers_radius,
    neighbour_cell, point_key, Cell, BLOCK_CELLS, EMPTY_CELL,
};
use crate::sort::{find_cell_starts, is_cell_start, keys_ascend, run_of, sort};
use crate::vector::{within, Vector3};

verus! {

/// The three tables of the neighbour search, all of one length: the key of
/// each entry's cell, the particle of each entry, and the start of each key's
/// run.
pub struct NeighbourSearchGridState {
    pub key_cell_hash: Vec<u32>,
    pub value_particle_id: Vec<u32>,
    pub cell_start: Vec<u32>,
}

/// The index at which `values` holds the particle `id`.
pub open spec fn slot_of(values: Seq<u32>, id: u32) -> int {
    choose|i: int| 0 <= i < values.len() && values[i] == id
}

/// The pairs of key and particle that two tables hold side by side.
pub open spec fn zipped(keys: Seq<u32>, values: Seq<u32>) -> Seq<(u32, u32)> {
    Seq::new(keys.len(), |i: int| (keys[i], values[i]))
}

/// Whether `id` is a particle that a query around `center` reports: it lies
/// within `radius`, and the key of its cell is a key of the block of cells
/// around the centre's cell.
pub open spec fn is_neighbour(
    positions: Seq<Vector3>,
    grid: i64,
    center: Vector3,
    radius: i64,
    id: u32,
) -> bool {
    &&& id < positions.len()
    &&& within(center, positions[id as int], radius as int)
    &&& block_has_key(
        cell_at(center, grid),
        point_key(positions[id as int], grid, positions.len() as u32),
        positions.len() as u32,
    )
}

impl NeighbourSearchGridState {
    /// Whether the three tables have `length` entries each.
    pub open spec fn sized(self, length: nat) -> bool {
        &&& self.key_cell_hash.len() == length
        &&& self.value_particle_id.len() == length
        &&& self.cell_start.len() == length
    }

    /// Whether entry `i` holds particle `i` with the key of its cell, for every `i`.
    pub open spec fn binned(self, positions: Seq<Vector3>, grid: i64) -> bool {
        &&& self.sized(positions.len())
        &&& forall|i: int|
            0 <= i < positions.len() ==> self.value_particle_id[i] == i
                && self.key_cell_hash[i] == point_key(positions[i], grid, positions.len() as u32)
    }

    /// Whether every entry's key is the key of its particle's cell.
    pub open spec fn keyed(self, positions: Seq<Vector3>, grid: i64) -> bool {
        forall|i: int|
            0 <= i < positions.len() ==> (#[trigger] self.value_particle_id[i]) < positions.len()
                && self.key_cell_hash[i] == point_key(
                positions[self.value_particle_id[i] as int],
                grid,
                positions.len() as u32,
            )
    }

    /// Whether every particle has exactly one entry.
    pub open spec fn each_once(self, length: nat) -> bool {
        &&& forall|id: u32|
            id < length ==> 0 <= #[trigger] slot_of(self.value_particle_id@, id) < length
                && self.value_particle_id[slot_of(self.value_particle_id@, id)] == id
        &&& forall|i: int, j: int|
            0 <= i < j < length ==> self.value_particle_id[i] != self.value_particle_id[j]
    }

    /// Whether the tables are the neighbour structure of `positions` for the
    /// cell size `grid`: each particle has one entry, with the key of its
    /// cell; the keys ascend; and the cell-start table gives the first entry
    /// of every key.
    pub open spec fn indexes(self, positions: Seq<Vector3>, grid: i64) -> bool {
        &&& 0 < positions.len() <= u32::MAX
        &&& grid > 0
        &&& self.sized(positions.len())
        &&& self.keyed(positions, grid)
        &&& self.each_once(positions.len())
        &&& keys_ascend(self.key_cell_hash@)
        &&& forall|key: u32|
            key < positions.len() ==> is_cell_start(
                self.key_cell_hash@,
                key,
                #[trigger] self.cell_start[key as int],
            )
    }

    /// Tables of `length` entries: keys and particles zero, every cell empty.
    pub fn new(length: u32) -> (s: NeighbourSearchGridState)
        requires
            length > 0,
        ensures
            s.sized(length as nat),
            forall|i: int| 0 <= i < length ==> s.key_cell_hash[i] == 0,
            forall|i: int| 0 <= i < length ==> s.value_particle_id[i] == 0,
            forall|i: int| 0 <= i < length ==> s.cell_start[i] == EMPTY_CELL,
    {
        NeighbourSearchGridState {
            key_cell_hash: vec![0u32; length as usize],
            value_particle_id: vec![0u32; length as usize],
            cell_start: vec![EMPTY_CELL; length as usize],
        }
    }

    /// Bins the particles: entry `i` gets particle `i` and the key of the cell
    /// that holds its position. The cell-start table is cleared.
    pub fn calc_hash(&mut self, positions: &Vec<Vector3>, grid: i64)
        requires
            0 < positions.len() <= u32::MAX,
            grid > 0,
        ensures
            final(self).binned(positions@, grid),
            forall|i: int| 0 <= i < positions.len() ==> final(self).cell_start[i] == EMPTY_CELL,
    {
        let n = positions.len();
        let mut keys: Vec<u32> = Vec::new();
        let mut values: Vec<u32> = Vec::new();
        let mut i: usize = 0;
        while i < n
            invariant
                i <= n,
                n == positions.len(),
                0 < n <= u32::MAX,
                grid > 0,
                keys.len() == i,
                values.len() == i,
                forall|k: int|
                    0 <= k < i ==> values[k] == k && keys[k] == point_key(
                        positions[k],
                        grid,
                        n as u32,
                    ),
            decreases n - i,
        {
            keys.push(key_of_cell(cell_of(positions[i], grid), n as u32));
            values.push(i as u32);
            i = i + 1;
        }
        self.key_cell_hash = keys;
        self.value_particle_id = values;
        self.cell_start = vec![EMPTY_CELL; n];
    }
}

/// The neighbour search of a frame: the tables and the sort over them.
pub struct NeighbourSearchSortState {
    pub grid_state: NeighbourSearchGridState,
}

/// A sequence of pairs with distinct second components, sorted into another
/// that holds the same pairs, keeps each second component exactly once.
proof fn lemma_sorted_entries(before: Seq<(u32, u32)>, after: Seq<(u32, u32)>)
    requires
        before.to_multiset() == after.to_multiset(),
        forall|i: int| 0 <= i < before.len() ==> (#[trigger] before[i]).1 == i,
        before.len() <= u32::MAX,
    ensures
        after.len() == before.len(),
        forall|i: int|
            0 <= i < after.len() ==> (#[trigger] after[i]).1 < before.len() && after[i]
                == before[after[i].1 as int],
        forall|id: u32| id < before.len() ==> after.contains(#[trigger] before[id as int]),
        after.no_duplicates(),
{
    broadcast use {group_to_multiset_ensures, vstd::multiset::group_multiset_axioms};

    after.to_multiset_ensures();
    assert forall|i: int| 0 <= i < after.len() implies (#[trigger] after[i]).1 < before.len()
        && after[i] == before[after[i].1 as int] by {
        assert(after.to_multiset().count(after[i]) > 0);
    }
    assert forall|id: u32| id < before.len() implies after.contains(
        #[trigger] before[id as int],
    ) by {
        assert(before.to_multiset().count(before[id as int]) > 0);
    }
    before.lemma_multiset_has_no_duplicates();
    after.lemma_multiset_has_no_duplicates_conv();
}

impl NeighbourSearchSortState {
    /// A neighbour search for `length` particles, with empty tables.
    pub fn new(length: u32) -> (s: NeighbourSearchSortState)
        requires
            length > 0,
        ensures
            s.grid_state.sized(length as nat),
            forall|i: int| 0 <= i < length ==> s.grid_state.key_cell_hash[i] == 0,
            forall|i: int| 0 <= i < length ==> s.grid_state.value_particle_id[i] == 0,
            forall|i: int| 0 <= i < length ==> s.grid_state.cell_start[i] == EMPTY_CELL,
    {
        NeighbourSearchSortState { grid_state: NeighbourSearchGridState::new(length) }
    }

    /// Sorts the entries by key, stably. The tables hold the same pairs of key
    /// and particle afterwards, in an order in which the keys never decrease
    /// and the entries of each key stand as they stood before; the cell-start
    /// table is left as it was.
    pub fn sort(&mut self)
        requires
            old(self).grid_state.key_cell_hash.len() == old(
                self,
            ).grid_state.value_particle_id.len(),
        ensures
            keys_ascend(final(self).grid_state.key_cell_hash@),
            zipped(
                final(self).grid_state.key_cell_hash@,
                final(self).grid_state.value_particle_id@,
            ).to_multiset() == zipped(
                old(self).grid_state.key_cell_hash@,
                old(self).grid_state.value_particle_id@,
            ).to_multiset(),
            final(self).grid_state.key_cell_hash.len() == old(self).grid_state.key_cell_hash.len(),
            final(self).grid_state.value_particle_id.len() == old(
                self,
            ).grid_state.value_particle_id.len(),
            forall|key: u32|
                #[trigger] run_of(
                    zipped(
                        final(self).grid_state.key_cell_hash@,
                        final(self).grid_state.value_particle_id@,
                    ),
                    key,
                ) == run_of(
                    zipped(
                        old(self).grid_state.key_cell_hash@,
                        old(self).grid_state.value_particle_id@,
                    ),
                    key,
                ),
            final(self).grid_state.cell_start == old(self).grid_state.cell_start,
    {
        let n = self.grid_state.key_cell_hash.len();
        let mut pairs: Vec<(u32, u32)> = Vec::new();
        let mut i: usize = 0;
        while i < n
            invariant
                i <= n,
                n == self.grid_state.key_cell_hash.len(),
                n == self.grid_state.value_particle_id.len(),
                pairs.len() == i,
                forall|k: int|
                    0 <= k < i ==> pairs[k] == (
                        self.grid_state.key_cell_hash[k],
                        self.grid_state.value_particle_id[k],
                    ),
            decreases n - i,
        {
            pairs.push((self.grid_state.key_cell_hash[i], self.grid_state.value_particle_id[i]));
            i = i + 1;
        }
        assert(pairs@ =~= zipped(
            self.grid_state.key_cell_hash@,
            self.grid_state.value_particle_id@,
        ));
        let sorted = sort(&pairs);
        let mut keys: Vec<u32> = Vec::new();
        let mut values: Vec<u32> = Vec::new();
        let mut j: usize = 0;
        while j < n
            invariant
                j <= n,
                n == sorted.len(),
                keys.len() == j,
                values.len() == j,
                forall|k: int| 0 <= k < j ==> keys[k] == sorted[k].0 && values[k] == sorted[k].1,
            decreases n - j,
        {
            keys.push(sorted[j].0);
            values.push(sorted[j].1);
            j = j + 1;
        }
        assert(zipped(keys@, values@) =~= sorted@);
        self.grid_state.key_cell_hash = keys;
        self.grid_state.value_particle_id = values;
    }

    /// Turns binned tables into the neighbour structure of `positions`: sorts
    /// the entries by key and records where each key's run starts.
    pub fn resolve(&mut self, positions: &Vec<Vector3>, grid: i64)
        requires
            0 < positions.len() <= u32::MAX,
            grid > 0,
            old(self).grid_state.binned(positions@, grid),
        ensures
            final(self).grid_state.indexes(positions@, grid),
    {
        let ghost before = zipped(
            self.grid_state.key_cell_hash@,
            self.grid_state.value_particle_id@,
        );
        self.sort();
        let ghost after = zipped(
            self.grid_state.key_cell_hash@,
            self.grid_state.value_particle_id@,
        );
        let n = positions.len();
        proof {
            lemma_sorted_entries(before, after);
            let values = self.grid_state.value_particle_id@;
            assert forall|i: int| 0 <= i < n implies (#[trigger] values[i]) < n
                && self.grid_state.key_cell_hash[i] == point_key(
                positions[values[i] as int],
                grid,
                n as u32,
            ) by {
                assert(after[i] == before[after[i].1 as int]);
            }
            assert forall|i: int| 0 <= i < n implies self.grid_state.key_cell_hash[i] < n by {
                assert(values[i] < n);
            }
            assert forall|id: u32| id < n implies 0 <= #[trigger] slot_of(values, id) < n
                && values[slot_of(values, id)] == id by {
                let k = after.index_of(before[id as int]);
                assert(values[k] == id);
            }
            assert forall|i: int, j: int| 0 <= i < j < n implies values[i] != values[j] by {
                if values[i] == values[j] {
                    assert(after[i] == after[j]);
                }
            }
        }
        self.grid_state.cell_start = find_cell_starts(&self.grid_state.key_cell_hash, n);
    }

    /// Rebuilds the neighbour structure for `positions`: bins the particles,
    /// sorts the bins and records where each key's run starts.
    pub fn rebuild(&mut self, positions: &Vec<Vector3>, grid: i64)
        requires
            0 < positions.len() <= u32::MAX,
            grid > 0,
        ensures
            final(self).grid_state.indexes(positions@, grid),
    {
        self.grid_state.calc_hash(positions, grid);
        self.resolve(positions, grid);
    }
}

/// Whether `key` is the key of one of the first `count` cells of the block
/// around `c`.
pub open spec fn block_prefix_has_key(c: Cell, count: int, key: u32, table: u32) -> bool {
    exists|t: int| 0 <= t < count && #[trigger] cell_key(block_cell(c, t), table) == key
}

/// Whether the vector holds `key`.
fn holds_key(keys: &Vec<u32>, key: u32) -> (b: bool)
    ensures
        b == keys@.contains(key),
{
    let mut i: usize = 0;
    while i < keys.len()
        invariant
            i <= keys.len(),
            forall|k: int| 0 <= k < i ==> keys[k] != key,
        decreases keys.len() - i,
    {
        if keys[i] == key {
            return true;
        }
        i = i + 1;
    }
    false
}

impl NeighbourSearchGridState {
    /// Walks the run of entries with the key `key` and appends to `found` each
    /// of its particles that lies within `radius` of `center`.
    fn scan_run(
        &self,
        positions: &Vec<Vector3>,
        grid: i64,
        center: Vector3,
        radius: i64,
        key: u32,
        found: &mut Vec<u32>,
    )
        requires
            self.indexes(positions@, grid),
            key < positions.len(),
            old(found)@.no_duplicates(),
            forall|id: u32|
                (#[trigger] old(found)@.contains(id)) ==> id < positions.len() && point_key(
                    positions[id as int],
                    grid,
                    positions.len() as u32,
                ) != key,
        ensures
            final(found)@.no_duplicates(),
            forall|id: u32|
                (#[trigger] final(found)@.contains(id)) <==> old(found)@.contains(id) || (id
                    < positions.len() && point_key(
                    positions[id as int],
                    grid,
                    positions.len() as u32,
                ) == key && within(center, positions[id as int], radius as int)),
    {
        let n = positions.len();
        let start = self.cell_start[key as usize];
        let ghost keys = self.key_cell_hash@;
        let ghost values = self.value_particle_id@;
        let ghost earlier = found@;
        if start == EMPTY_CELL {
            proof {
                assert forall|id: u32| id < n implies point_key(
                    positions[id as int],
                    grid,
                    n as u32,
                ) != key by {
                    assert(values[slot_of(values, id)] == id);
                }
            }
            return ;
        }
        let mut j: usize = start as usize;
        while j < n && self.key_cell_hash[j] == key
            invariant
                start <= j <= n,
                n == positions.len(),
                keys == self.key_cell_hash@,
                values == self.value_particle_id@,
                self.indexes(positions@, grid),
                forall|k: int| start <= k < j ==> keys[k] == key,
                found@.no_duplicates(),
                forall|id: u32|
                    (#[trigger] earlier.contains(id)) ==> id < n && point_key(
                        positions[id as int],
                        grid,
                        n as u32,
                    ) != key,
                forall|id: u32|
                    (#[trigger] found@.contains(id)) <==> earlier.contains(id) || (id < n
                        && start <= slot_of(values, id) < j && within(
                        center,
                        positions[id as int],
                        radius as int,
                    )),
            decreases n - j,
        {
            let id = self.value_particle_id[j];
            let ghost prior = found@;
            proof {
                assert(values[slot_of(values, id)] == id);
            }
            let close = center.distance_within(positions[id as usize], radius).is_some();
            if close {
                found.push(id);
                proof {
                    assert forall|a: int, b: int|
                        0 <= a < found@.len() && 0 <= b < found@.len() && a != b implies found@[a]
                        != found@[b] by {
                        if a == prior.len() {
                            assert(prior.contains(found@[b]));
                        } else if b == prior.len() {
                            assert(prior.contains(found@[a]));
                        }
                    }
                }
            }
            proof {
                assert forall|x: u32|
                    (#[trigger] found@.contains(x)) <==> prior.contains(x) || (x == id
                        && close) by {
                    if close {
                        if prior.contains(x) {
                            let k = choose|k: int| 0 <= k < prior.len() && prior[k] == x;
                            assert(found@[k] == x);
                        }
                        if x == id {
                            assert(found@[prior.len() as int] == x);
                        }
                    }
                }
            }
            j = j + 1;
        }
        proof {
            assert forall|id: u32|
                (#[trigger] found@.contains(id)) <==> earlier.contains(id) || (id < n && point_key(
                    positions[id as int],
                    grid,
                    n as u32,
                ) == key && within(center, positions[id as int], radius as int)) by {
                if id < n {
                    assert(values[slot_of(values, id)] == id);
                }
            }
        }
    }

    /// The particles around `center`: every particle that lies within `radius`
    /// of it and whose cell has the key of one of the 27 cells around the
    /// centre's cell, each exactly once. Where `radius` is no larger than the
    /// cell size these are all particles within `radius`.
    pub fn neighbours(
        &self,
        positions: &Vec<Vector3>,
        grid: i64,
        center: Vector3,
        radius: i64,
    ) -> (found: Vec<u32>)
        requires
            self.indexes(positions@, grid),
        ensures
            found@.no_duplicates(),
            forall|id: u32|
                (#[trigger] found@.contains(id)) <==> is_neighbour(
                    positions@,
                    grid,
                    center,
                    radius,
                    id,
                ),
            radius <= grid ==> forall|id: u32|
                (#[trigger] found@.contains(id)) <==> id < positions.len() && within(
                    center,
                    positions[id as int],
                    radius as int,
                ),
    {
        let n = positions.len();
        let table = n as u32;
        let c = cell_of(center, grid);
        let mut seen: Vec<u32> = Vec::new();
        let mut found: Vec<u32> = Vec::new();
        let mut t: u32 = 0;
        while t < BLOCK_CELLS
            invariant
                t <= BLOCK_CELLS,
                n == positions.len(),
                table == n,
                c == cell_at(center, grid),
                self.indexes(positions@, grid),
                found@.no_duplicates(),
                forall|key: u32|
                    (#[trigger] seen@.contains(key)) <==> block_prefix_has_key(
                        c,
                        t as int,
                        key,
                        table,
                    ),
                forall|id: u32|
                    (#[trigger] found@.contains(id)) <==> id < n && within(
                        center,
                        positions[id as int],
                        radius as int,
                    ) && seen@.contains(point_key(positions[id as int], grid, table)),
            decreases BLOCK_CELLS - t,
        {
            let key = key_of_cell(neighbour_cell(c, t), table);
            let ghost seen_before = seen@;
            let known = holds_key(&seen, key);
            if !known {
                seen.push(key);
                self.scan_run(positions, grid, center, radius, key, &mut found);
            }
            proof {
                assert forall|k: u32|
                    (#[trigger] seen@.contains(k)) <==> seen_before.contains(k) || k == key by {
                    if !known {
                        if seen_before.contains(k) {
                            let i = seen_before.index_of(k);
                            assert(seen@[i] == k);
                        }
                        if k == key {
                            assert(seen@[seen_before.len() as int] == k);
                        }
                    }
                }
                assert forall|k: u32|
                    (#[trigger] seen@.contains(k)) <==> block_prefix_has_key(
                        c,
                        t + 1,
                        k,
                        table,
                    ) by {
                    if block_prefix_has_key(c, t + 1, k, table) {
                        let w = choose|w: int|
                            0 <= w < t + 1 && #[trigger] cell_key(block_cell(c, w), table) == k;
                    }
                }
            }
            t = t + 1;
        }
        proof {
            if radius <= grid {
                assert forall|id: u32|
                    (#[trigger] found@.contains(id)) <==> id < n && within(
                        center,
                        positions[id as int],
                        radius as int,
                    ) by {
                    if id < n && within(center, positions[id as int], radius as int) {
                        lemma_block_covers_radius(
                            center,
                            positions[id as int],
                            radius as int,
                            grid,
                            table,
                        );
                    }
                }
            }
        }
        found
    }
}

} // verus!
