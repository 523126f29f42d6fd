//! The uniform grid that particles are binned into, and the hash that turns a
//! cell into a key of the cell-start table.
use vstd::prelude::*;
use crate::fixed::floor_div;
use crate::vector::{within, Vector3};

verus! {

/// The entry of the cell-start table that marks a key no particle has.
pub const EMPTY_CELL: u32 = 0xffff_ffff;

/// The number of cells in the block around a cell, the cell itself included.
pub const BLOCK_CELLS: u32 = 27;

/// The multiplier that mixes a cell's first coordinate into its hash.
pub const PRIME_X: u32 = 73856093;

/// The multiplier that mixes a cell's second coordinate into its hash.
pub const PRIME_Y: u32 = 19349663;

/// The multiplier that mixes a cell's third coordinate into its hash.
pub const PRIME_Z: u32 = 83492791;

/// A cell of the grid, by its integer coordinates.
#[derive(Clone, Copy, Debug, PartialEq, Eq, Structural)]
pub struct Cell {
    pub x: i64,
    pub y: i64,
    pub z: i64,
}

/// The cell that holds the point `p` in a grid of cell size `grid`: each
/// coordinate over the cell size, rounded down.
pub open spec fn cell_at(p: Vector3, grid: i64) -> Cell {
    Cell {
        x: ((p.x as int) / (grid as int)) as i64,
        y: ((p.y as int) / (grid as int)) as i64,
        z: ((p.z as int) / (grid as int)) as i64,
    }
}

/// The hash of a cell: each coordinate, wrapped to 32 bits, times its prime,
/// the three products combined by exclusive or.
pub open spec fn cell_hash(c: Cell) -> u32 {
    (c.x as u32).wrapping_mul(PRIME_X) ^ (c.y as u32).wrapping_mul(PRIME_Y)
        ^ (c.z as u32).wrapping_mul(PRIME_Z)
}

/// The key of a cell in a table of `table` entries.
pub open spec fn cell_key(c: Cell, table: u32) -> u32 {
    cell_hash(c) % table
}

/// The key of the cell that holds `p`.
pub open spec fn point_key(p: Vector3, grid: i64, table: u32) -> u32 {
    cell_key(cell_at(p, grid), table)
}

/// The `t`-th cell of the block around `c`; coordinates wrap at the ends of `i64`.
pub open spec fn block_cell(c: Cell, t: int) -> Cell {
    Cell {
        x: c.x.wrapping_add((t % 3 - 1) as i64),
        y: c.y.wrapping_add(((t / 3) % 3 - 1) as i64),
        z: c.z.wrapping_add((t / 9 - 1) as i64),
    }
}

/// Whether `key` is the key of one of the 27 cells of the block around `c`.
pub open spec fn block_has_key(c: Cell, key: u32, table: u32) -> bool {
    exists|t: int| 0 <= t < 27 && #[trigger] cell_key(block_cell(c, t), table) == key
}

/// Two coordinates no further apart than a cell is wide lie in the same cell or
/// in cells next to each other.
pub proof fn lemma_adjacent_axis(p: int, q: int, r: int, grid: int)
    requires
        0 <= r <= grid,
        grid > 0,
        -r <= q - p <= r,
    ensures
        -1 <= q / grid - p / grid <= 1,
{
    assert(-1 <= q / grid - p / grid <= 1) by (nonlinear_arith)
        requires
            grid > 0,
            -grid <= q - p <= grid,
    ;
}

/// A point within `r` of another differs from it by at most `r` on each axis.
pub proof fn lemma_within_axes(p: Vector3, q: Vector3, r: int)
    requires
        within(p, q, r),
    ensures
        -r <= q.x - p.x <= r,
        -r <= q.y - p.y <= r,
        -r <= q.z - p.z <= r,
{
    let dx = p.x - q.x;
    let dy = p.y - q.y;
    let dz = p.z - q.z;
    assert(-r <= dx <= r && -r <= dy <= r && -r <= dz <= r) by (nonlinear_arith)
        requires
            r >= 0,
            dx * dx + dy * dy + dz * dz <= r * r,
    ;
}

/// Where two points lie within a radius that is no larger than the cell size,
/// the cell of the second is one of the 27 cells of the block around the cell
/// of the first, so its key is a key of that block.
pub proof fn lemma_block_covers_radius(p: Vector3, q: Vector3, r: int, grid: i64, table: u32)
    requires
        within(p, q, r),
        r <= grid,
        grid > 0,
    ensures
        block_has_key(cell_at(p, grid), point_key(q, grid, table), table),
{
    lemma_within_axes(p, q, r);
    lemma_adjacent_axis(p.x as int, q.x as int, r, grid as int);
    lemma_adjacent_axis(p.y as int, q.y as int, r, grid as int);
    lemma_adjacent_axis(p.z as int, q.z as int, r, grid as int);
    lemma_cell_in_range(p.x as int, grid as int);
    lemma_cell_in_range(p.y as int, grid as int);
    lemma_cell_in_range(p.z as int, grid as int);
    lemma_cell_in_range(q.x as int, grid as int);
    lemma_cell_in_range(q.y as int, grid as int);
    lemma_cell_in_range(q.z as int, grid as int);
    let c = cell_at(p, grid);
    let d = cell_at(q, grid);
    let dx = d.x - c.x;
    let dy = d.y - c.y;
    let dz = d.z - c.z;
    let t = (dx + 1) + 3 * (dy + 1) + 9 * (dz + 1);
    assert(cell_key(block_cell(c, t), table) == point_key(q, grid, table));
}

/// A coordinate over a positive cell size is again an `i64`.
pub proof fn lemma_cell_in_range(p: int, grid: int)
    requires
        grid > 0,
        i64::MIN <= p <= i64::MAX,
    ensures
        i64::MIN <= p / grid <= i64::MAX,
{
    assert(i64::MIN <= p / grid <= i64::MAX) by (nonlinear_arith)
        requires
            grid > 0,
            i64::MIN <= p <= i64::MAX,
    ;
}

/// One coordinate over the cell size, rounded down.
fn axis_cell(p: i64, grid: i64) -> (c: i64)
    requires
        grid > 0,
    ensures
        c == (p as int) / (grid as int),
{
    let q: i128 = floor_div(p as i128, grid as i128);
    proof {
        lemma_cell_in_range(p as int, grid as int);
    }
    q as i64
}

/// Computes the cell that holds `p`.
pub fn cell_of(p: Vector3, grid: i64) -> (c: Cell)
    requires
        grid > 0,
    ensures
        c == cell_at(p, grid),
{
    Cell { x: axis_cell(p.x, grid), y: axis_cell(p.y, grid), z: axis_cell(p.z, grid) }
}

/// Computes the hash of a cell.
pub fn hash_cell(c: Cell) -> (h: u32)
    ensures
        h == cell_hash(c),
{
    let x: u32 = #[verifier::truncate] (c.x as u32);
    let y: u32 = #[verifier::truncate] (c.y as u32);
    let z: u32 = #[verifier::truncate] (c.z as u32);
    x.wrapping_mul(PRIME_X) ^ y.wrapping_mul(PRIME_Y) ^ z.wrapping_mul(PRIME_Z)
}

/// Computes the key of a cell in a table of `table` entries.
pub fn key_of_cell(c: Cell, table: u32) -> (k: u32)
    requires
        table > 0,
    ensures
        k == cell_key(c, table),
        k < table,
{
    hash_cell(c) % table
}

/// Computes the `t`-th cell of the block around `c`.
pub fn neighbour_cell(c: Cell, t: u32) -> (d: Cell)
    requires
        t < BLOCK_CELLS,
    ensures
        d == block_cell(c, t as int),
{
    let dx: i64 = (t % 3) as i64 - 1;
    let dy: i64 = ((t / 3) % 3) as i64 - 1;
    let dz: i64 = (t / 9) as i64 - 1;
    Cell { x: c.x.wrapping_add(dx), y: c.y.wrapping_add(dy), z: c.z.wrapping_add(dz) }
}

} // verus!
