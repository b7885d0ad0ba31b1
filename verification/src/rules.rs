//! The mathematical model of the automaton: toroidal neighbour addressing,
//! Conway's transition rule, and the whole-grid step, together with proved
//! laws about them.

use vstd::prelude::*;
use vstd::arithmetic::div_mod::lemma_fundamental_div_mod_converse;

verus! {

/// One step backward along an axis of length `n`, wrapping from `0` to
/// `n - 1`. For `0 <= i < n` this equals `(i + n - 1) % n`.
pub open spec fn wrap_dec(i: int, n: int) -> int {
    if i == 0 {
        n - 1
    } else {
        i - 1
    }
}

/// One step forward along an axis of length `n`, wrapping from `n - 1` to
/// `0`. For `0 <= i < n` this equals `(i + 1) % n`.
pub open spec fn wrap_inc(i: int, n: int) -> int {
    if i + 1 == n {
        0
    } else {
        i + 1
    }
}

/// Row-major bit index of the cell in column `x`, row `y`.
pub open spec fn cell_index(x: int, y: int, width: int) -> int {
    x + y * width
}

pub open spec fn count_bit(b: bool) -> int {
    if b {
        1
    } else {
        0
    }
}

/// The number of live cells among the eight toroidal neighbours of `(x, y)`.
pub open spec fn live_neighbours(cells: Seq<bool>, width: int, height: int, x: int, y: int) -> int
    recommends
        width >= 1,
        height >= 1,
        0 <= x < width,
        0 <= y < height,
        cells.len() == width * height,
{
    let xl = wrap_dec(x, width);
    let xr = wrap_inc(x, width);
    let yu = wrap_dec(y, height);
    let yd = wrap_inc(y, height);
    count_bit(cells[cell_index(xl, yu, width)]) + count_bit(cells[cell_index(x, yu, width)])
        + count_bit(cells[cell_index(xr, yu, width)]) + count_bit(cells[cell_index(xl, y, width)])
        + count_bit(cells[cell_index(xr, y, width)]) + count_bit(cells[cell_index(xl, yd, width)])
        + count_bit(cells[cell_index(x, yd, width)]) + count_bit(
        cells[cell_index(xr, yd, width)],
    )
}

/// Conway's rule for one cell: a live cell survives with two or three live
/// neighbours and otherwise dies; a dead cell becomes live with exactly
/// three live neighbours and otherwise stays dead.
pub open spec fn next_cell(alive: bool, neighbours: int) -> bool {
    if alive {
        neighbours == 2 || neighbours == 3
    } else {
        neighbours == 3
    }
}

/// The next generation of a whole grid, every cell updated simultaneously
/// from the same snapshot.
pub open spec fn step_cells(cells: Seq<bool>, width: int, height: int) -> Seq<bool>
    recommends
        width >= 0,
        height >= 0,
        cells.len() == width * height,
{
    Seq::new(
        (width * height) as nat,
        |i: int| next_cell(cells[i], live_neighbours(cells, width, height, i % width, i / width)),
    )
}

/// `n` generations of a whole grid.
pub open spec fn step_cells_n(cells: Seq<bool>, width: int, height: int, n: nat) -> Seq<bool>
    decreases n,
{
    if n == 0 {
        cells
    } else {
        step_cells(step_cells_n(cells, width, height, (n - 1) as nat), width, height)
    }
}

/// Every cell of the grid is dead.
pub open spec fn all_dead(cells: Seq<bool>) -> bool {
    forall|i: int| 0 <= i < cells.len() ==> !cells[i]
}

/// Wrapped coordinates stay on the axis.
pub proof fn lemma_wrap_range(i: int, n: int)
    requires
        0 <= i < n,
    ensures
        0 <= wrap_dec(i, n) < n,
        0 <= wrap_inc(i, n) < n,
{
}

/// A cell's row-major index is in range, and decodes back to its column and
/// row.
pub proof fn lemma_grid_lookup(x: int, y: int, width: int, height: int)
    requires
        width >= 1,
        height >= 1,
        0 <= x < width,
        0 <= y < height,
    ensures
        0 <= cell_index(x, y, width) < width * height,
        cell_index(x, y, width) % width == x,
        cell_index(x, y, width) / width == y,
{
    assert(0 <= x + y * width < width * height) by (nonlinear_arith)
        requires
            0 <= x < width,
            0 <= y < height,
    ;
    lemma_fundamental_div_mod_converse(x + y * width, width, y, x);
}

/// A dead cell on an all-dead grid has no live neighbours.
pub proof fn lemma_all_dead_count(cells: Seq<bool>, width: int, height: int, x: int, y: int)
    requires
        width >= 1,
        height >= 1,
        0 <= x < width,
        0 <= y < height,
        cells.len() == width * height,
        all_dead(cells),
    ensures
        live_neighbours(cells, width, height, x, y) == 0,
{
    lemma_wrap_range(x, width);
    lemma_wrap_range(y, height);
    let xl = wrap_dec(x, width);
    let xr = wrap_inc(x, width);
    let yu = wrap_dec(y, height);
    let yd = wrap_inc(y, height);
    lemma_grid_lookup(xl, yu, width, height);
    lemma_grid_lookup(x, yu, width, height);
    lemma_grid_lookup(xr, yu, width, height);
    lemma_grid_lookup(xl, y, width, height);
    lemma_grid_lookup(xr, y, width, height);
    lemma_grid_lookup(xl, yd, width, height);
    lemma_grid_lookup(x, yd, width, height);
    lemma_grid_lookup(xr, yd, width, height);
}

/// A grid with every cell dead is still all dead after one step: no cell
/// has the three live neighbours that reproduction asks for.
pub proof fn lemma_dead_grid_stays_dead(cells: Seq<bool>, width: int, height: int)
    requires
        width >= 0,
        height >= 0,
        cells.len() == width * height,
        all_dead(cells),
    ensures
        all_dead(step_cells(cells, width, height)),
{
    let next = step_cells(cells, width, height);
    assert forall|i: int| 0 <= i < next.len() implies !next[i] by {
        assert(width >= 1 && height >= 1) by (nonlinear_arith)
            requires
                width >= 0,
                height >= 0,
                0 <= i < width * height,
        ;
        let x = i % width;
        let y = i / width;
        vstd::arithmetic::div_mod::lemma_mod_bound(i, width);
        vstd::arithmetic::div_mod::lemma_div_pos_is_pos(i, width);
        vstd::arithmetic::div_mod::lemma_fundamental_div_mod(i, width);
        assert(y < height) by (nonlinear_arith)
            requires
                i == width * y + x,
                0 <= x < width,
                0 <= y,
                i < width * height,
        ;
        lemma_all_dead_count(cells, width, height, x, y);
    }
}

/// A grid with every cell dead stays all dead through any number of steps.
pub proof fn lemma_dead_grid_stays_dead_n(cells: Seq<bool>, width: int, height: int, n: nat)
    requires
        width >= 0,
        height >= 0,
        cells.len() == width * height,
        all_dead(cells),
    ensures
        all_dead(step_cells_n(cells, width, height, n)),
        step_cells_n(cells, width, height, n).len() == width * height,
    decreases n,
{
    if n > 0 {
        lemma_dead_grid_stays_dead_n(cells, width, height, (n - 1) as nat);
        lemma_dead_grid_stays_dead(step_cells_n(cells, width, height, (n - 1) as nat), width, height);
    }
}

/// Membership in the two-by-two block anchored at `(x0, y0)`, whose right
/// column and lower row wrap around the axes.
pub open spec fn is_block_cell(x: int, y: int, x0: int, y0: int, width: int, height: int) -> bool {
    (x == x0 || x == wrap_inc(x0, width)) && (y == y0 || y == wrap_inc(y0, height))
}

/// A grid that holds exactly a two-by-two block anchored at `(x0, y0)` and
/// is otherwise dead.
pub open spec fn block_grid(width: int, height: int, x0: int, y0: int) -> Seq<bool> {
    Seq::new(
        (width * height) as nat,
        |i: int| is_block_cell(i % width, i / width, x0, y0, width, height),
    )
}

/// One cell of a block grid obeys the rule without changing: a block cell
/// has exactly three live neighbours, and no other cell has three.
proof fn lemma_block_cell_step(width: int, height: int, x0: int, y0: int, x: int, y: int)
    requires
        width >= 4,
        height >= 4,
        0 <= x0 < width,
        0 <= y0 < height,
        0 <= x < width,
        0 <= y < height,
    ensures
        next_cell(
            is_block_cell(x, y, x0, y0, width, height),
            live_neighbours(block_grid(width, height, x0, y0), width, height, x, y),
        ) == is_block_cell(x, y, x0, y0, width, height),
{
    let g = block_grid(width, height, x0, y0);
    lemma_wrap_range(x, width);
    lemma_wrap_range(y, height);
    let xl = wrap_dec(x, width);
    let xr = wrap_inc(x, width);
    let yu = wrap_dec(y, height);
    let yd = wrap_inc(y, height);
    lemma_grid_lookup(xl, yu, width, height);
    lemma_grid_lookup(x, yu, width, height);
    lemma_grid_lookup(xr, yu, width, height);
    lemma_grid_lookup(xl, y, width, height);
    lemma_grid_lookup(xr, y, width, height);
    lemma_grid_lookup(xl, yd, width, height);
    lemma_grid_lookup(x, yd, width, height);
    lemma_grid_lookup(xr, yd, width, height);
}

/// Block stability: a two-by-two live block on an otherwise dead toroidal
/// grid of width and height at least four is unchanged by a step.
pub proof fn lemma_block_is_still(width: int, height: int, x0: int, y0: int)
    requires
        width >= 4,
        height >= 4,
        0 <= x0 < width,
        0 <= y0 < height,
    ensures
        step_cells(block_grid(width, height, x0, y0), width, height) == block_grid(
            width,
            height,
            x0,
            y0,
        ),
{
    let g = block_grid(width, height, x0, y0);
    let s = step_cells(g, width, height);
    assert forall|i: int| 0 <= i < s.len() implies s[i] == g[i] by {
        let x = i % width;
        let y = i / width;
        vstd::arithmetic::div_mod::lemma_mod_bound(i, width);
        vstd::arithmetic::div_mod::lemma_div_pos_is_pos(i, width);
        vstd::arithmetic::div_mod::lemma_fundamental_div_mod(i, width);
        assert(y < height) by (nonlinear_arith)
            requires
                i == width * y + x,
                0 <= x < width,
                0 <= y,
                i < width * height,
        ;
        lemma_block_cell_step(width, height, x0, y0, x, y);
    }
    assert(s =~= g);
}

/// Toroidal wraparound: on an `n x n` grid whose far corner `(n-1, n-1)` is
/// live, the cell at the origin counts at least one live neighbour — the
/// far corner is its diagonal neighbour across both edges.
pub proof fn lemma_corner_wraps(cells: Seq<bool>, n: int)
    requires
        n >= 2,
        cells.len() == n * n,
        cells[cell_index(n - 1, n - 1, n)],
    ensures
        live_neighbours(cells, n, n, 0, 0) >= 1,
{
    assert(wrap_dec(0, n) == n - 1);
}

} // verus!
