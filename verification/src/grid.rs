//! The mathematical grid that every contract in this crate speaks of.

use vstd::prelude::*;

verus! {

/// A rectangular grid of cells on a torus.
#[verifier::ext_equal]
pub struct Grid {
    /// The number of columns.
    pub width: int,
    /// The number of rows.
    pub height: int,
    /// For each cell whether it is alive, row by row.
    pub cells: Seq<bool>,
}

/// The eight directions of the Moore neighbourhood, as `(dx, dy)`.
pub open spec fn moore_offsets() -> Seq<(int, int)> {
    seq![
        (-1int, -1int),
        (-1int, 0int),
        (-1int, 1int),
        (0int, -1int),
        (0int, 1int),
        (1int, -1int),
        (1int, 0int),
        (1int, 1int),
    ]
}

impl Grid {
    /// Both sides are between 1 and 65535 and there is one cell per position.
    pub open spec fn wf(self) -> bool {
        &&& 1 <= self.width <= 65535
        &&& 1 <= self.height <= 65535
        &&& self.cells.len() == self.width * self.height
    }

    /// Whether `(x, y)` is a cell of the grid.
    pub open spec fn in_bounds(self, x: int, y: int) -> bool {
        0 <= x < self.width && 0 <= y < self.height
    }

    /// Row-major position of `(x, y)` in `cells`.
    pub open spec fn index(self, x: int, y: int) -> int {
        y * self.width + x
    }

    /// Whether the cell at `(x, y)` is alive.
    pub open spec fn alive(self, x: int, y: int) -> bool {
        self.cells[self.index(x, y)]
    }

    /// The grid of the given size in which every cell is dead.
    pub open spec fn dead(width: int, height: int) -> Grid {
        Grid { width, height, cells: Seq::new((width * height) as nat, |i: int| false) }
    }

    /// The column to the left of `x`; the last one for the first.
    pub open spec fn left(self, x: int) -> int {
        if x == 0 {
            self.width - 1
        } else {
            x - 1
        }
    }

    /// The column to the right of `x`; the first one for the last.
    pub open spec fn right(self, x: int) -> int {
        if x + 1 == self.width {
            0
        } else {
            x + 1
        }
    }

    /// The row above `y`; the last one for the first.
    pub open spec fn up(self, y: int) -> int {
        if y == 0 {
            self.height - 1
        } else {
            y - 1
        }
    }

    /// The row below `y`; the first one for the last.
    pub open spec fn down(self, y: int) -> int {
        if y + 1 == self.height {
            0
        } else {
            y + 1
        }
    }

    /// The grid with the cell at `(x, y)` flipped.
    pub open spec fn toggle(self, x: int, y: int) -> Grid {
        Grid {
            width: self.width,
            height: self.height,
            cells: self.cells.update(self.index(x, y), !self.alive(x, y)),
        }
    }

    /// The grid of the same size with every cell dead.
    pub open spec fn reset(self) -> Grid {
        Grid::dead(self.width, self.height)
    }

    /// One step from column `x` in direction `dx`, wrapped.
    pub open spec fn shift_x(self, x: int, dx: int) -> int {
        if dx < 0 {
            self.left(x)
        } else if dx > 0 {
            self.right(x)
        } else {
            x
        }
    }

    /// One step from row `y` in direction `dy`, wrapped.
    pub open spec fn shift_y(self, y: int, dy: int) -> int {
        if dy < 0 {
            self.up(y)
        } else if dy > 0 {
            self.down(y)
        } else {
            y
        }
    }

    /// Whether the neighbour of `(x, y)` in direction `moore_offsets()[k]` is alive.
    pub open spec fn neighbor_alive(self, x: int, y: int, k: int) -> bool {
        let (dx, dy) = moore_offsets()[k];
        self.alive(self.shift_x(x, dx), self.shift_y(y, dy))
    }

    /// How many of the first `n` directions lead from `(x, y)` to a live cell.
    pub open spec fn live_among(self, x: int, y: int, n: nat) -> nat
        decreases n,
    {
        if n == 0 {
            0
        } else {
            let rest = self.live_among(x, y, (n - 1) as nat);
            if self.neighbor_alive(x, y, n - 1) {
                rest + 1
            } else {
                rest
            }
        }
    }

    /// Live cells around `(x, y)`: each of the eight directions counted once.
    pub open spec fn live_neighbors(self, x: int, y: int) -> nat {
        self.live_among(x, y, 8)
    }

    /// The state of `(x, y)` in the next generation: alive with more than
    /// two live neighbours, dead if alive with fewer than two, and else as
    /// it is.
    pub open spec fn next_alive(self, x: int, y: int) -> bool {
        let n = self.live_neighbors(x, y);
        if n > 2 {
            true
        } else if self.alive(x, y) && n < 2 {
            false
        } else {
            self.alive(x, y)
        }
    }

    /// The grid `n` generations from this one.
    pub open spec fn generations(self, n: nat) -> Grid
        decreases n,
    {
        if n == 0 {
            self
        } else {
            self.generations((n - 1) as nat).step()
        }
    }

    /// The next generation: every cell decided from this grid alone.
    pub open spec fn step(self) -> Grid {
        Grid {
            width: self.width,
            height: self.height,
            cells: Seq::new(
                self.cells.len(),
                |i: int| self.next_alive(i % self.width, i / self.width),
            ),
        }
    }
}

/// A position `i` of a row-major buffer lies in column `i % width` of row
/// `i / width`, and both are on the grid.
pub proof fn lemma_position_splits(i: int, width: int, height: int)
    requires
        width >= 1,
        0 <= i < width * height,
    ensures
        0 <= i % width < width,
        0 <= i / width < height,
        (i / width) * width + i % width == i,
{
    vstd::arithmetic::div_mod::lemma_fundamental_div_mod(i, width);
    vstd::arithmetic::div_mod::lemma_mod_bound(i, width);
    vstd::arithmetic::div_mod::lemma_div_pos_is_pos(i, width);
    vstd::arithmetic::div_mod::lemma_multiply_divide_lt(i, width, height);
    vstd::arithmetic::mul::lemma_mul_is_commutative(width, i / width);
}

/// After a reset no cell of the grid is alive, and the size is what it was.
pub proof fn lemma_reset_leaves_no_live_cell(g: Grid)
    requires
        g.wf(),
    ensures
        g.reset().wf(),
        g.reset().width == g.width,
        g.reset().height == g.height,
        forall|x: int, y: int| g.reset().in_bounds(x, y) ==> !g.reset().alive(x, y),
{
    let r = g.reset();
    assert forall|x: int, y: int| r.in_bounds(x, y) implies !r.alive(x, y) by {
        lemma_index_in_range(r.width, r.height, x, y);
    }
}

/// The row-major position of a cell on the grid is a position of the buffer.
pub proof fn lemma_index_in_range(width: int, height: int, x: int, y: int)
    requires
        0 <= x < width,
        0 <= y < height,
    ensures
        0 <= y * width + x < width * height,
{
    assert(0 <= y * width && y * width + x < width * height) by (nonlinear_arith)
        requires
            0 <= x < width,
            0 <= y < height,
    ;
}

/// Left and right are inverses of each other on the columns of the grid.
pub proof fn lemma_left_right_inverse(g: Grid, x: int)
    requires
        g.wf(),
        0 <= x < g.width,
    ensures
        0 <= g.left(x) < g.width,
        0 <= g.right(x) < g.width,
        g.right(g.left(x)) == x,
        g.left(g.right(x)) == x,
{
}

/// Up and down are inverses of each other on the rows of the grid.
pub proof fn lemma_up_down_inverse(g: Grid, y: int)
    requires
        g.wf(),
        0 <= y < g.height,
    ensures
        0 <= g.up(y) < g.height,
        0 <= g.down(y) < g.height,
        g.down(g.up(y)) == y,
        g.up(g.down(y)) == y,
{
}

/// Two cells of the grid share a buffer position only if they are the same cell.
pub proof fn lemma_index_is_injective(g: Grid, x1: int, y1: int, x2: int, y2: int)
    requires
        g.wf(),
        g.in_bounds(x1, y1),
        g.in_bounds(x2, y2),
        g.index(x1, y1) == g.index(x2, y2),
    ensures
        x1 == x2,
        y1 == y2,
{
    assert(y1 == y2) by (nonlinear_arith)
        requires
            0 <= x1 < g.width,
            0 <= x2 < g.width,
            y1 * g.width + x1 == y2 * g.width + x2,
    ;
}

/// Toggling a cell flips that cell and no other, and toggling it twice gives
/// back the grid as it was.
pub proof fn lemma_toggle_twice(g: Grid, x: int, y: int)
    requires
        g.wf(),
        g.in_bounds(x, y),
    ensures
        g.toggle(x, y).wf(),
        g.toggle(x, y).alive(x, y) == !g.alive(x, y),
        forall|u: int, v: int|
            g.in_bounds(u, v) && (u != x || v != y) ==> g.toggle(x, y).alive(u, v) == g.alive(u, v),
        g.toggle(x, y).toggle(x, y) == g,
{
    lemma_index_in_range(g.width, g.height, x, y);
    let t = g.toggle(x, y);
    assert forall|u: int, v: int| g.in_bounds(u, v) && (u != x || v != y) implies t.alive(u, v)
        == g.alive(u, v) by {
        lemma_index_in_range(g.width, g.height, u, v);
        if g.index(u, v) == g.index(x, y) {
            lemma_index_is_injective(g, u, v, x, y);
        }
    }
    assert(t.toggle(x, y).cells =~= g.cells);
}

/// The next generation is decided by the size of the grid and the state of
/// its cells and by nothing else: grids that agree on these have the same
/// next generation.
pub proof fn lemma_step_is_deterministic(a: Grid, b: Grid)
    requires
        a.wf(),
        b.wf(),
        a.width == b.width,
        a.height == b.height,
        forall|x: int, y: int| a.in_bounds(x, y) ==> a.alive(x, y) == b.alive(x, y),
    ensures
        a == b,
        a.step() == b.step(),
{
    assert forall|i: int| 0 <= i < a.cells.len() implies a.cells[i] == b.cells[i] by {
        lemma_position_splits(i, a.width, a.height);
        assert(a.alive(i % a.width, i / a.width) == b.alive(i % a.width, i / a.width));
    }
    assert(a.cells =~= b.cells);
}

/// The next generation has the size of this one, and each of its cells is
/// decided by the rule from the cell and its eight neighbours in this one.
pub proof fn lemma_step_cells(g: Grid)
    requires
        g.wf(),
    ensures
        g.step().wf(),
        g.step().width == g.width,
        g.step().height == g.height,
        forall|x: int, y: int| g.in_bounds(x, y) ==> g.step().alive(x, y) == g.next_alive(x, y),
{
    let s = g.step();
    assert forall|x: int, y: int| g.in_bounds(x, y) implies s.alive(x, y) == g.next_alive(x, y) by {
        lemma_index_in_range(g.width, g.height, x, y);
        let i = g.index(x, y);
        vstd::arithmetic::div_mod::lemma_fundamental_div_mod_converse(i, g.width, y, x);
    }
}

/// The directions that are counted are the eight cells around the origin of
/// the square from -1 to 1, each of them once and the origin itself never.
pub proof fn lemma_moore_offsets_canonical()
    ensures
        moore_offsets().len() == 8,
        moore_offsets().no_duplicates(),
        forall|dx: int, dy: int|
            moore_offsets().contains((dx, dy)) <==> (-1 <= dx <= 1 && -1 <= dy <= 1 && !(dx == 0
                && dy == 0)),
{
    let m = moore_offsets();
    assert forall|dx: int, dy: int|
        (-1 <= dx <= 1 && -1 <= dy <= 1 && !(dx == 0 && dy == 0)) implies m.contains((dx, dy)) by {
        let k: int = if dx == -1 {
            dy + 1
        } else if dx == 0 {
            if dy == -1 {
                3
            } else {
                4
            }
        } else {
            dy + 6
        };
        assert(m[k] == (dx, dy));
    }
}

/// The number of live neighbours of a cell is the sum over the eight
/// directions, each taken once, of one for a live cell and nothing for a dead one.
pub proof fn lemma_live_neighbors_by_direction(g: Grid, x: int, y: int)
    ensures
        g.live_neighbors(x, y) == one_if(g.alive(g.left(x), g.up(y))) + one_if(
            g.alive(g.left(x), y),
        ) + one_if(g.alive(g.left(x), g.down(y))) + one_if(g.alive(x, g.up(y))) + one_if(
            g.alive(x, g.down(y)),
        ) + one_if(g.alive(g.right(x), g.up(y))) + one_if(g.alive(g.right(x), y)) + one_if(
            g.alive(g.right(x), g.down(y)),
        ),
        g.live_neighbors(x, y) <= 8,
{
    reveal_with_fuel(Grid::live_among, 9);
}

/// 1 for `true`, 0 for `false`.
pub open spec fn one_if(b: bool) -> nat {
    if b {
        1
    } else {
        0
    }
}

} // verus!
