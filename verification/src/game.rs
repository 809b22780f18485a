//! The grid engine: the cell buffer and the operations on it.

use vstd::prelude::*;
use crate::grid::{lemma_position_splits, lemma_reset_leaves_no_live_cell, moore_offsets, Grid};

verus! {

/// A cell in the grid.
#[derive(Copy, Clone, PartialEq, Eq, Debug, Hash, Structural)]
pub struct Cell {
    pub alive: bool,
}

/// The game state: a grid of fixed size, at least one cell wide and high.
pub struct Game {
    /// Width of the grid.
    width: u16,
    /// Height of the grid.
    height: u16,
    /// The cells, row by row.
    grid: Vec<Cell>,
}

impl View for Game {
    type V = Grid;

    closed spec fn view(&self) -> Grid {
        Grid {
            width: self.width as int,
            height: self.height as int,
            cells: self.grid@.map_values(|c: Cell| c.alive),
        }
    }
}

impl Game {
    /// Both sides are at least 1 and the buffer holds one cell per position.
    #[verifier::type_invariant]
    spec fn inv(self) -> bool {
        &&& self.width >= 1
        &&& self.height >= 1
        &&& self.grid@.len() == self.width * self.height
    }

    /// A grid of `w` columns and `h` rows with every cell dead.
    pub fn new(w: u16, h: u16) -> (game: Game)
        requires
            w >= 1,
            h >= 1,
        ensures
            game@ == Grid::dead(w as int, h as int),
            game@.wf(),
    {
        assert(w * h <= 65535 * 65535) by (nonlinear_arith)
            requires
                w <= 65535,
                h <= 65535,
        ;
        let n: usize = w as usize * h as usize;
        let grid = vec![Cell { alive: false }; n];
        let game = Game { width: w, height: h, grid };
        assert(game@.cells =~= Grid::dead(w as int, h as int).cells);
        game
    }

    /// The number of columns.
    pub fn width(&self) -> (w: u16)
        ensures
            w == self@.width,
            self@.wf(),
    {
        proof {
            use_type_invariant(self);
        }
        self.width
    }

    /// The number of rows.
    pub fn height(&self) -> (h: u16)
        ensures
            h == self@.height,
            self@.wf(),
    {
        proof {
            use_type_invariant(self);
        }
        self.height
    }

    /// Get the grid position of a given coordinate.
    fn pos(&self, x: u16, y: u16) -> (p: usize)
        requires
            self@.in_bounds(x as int, y as int),
        ensures
            p == self@.index(x as int, y as int),
            p < self.grid@.len(),
    {
        proof {
            use_type_invariant(self);
            assert(0 <= y * self.width && y * self.width + x < self.width * self.height
                && self.width * self.height <= 65535 * 65535) by (nonlinear_arith)
                requires
                    0 <= x < self.width <= 65535,
                    0 <= y < self.height <= 65535,
            ;
        }
        y as usize * self.width as usize + x as usize
    }

    /// Get the cell at (x, y).
    pub fn get(&self, x: u16, y: u16) -> (cell: Cell)
        requires
            self@.in_bounds(x as int, y as int),
        ensures
            cell.alive == self@.alive(x as int, y as int),
    {
        let pos = self.pos(x, y);
        self.grid[pos]
    }

    /// Flip the cell at (x, y).
    pub fn toggle(&mut self, x: u16, y: u16)
        requires
            old(self)@.in_bounds(x as int, y as int),
        ensures
            final(self)@ == old(self)@.toggle(x as int, y as int),
            final(self)@.wf(),
    {
        proof {
            use_type_invariant(&*self);
        }
        let pos = self.pos(x, y);
        let is_alive = self.grid[pos].alive;
        self.grid[pos].alive = !is_alive;
        assert(self@.cells =~= old(self)@.toggle(x as int, y as int).cells);
    }

    /// Set every cell to dead.
    pub fn reset(&mut self)
        ensures
            final(self)@ == old(self)@.reset(),
            final(self)@.wf(),
            forall|x: int, y: int| final(self)@.in_bounds(x, y) ==> !final(self)@.alive(x, y),
    {
        proof {
            use_type_invariant(&*self);
        }
        let n = self.grid.len();
        let mut i: usize = 0;
        while i < n
            invariant
                i <= n,
                n == self.grid@.len(),
                self.width == old(self).width,
                self.height == old(self).height,
                n == self.width * self.height,
                self.width >= 1,
                self.height >= 1,
                forall|j: int| 0 <= j < i ==> !(#[trigger] self.grid@[j]).alive,
            decreases n - i,
        {
            self.grid[i] = Cell { alive: false };
            i += 1;
        }
        assert(self@.cells =~= old(self)@.reset().cells);
        proof {
            lemma_reset_leaves_no_live_cell(old(self)@);
        }
    }

    /// Calculate the y coordinate of the cell "above" a given y coordinate.
    ///
    /// This wraps when _y = 0_.
    pub fn up(&self, y: u16) -> (r: u16)
        ensures
            r == self@.up(y as int),
            y < self@.height ==> r < self@.height,
    {
        proof {
            use_type_invariant(self);
        }
        if y == 0 {
            self.height - 1
        } else {
            y - 1
        }
    }

    /// Calculate the y coordinate of the cell "below" a given y coordinate.
    ///
    /// This wraps when _y = h - 1_.
    pub fn down(&self, y: u16) -> (r: u16)
        requires
            y < u16::MAX,
        ensures
            r == self@.down(y as int),
            y < self@.height ==> r < self@.height,
    {
        if y + 1 == self.height {
            0
        } else {
            y + 1
        }
    }

    /// Calculate the x coordinate of the cell "left to" a given x coordinate.
    ///
    /// This wraps when _x = 0_.
    pub fn left(&self, x: u16) -> (r: u16)
        ensures
            r == self@.left(x as int),
            x < self@.width ==> r < self@.width,
    {
        proof {
            use_type_invariant(self);
        }
        if x == 0 {
            self.width - 1
        } else {
            x - 1
        }
    }

    /// Calculate the x coordinate of the cell "right to" a given x coordinate.
    ///
    /// This wraps when _x = w - 1_.
    pub fn right(&self, x: u16) -> (r: u16)
        requires
            x < u16::MAX,
        ensures
            r == self@.right(x as int),
            x < self@.width ==> r < self@.width,
    {
        if x + 1 == self.width {
            0
        } else {
            x + 1
        }
    }

    /// Advance the grid by one generation.
    pub fn step(&mut self)
        ensures
            final(self)@ == old(self)@.step(),
            final(self)@.wf(),
    {
        proof {
            use_type_invariant(&*self);
        }
        self.grid = self.int_step();
        assert(self@.cells =~= old(self)@.step().cells);
    }

    /// Buffer position of the cell one step from (x, y) in direction (dx, dy),
    /// each axis wrapped on its own.
    fn wrap_coord(&self, x: u16, y: u16, dx: i8, dy: i8) -> (p: usize)
        requires
            self@.in_bounds(x as int, y as int),
            -1 <= dx <= 1,
            -1 <= dy <= 1,
        ensures
            p == self@.index(
                self@.shift_x(x as int, dx as int),
                self@.shift_y(y as int, dy as int),
            ),
            p < self.grid@.len(),
    {
        let nx = if dx < 0 {
            self.left(x)
        } else if dx > 0 {
            self.right(x)
        } else {
            x
        };
        let ny = if dy < 0 {
            self.up(y)
        } else if dy > 0 {
            self.down(y)
        } else {
            y
        };
        self.pos(nx, ny)
    }

    /// Count the live cells among the eight neighbours of (x, y).
    pub fn live_neighbors(&self, x: u16, y: u16) -> (n: u8)
        requires
            self@.in_bounds(x as int, y as int),
        ensures
            n == self@.live_neighbors(x as int, y as int),
            n <= 8,
    {
        let mut n: u8 = 0;
        let mut k: usize = 0;
        while k < 8
            invariant
                k <= 8,
                self@.in_bounds(x as int, y as int),
                n == self@.live_among(x as int, y as int, k as nat),
                n <= k,
            decreases 8 - k,
        {
            let (dx, dy) = moore_offset(k);
            let p = self.wrap_coord(x, y, dx, dy);
            if self.grid[p].alive {
                n += 1;
            }
            k += 1;
        }
        n
    }

    /// Compute the cells of the next generation from the current ones.
    fn int_step(&self) -> (next: Vec<Cell>)
        ensures
            next@.len() == self.grid@.len(),
            next@.map_values(|c: Cell| c.alive) == self@.step().cells,
    {
        proof {
            use_type_invariant(self);
        }
        let n = self.grid.len();
        let w = self.width as usize;
        let mut next: Vec<Cell> = Vec::with_capacity(n);
        let mut i: usize = 0;
        while i < n
            invariant
                i <= n,
                n == self.grid@.len(),
                n == self.width * self.height,
                w == self.width,
                w >= 1,
                next@.len() == i,
                forall|j: int|
                    0 <= j < i ==> (#[trigger] next@[j]).alive == self@.next_alive(
                        j % (w as int),
                        j / (w as int),
                    ),
            decreases n - i,
        {
            proof {
                lemma_position_splits(i as int, self.width as int, self.height as int);
            }
            let x = (i % w) as u16;
            let y = (i / w) as u16;
            let is_alive = self.grid[i].alive;
            let count = self.live_neighbors(x, y);
            let mut alive = is_alive;
            if count > 2 {
                alive = true;
            }
            if is_alive && count < 2 {
                alive = false;
            }
            next.push(Cell { alive });
            i += 1;
        }
        assert(next@.map_values(|c: Cell| c.alive) =~= self@.step().cells);
        next
    }
}

/// The direction with number `k`, in the order of `moore_offsets`.
fn moore_offset(k: usize) -> (d: (i8, i8))
    requires
        k < 8,
    ensures
        (d.0 as int, d.1 as int) == moore_offsets()[k as int],
        -1 <= d.0 <= 1,
        -1 <= d.1 <= 1,
{
    if k == 0 {
        (-1, -1)
    } else if k == 1 {
        (-1, 0)
    } else if k == 2 {
        (-1, 1)
    } else if k == 3 {
        (0, -1)
    } else if k == 4 {
        (0, 1)
    } else if k == 5 {
        (1, -1)
    } else if k == 6 {
        (1, 0)
    } else {
        (1, 1)
    }
}

} // verus!
