//! The frames that show a game on a terminal, as bytes.

use vstd::prelude::*;
use crate::escape::{goto, goto_sequence};
use crate::game::Game;
use crate::grid::Grid;

verus! {

/// The characters that a frame is drawn with.
#[derive(Copy, Clone, PartialEq, Eq, Debug, Structural)]
pub enum Glyph {
    /// The upper and lower boundary char.
    Horizontal,
    /// The left and right boundary char.
    Vertical,
    /// The top-left corner
    TopLeft,
    /// The top-right corner
    TopRight,
    /// The bottom-left corner
    BottomLeft,
    /// The bottom-right corner
    BottomRight,
    /// A live cell.
    Alive,
    /// A dead cell.
    Dead,
}

impl Glyph {
    /// The UTF-8 encoding of the glyph: box-drawing and block characters,
    /// three bytes each.
    pub open spec fn bytes(self) -> Seq<u8> {
        match self {
            Glyph::Horizontal => seq![0xE2u8, 0x94u8, 0x80u8],
            Glyph::Vertical => seq![0xE2u8, 0x94u8, 0x82u8],
            Glyph::TopLeft => seq![0xE2u8, 0x94u8, 0x8Cu8],
            Glyph::TopRight => seq![0xE2u8, 0x94u8, 0x90u8],
            Glyph::BottomLeft => seq![0xE2u8, 0x94u8, 0x94u8],
            Glyph::BottomRight => seq![0xE2u8, 0x94u8, 0x98u8],
            Glyph::Alive => seq![0xE2u8, 0x96u8, 0x88u8],
            Glyph::Dead => seq![0xE2u8, 0x96u8, 0x91u8],
        }
    }

    /// The glyph of a cell.
    pub open spec fn of_cell(alive: bool) -> Glyph {
        if alive {
            Glyph::Alive
        } else {
            Glyph::Dead
        }
    }

    /// Append the glyph's encoding to `out`.
    pub fn write(self, out: &mut Vec<u8>)
        ensures
            final(out)@ == old(out)@ + self.bytes(),
    {
        let (second, third): (u8, u8) = match self {
            Glyph::Horizontal => (0x94, 0x80),
            Glyph::Vertical => (0x94, 0x82),
            Glyph::TopLeft => (0x94, 0x8C),
            Glyph::TopRight => (0x94, 0x90),
            Glyph::BottomLeft => (0x94, 0x94),
            Glyph::BottomRight => (0x94, 0x98),
            Glyph::Alive => (0x96, 0x88),
            Glyph::Dead => (0x96, 0x91),
        };
        out.push(0xE2);
        out.push(second);
        out.push(third);
        assert(out@ =~= old(out)@ + self.bytes());
    }
}

/// Line feed and carriage return: the end of a line of the border.
pub open spec fn line_end() -> Seq<u8> {
    seq![0x0Au8, 0x0Du8]
}

/// `n` horizontal boundary glyphs.
pub open spec fn horizontal_run(n: nat) -> Seq<u8>
    decreases n,
{
    if n == 0 {
        Seq::empty()
    } else {
        horizontal_run((n - 1) as nat) + Glyph::Horizontal.bytes()
    }
}

/// The left and right boundary of the first `n` rows of a grid that is
/// `width` cells wide: for each row the left glyph, a jump over the cells,
/// the right glyph and a line end.
pub open spec fn side_rows(width: int, n: nat) -> Seq<u8>
    decreases n,
{
    if n == 0 {
        Seq::empty()
    } else {
        side_rows(width, (n - 1) as nat) + Glyph::Vertical.bytes() + goto_sequence(
            (width + 2) as nat,
            (n + 1) as nat,
        ) + Glyph::Vertical.bytes() + line_end()
    }
}

/// The frame that draws the border around a grid and leaves the caret on
/// the cell `(x, y)`.
pub open spec fn border_frame(g: Grid, x: int, y: int) -> Seq<u8> {
    goto_sequence(1, 1) + Glyph::TopLeft.bytes() + horizontal_run(g.width as nat)
        + Glyph::TopRight.bytes() + line_end() + side_rows(g.width, g.height as nat)
        + Glyph::BottomLeft.bytes() + horizontal_run(g.width as nat) + Glyph::BottomRight.bytes()
        + goto_sequence((x + 2) as nat, (y + 2) as nat)
}

/// The glyphs of the first `n` cells of row `y`.
pub open spec fn row_cells(g: Grid, y: int, n: nat) -> Seq<u8>
    decreases n,
{
    if n == 0 {
        Seq::empty()
    } else {
        row_cells(g, y, (n - 1) as nat) + Glyph::of_cell(g.alive(n - 1, y)).bytes()
    }
}

/// The first `n` rows of the cells: for each row a jump to its first cell
/// and then one glyph per cell.
pub open spec fn map_rows(g: Grid, n: nat) -> Seq<u8>
    decreases n,
{
    if n == 0 {
        Seq::empty()
    } else {
        map_rows(g, (n - 1) as nat) + goto_sequence(2, (n + 1) as nat) + row_cells(
            g,
            n - 1,
            g.width as nat,
        )
    }
}

/// The frame that draws every cell of the grid, row by row.
pub open spec fn map_frame(g: Grid) -> Seq<u8> {
    map_rows(g, g.height as nat)
}

/// Whether a grid and its border fit on a screen whose columns and rows are
/// numbered by 16-bit integers from 1.
pub open spec fn fits_screen(g: Grid) -> bool {
    g.width + 2 <= u16::MAX && g.height + 2 <= u16::MAX
}

/// The terminal side of a game: the bytes that are waiting to be written to
/// the terminal, and the cursor.
pub struct GameIO {
    /// Bytes for the terminal that have not been written yet.
    pub stdout: Vec<u8>,
    /// The cursor coordinate.
    pub x: u16,
    pub y: u16,
}

impl GameIO {
    /// Queue the border of the game, and put the caret on the cursor.
    pub fn print_border(&mut self, game: &Game)
        requires
            fits_screen(game@),
            old(self).x + 2 <= u16::MAX,
            old(self).y + 2 <= u16::MAX,
        ensures
            final(self).stdout@ == old(self).stdout@ + border_frame(
                game@,
                old(self).x as int,
                old(self).y as int,
            ),
            final(self).x == old(self).x,
            final(self).y == old(self).y,
    {
        let width = game.width();
        let height = game.height();
        // Reset the cursor.
        let mut frame = goto(1, 1);

        // Write the upper part of the frame.
        Glyph::TopLeft.write(&mut frame);
        write_horizontal_run(&mut frame, width);
        Glyph::TopRight.write(&mut frame);
        write_line_end(&mut frame);

        let ghost top = frame@;
        let mut h: u16 = 0;
        while h < height
            invariant
                h <= height,
                width == game@.width,
                height == game@.height,
                fits_screen(game@),
                frame@ == top + side_rows(width as int, h as nat),
            decreases height - h,
        {
            // The left part of the frame
            Glyph::Vertical.write(&mut frame);

            // The right part of the frame
            let mut jump = goto(width + 2, h + 2);
            frame.append(&mut jump);
            Glyph::Vertical.write(&mut frame);
            write_line_end(&mut frame);
            h += 1;
            assert(frame@ =~= top + side_rows(width as int, h as nat));
        }

        // Write the lower part of the frame.
        Glyph::BottomLeft.write(&mut frame);
        write_horizontal_run(&mut frame, width);
        Glyph::BottomRight.write(&mut frame);

        let mut jump = goto(self.x + 2, self.y + 2);
        frame.append(&mut jump);
        assert(frame@ =~= border_frame(game@, self.x as int, self.y as int));
        self.stdout.append(&mut frame);
    }

    /// Queue the cells of the game, row by row.
    pub fn print_map(&mut self, game: &Game)
        requires
            fits_screen(game@),
        ensures
            final(self).stdout@ == old(self).stdout@ + map_frame(game@),
            final(self).x == old(self).x,
            final(self).y == old(self).y,
    {
        let width = game.width();
        let height = game.height();
        let mut frame: Vec<u8> = Vec::new();
        let mut h: u16 = 0;
        while h < height
            invariant
                h <= height,
                width == game@.width,
                height == game@.height,
                fits_screen(game@),
                frame@ == map_rows(game@, h as nat),
            decreases height - h,
        {
            let mut jump = goto(2, h + 2);
            frame.append(&mut jump);
            let ghost start = frame@;
            let mut w: u16 = 0;
            while w < width
                invariant
                    w <= width,
                    h < height,
                    width == game@.width,
                    height == game@.height,
                    frame@ == start + row_cells(game@, h as int, w as nat),
                decreases width - w,
            {
                let glyph = if game.get(w, h).alive {
                    Glyph::Alive
                } else {
                    Glyph::Dead
                };
                glyph.write(&mut frame);
                w += 1;
                assert(frame@ =~= start + row_cells(game@, h as int, w as nat));
            }
            h += 1;
            assert(frame@ =~= map_rows(game@, h as nat));
        }
        self.stdout.append(&mut frame);
    }
}

/// Append `n` horizontal boundary glyphs to `out`.
fn write_horizontal_run(out: &mut Vec<u8>, n: u16)
    ensures
        final(out)@ == old(out)@ + horizontal_run(n as nat),
{
    let mut i: u16 = 0;
    while i < n
        invariant
            i <= n,
            out@ == old(out)@ + horizontal_run(i as nat),
        decreases n - i,
    {
        Glyph::Horizontal.write(out);
        i += 1;
        assert(out@ =~= old(out)@ + horizontal_run(i as nat));
    }
}

/// Append a line end to `out`.
fn write_line_end(out: &mut Vec<u8>)
    ensures
        final(out)@ == old(out)@ + line_end(),
{
    out.push(0x0A);
    out.push(0x0D);
    assert(out@ =~= old(out)@ + line_end());
}

} // verus!
