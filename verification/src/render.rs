//! The picture of a world: one filled square for each visible cell.
//!
//! Nothing is drawn here. A picture is the list of the squares to fill, in
//! the order in which they are filled: column by column, each from top to
//! bottom. The visible window is not a torus: where it reaches past the
//! grid's border, the cells beyond are left out.

use crate::grid::Color;
use crate::viewport::lemma_visible_counts;
use crate::world::{World, WorldView};
use vstd::arithmetic::div_mod::lemma_fundamental_div_mod_converse;
use vstd::math::min;
use vstd::prelude::*;

verus! {

/// What a square is filled with.
#[derive(Clone, Copy, Debug, PartialEq, Eq, Structural)]
pub enum Paint {
    /// The cell the ant stands on, whatever the cell's own colour.
    Ant,
    /// A white cell.
    White,
    /// A black cell.
    Black,
}

impl Paint {
    /// The red, green and blue parts of the paint.
    pub open spec fn components(self) -> (u8, u8, u8) {
        match self {
            Paint::Ant => (255u8, 0u8, 0u8),
            Paint::White => (20u8, 20u8, 20u8),
            Paint::Black => (0u8, 150u8, 50u8),
        }
    }

    /// The red, green and blue parts of the paint.
    pub fn rgb(self) -> (c: (u8, u8, u8))
        ensures
            c == self.components(),
    {
        match self {
            Paint::Ant => (255, 0, 0),
            Paint::White => (20, 20, 20),
            Paint::Black => (0, 150, 50),
        }
    }
}

/// A square of the picture as mathematics sees it: the pixel of its upper
/// left corner, its side in pixels and its paint.
pub struct SquareView {
    pub x: int,
    pub y: int,
    pub size: int,
    pub paint: Paint,
}

/// One square to fill.
#[derive(Clone, Copy, Debug, PartialEq, Eq, Structural)]
pub struct Square {
    pub x: i64,
    pub y: i64,
    pub size: u64,
    pub paint: Paint,
}

impl View for Square {
    type V = SquareView;

    open spec fn view(&self) -> SquareView {
        SquareView { x: self.x as int, y: self.y as int, size: self.size as int, paint: self.paint }
    }
}

impl DeepView for Square {
    type V = SquareView;

    open spec fn deep_view(&self) -> SquareView {
        self@
    }
}

impl WorldView {
    /// The paint of the cell at `(x, y)`: the ant's where the ant stands on
    /// it, the cell's own colour elsewhere.
    pub open spec fn paint_at(self, x: int, y: int) -> Paint {
        if self.ant.x == x && self.ant.y == y {
            Paint::Ant
        } else {
            match self.grid.get(x, y) {
                Color::White => Paint::White,
                Color::Black => Paint::Black,
            }
        }
    }

    /// The pixel column where the first visible column starts: the visible
    /// squares are centred in the window.
    pub open spec fn first_screen_x(self) -> int {
        self.camera.screen_width / 2 - (self.camera.squares_per_line * self.camera.square_size) / 2
    }

    /// The pixel row where the first visible row starts.
    pub open spec fn first_screen_y(self) -> int {
        self.camera.screen_height / 2 - (self.camera.squares_per_column
            * self.camera.square_size) / 2
    }

    /// How many columns of the visible window lie on the grid.
    pub open spec fn drawn_columns(self) -> int {
        min(self.camera.squares_per_line, self.camera.map_width - self.camera.first_visible_x())
    }

    /// How many rows of the visible window lie on the grid.
    pub open spec fn drawn_rows(self) -> int {
        min(self.camera.squares_per_column, self.camera.map_height - self.camera.first_visible_y())
    }

    /// The square for the cell in column `i` and row `j` of the visible
    /// window.
    pub open spec fn square_at(self, i: int, j: int) -> SquareView {
        SquareView {
            x: self.first_screen_x() + i * self.camera.square_size,
            y: self.first_screen_y() + j * self.camera.square_size,
            size: self.camera.square_size,
            paint: self.paint_at(
                self.camera.first_visible_x() + i,
                self.camera.first_visible_y() + j,
            ),
        }
    }

    /// The picture: the squares of all visible cells on the grid, column by
    /// column.
    pub open spec fn picture(self) -> Seq<SquareView> {
        Seq::new(
            (self.drawn_columns() * self.drawn_rows()) as nat,
            |k: int| self.square_at(k / self.drawn_rows(), k % self.drawn_rows()),
        )
    }
}

/// The picture of a well-formed world lies inside the window and shows
/// cells of the grid only.
pub proof fn lemma_picture_bounds(w: WorldView, i: int, j: int)
    requires
        w.wf(),
        0 <= i < w.drawn_columns(),
        0 <= j < w.drawn_rows(),
    ensures
        0 <= w.camera.first_visible_x() + i < w.grid.width,
        0 <= w.camera.first_visible_y() + j < w.grid.height,
        0 <= w.first_screen_x() <= w.square_at(i, j).x,
        0 <= w.first_screen_y() <= w.square_at(i, j).y,
        w.square_at(i, j).x + w.camera.square_size <= w.camera.screen_width,
        w.square_at(i, j).y + w.camera.square_size <= w.camera.screen_height,
{
    lemma_visible_counts(w.camera);
    lemma_span(i, w.camera.squares_per_line, w.camera.square_size);
    lemma_span(j, w.camera.squares_per_column, w.camera.square_size);
}

/// Square `i` of `count` squares of one size ends where the next begins,
/// and all of them end within the whole span.
proof fn lemma_span(i: int, count: int, size: int)
    requires
        0 <= i < count,
        0 <= size,
    ensures
        0 <= i * size,
        i * size + size <= count * size,
{
    assert(0 <= i * size && i * size + size <= count * size) by (nonlinear_arith)
        requires
            0 <= i < count,
            0 <= size,
    ;
}

/// The place in the picture of the square in column `i` and row `j`.
proof fn lemma_place(i: int, j: int, columns: int, rows: int)
    requires
        0 <= i < columns,
        0 <= j < rows,
    ensures
        0 <= i * rows + j < columns * rows,
        (i * rows + j) / rows == i,
        (i * rows + j) % rows == j,
        (i + 1) * rows == i * rows + rows,
{
    assert(0 <= i * rows && i * rows + rows <= columns * rows && (i + 1) * rows == i * rows + rows)
        by (nonlinear_arith)
        requires
            0 <= i < columns,
            0 <= rows,
    ;
    lemma_fundamental_div_mod_converse(i * rows + j, rows, i, j);
}

impl World {
    /// The square that shows the cell `(map_x, map_y)` at the pixel
    /// `(scr_x, scr_y)`.
    pub fn draw_square(&self, map_x: i64, map_y: i64, scr_x: i64, scr_y: i64) -> (sq: Square)
        requires
            self.wf(),
        ensures
            sq@ == (SquareView {
                x: scr_x as int,
                y: scr_y as int,
                size: self@.camera.square_size,
                paint: self@.paint_at(map_x as int, map_y as int),
            }),
    {
        let ant = self.ant();
        let paint = if ant.x == map_x && ant.y == map_y {
            Paint::Ant
        } else {
            match self.get(map_x, map_y) {
                Color::White => Paint::White,
                Color::Black => Paint::Black,
            }
        };
        Square { x: scr_x, y: scr_y, size: self.camera().square_size(), paint }
    }

    /// The picture of the world as it is.
    pub fn draw_world(&self) -> (out: Vec<Square>)
        requires
            self.wf(),
        ensures
            out.deep_view() == self@.picture(),
    {
        let camera = self.camera();
        proof {
            lemma_visible_counts(camera@);
        }
        let size: u64 = camera.square_size();
        let per_line: i64 = camera.squares_per_line() as i64;
        let per_column: i64 = camera.squares_per_column() as i64;
        let first_visible_x: i64 = camera.pos_x() - per_line / 2;
        let first_visible_y: i64 = camera.pos_y() - per_column / 2;
        let first_screen_x: i64 = (camera.screen_width() / 2) as i64 - ((per_line as u64 * size)
            / 2) as i64;
        let first_screen_y: i64 = (camera.screen_height() / 2) as i64 - ((per_column as u64 * size)
            / 2) as i64;
        let room_x: i64 = camera.map_width() as i64 - first_visible_x;
        let room_y: i64 = camera.map_height() as i64 - first_visible_y;
        let columns: i64 = if per_line < room_x {
            per_line
        } else {
            room_x
        };
        let rows: i64 = if per_column < room_y {
            per_column
        } else {
            room_y
        };
        let mut out: Vec<Square> = Vec::new();
        let mut i: i64 = 0;
        while i < columns
            invariant
                self.wf(),
                camera@ == self@.camera,
                size == self@.camera.square_size,
                first_visible_x == self@.camera.first_visible_x(),
                first_visible_y == self@.camera.first_visible_y(),
                first_screen_x == self@.first_screen_x(),
                first_screen_y == self@.first_screen_y(),
                columns == self@.drawn_columns(),
                rows == self@.drawn_rows(),
                self@.camera.screen_width <= u32::MAX,
                self@.camera.screen_height <= u32::MAX,
                self@.camera.map_width <= u32::MAX,
                self@.camera.map_height <= u32::MAX,
                0 <= columns,
                0 <= rows,
                0 <= i <= columns,
                out@.len() == i * rows,
                forall|k: int|
                    0 <= k < out@.len() ==> (#[trigger] out@[k])@ == self@.square_at(
                        k / (rows as int),
                        k % (rows as int),
                    ),
            decreases columns - i,
        {
            let mut j: i64 = 0;
            while j < rows
                invariant
                    self.wf(),
                    camera@ == self@.camera,
                    size == self@.camera.square_size,
                    first_visible_x == self@.camera.first_visible_x(),
                    first_visible_y == self@.camera.first_visible_y(),
                    first_screen_x == self@.first_screen_x(),
                    first_screen_y == self@.first_screen_y(),
                    columns == self@.drawn_columns(),
                    rows == self@.drawn_rows(),
                    self@.camera.screen_width <= u32::MAX,
                    self@.camera.screen_height <= u32::MAX,
                    self@.camera.map_width <= u32::MAX,
                    self@.camera.map_height <= u32::MAX,
                    0 <= i < columns,
                    0 <= j <= rows,
                    out@.len() == i * rows + j,
                    forall|k: int|
                        0 <= k < out@.len() ==> (#[trigger] out@[k])@ == self@.square_at(
                            k / (rows as int),
                            k % (rows as int),
                        ),
                decreases rows - j,
            {
                proof {
                    lemma_picture_bounds(self@, i as int, j as int);
                    lemma_place(i as int, j as int, columns as int, rows as int);
                }
                let sq = self.draw_square(
                    first_visible_x + i,
                    first_visible_y + j,
                    first_screen_x + (i as u64 * size) as i64,
                    first_screen_y + (j as u64 * size) as i64,
                );
                out.push(sq);
                j = j + 1;
            }
            proof {
                if rows > 0 {
                    lemma_place(i as int, 0, columns as int, rows as int);
                }
            }
            i = i + 1;
        }
        out
    }
}

} // verus!
