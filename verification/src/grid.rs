//! The toroidal grid of two-coloured cells.
//!
//! A grid has no edges: every pair of integers addresses a cell, the one
//! found by reducing each coordinate modulo the grid's size.

use vstd::arithmetic::div_mod::{
    lemma_fundamental_div_mod,
    lemma_fundamental_div_mod_converse,
    lemma_mod_twice,
};
use vstd::prelude::*;

verus! {

/// The state of one cell.
#[derive(Clone, Copy, Debug, PartialEq, Eq, Structural)]
pub enum Color {
    White,
    Black,
}

impl Color {
    /// The other colour.
    pub open spec fn flipped(self) -> Color {
        match self {
            Color::White => Color::Black,
            Color::Black => Color::White,
        }
    }

    /// Returns the other colour.
    pub fn inverse(self) -> (c: Color)
        ensures
            c == self.flipped(),
    {
        match self {
            Color::White => Color::Black,
            Color::Black => Color::White,
        }
    }
}

/// The mathematical grid: a size and the colour of each cell of
/// `[0, width) x [0, height)`, keyed by `(x, y)`.
pub struct GridView {
    pub width: int,
    pub height: int,
    pub cells: Map<(int, int), Color>,
}

impl GridView {
    /// Both sides are positive and exactly the cells inside the rectangle exist.
    pub open spec fn wf(self) -> bool {
        &&& self.width > 0
        &&& self.height > 0
        &&& forall|p: (int, int)|
            self.cells.dom().contains(p) <==> (0 <= p.0 < self.width && 0 <= p.1 < self.height)
    }

    /// The cell that `(x, y)` addresses on the torus.
    pub open spec fn wrap(self, x: int, y: int) -> (int, int) {
        (x % self.width, y % self.height)
    }

    /// The colour at `(x, y)`, for any integers.
    pub open spec fn get(self, x: int, y: int) -> Color {
        self.cells[self.wrap(x, y)]
    }

    /// The grid with the cell at `(x, y)` set to `color`.
    pub open spec fn set(self, x: int, y: int, color: Color) -> GridView {
        GridView { cells: self.cells.insert(self.wrap(x, y), color), ..self }
    }

    /// The grid with the cell at `(x, y)` flipped.
    pub open spec fn toggle(self, x: int, y: int) -> GridView {
        self.set(x, y, self.get(x, y).flipped())
    }

    /// The all-white grid of the given size.
    pub open spec fn blank(width: int, height: int) -> GridView {
        GridView {
            width,
            height,
            cells: Map::new(
                |p: (int, int)| 0 <= p.0 < width && 0 <= p.1 < height,
                |p: (int, int)| Color::White,
            ),
        }
    }
}

/// Reduces a coordinate into `[0, n)`: the remainder of Euclidean division,
/// which is never negative.
pub fn wrap(v: i64, n: u32) -> (r: u32)
    requires
        n > 0,
    ensures
        r == (v as int) % (n as int),
        r < n,
{
    let m: i64 = n as i64;
    let t: i64 = v % m;
    proof {
        lemma_truncated_remainder(v as int, m as int, t as int);
    }
    if t < 0 {
        (t + m) as u32
    } else {
        t as u32
    }
}

/// How the remainder that rounds toward zero relates to the Euclidean one.
proof fn lemma_truncated_remainder(v: int, m: int, t: int)
    requires
        m > 0,
        v >= 0 ==> t == v % m,
        v < 0 ==> t == -((-v) % m),
    ensures
        -m < t < m,
        0 <= v % m < m,
        v % m == if t < 0 { t + m } else { t },
{
    if v < 0 {
        let a = -v;
        let q = a / m;
        let s = a % m;
        lemma_fundamental_div_mod(a, m);
        if s == 0 {
            assert(v == (-q) * m + 0) by (nonlinear_arith)
                requires
                    a == q * m + s,
                    s == 0,
                    v == -a,
            ;
            lemma_fundamental_div_mod_converse(v, m, -q, 0);
        } else {
            assert(v == (-q - 1) * m + (m - s)) by (nonlinear_arith)
                requires
                    a == q * m + s,
                    v == -a,
            ;
            lemma_fundamental_div_mod_converse(v, m, -q - 1, m - s);
        }
    }
}

/// A rectangular array of cells, addressed toroidally.
pub struct Grid {
    width: u32,
    height: u32,
    cells: Vec<Vec<Color>>,
}

impl View for Grid {
    type V = GridView;

    closed spec fn view(&self) -> GridView {
        GridView {
            width: self.width as int,
            height: self.height as int,
            cells: Map::new(
                |p: (int, int)| 0 <= p.0 < self.width && 0 <= p.1 < self.height,
                |p: (int, int)| self.cells@[p.1]@[p.0],
            ),
        }
    }
}

impl Grid {
    /// The rows are as many as the height and each is as long as the width.
    pub closed spec fn wf(&self) -> bool {
        &&& self.width > 0
        &&& self.height > 0
        &&& self.cells@.len() == self.height
        &&& forall|y: int| 0 <= y < self.height ==> (#[trigger] self.cells@[y])@.len() == self.width
    }

    /// A well-formed grid has a well-formed view, whose sides fit the type
    /// that holds them.
    pub proof fn lemma_view_wf(&self)
        requires
            self.wf(),
        ensures
            self@.wf(),
            self@.width <= u32::MAX,
            self@.height <= u32::MAX,
    {
    }

    /// An all-white grid, or `None` when a side is zero.
    pub fn new(width: u32, height: u32) -> (r: Option<Grid>)
        ensures
            r is Some <==> width > 0 && height > 0,
            r matches Some(g) ==> g.wf() && g@ == GridView::blank(width as int, height as int),
    {
        if width == 0 || height == 0 {
            return None;
        }
        let mut cells: Vec<Vec<Color>> = Vec::new();
        let mut y: u32 = 0;
        while y < height
            invariant
                y <= height,
                cells@.len() == y,
                forall|j: int| 0 <= j < y ==> (#[trigger] cells@[j])@.len() == width,
                forall|j: int, i: int|
                    0 <= j < y && 0 <= i < width ==> (#[trigger] cells@[j]@[i]) == Color::White,
            decreases height - y,
        {
            let mut row: Vec<Color> = Vec::new();
            let mut x: u32 = 0;
            while x < width
                invariant
                    x <= width,
                    row@.len() == x,
                    forall|i: int| 0 <= i < x ==> (#[trigger] row@[i]) == Color::White,
                decreases width - x,
            {
                row.push(Color::White);
                x = x + 1;
            }
            cells.push(row);
            y = y + 1;
        }
        let g = Grid { width, height, cells };
        proof {
            assert(g@.cells =~= GridView::blank(width as int, height as int).cells);
        }
        Some(g)
    }

    /// The number of columns.
    pub fn width(&self) -> (w: u32)
        requires
            self.wf(),
        ensures
            w == self@.width,
            w > 0,
    {
        self.width
    }

    /// The number of rows.
    pub fn height(&self) -> (h: u32)
        requires
            self.wf(),
        ensures
            h == self@.height,
            h > 0,
    {
        self.height
    }

    /// The colour at `(x, y)`; any pair of integers is a valid address.
    pub fn get(&self, x: i64, y: i64) -> (c: Color)
        requires
            self.wf(),
        ensures
            c == self@.get(x as int, y as int),
    {
        let col = wrap(x, self.width) as usize;
        let row = wrap(y, self.height) as usize;
        self.cells[row][col]
    }

    /// Writes `color` at `(x, y)` and touches no other cell.
    pub fn set(&mut self, x: i64, y: i64, color: Color)
        requires
            old(self).wf(),
        ensures
            final(self).wf(),
            final(self)@ == old(self)@.set(x as int, y as int, color),
    {
        let col = wrap(x, self.width) as usize;
        let row = wrap(y, self.height) as usize;
        self.cells[row][col] = color;
        proof {
            assert(self@.cells =~= old(self)@.set(x as int, y as int, color).cells);
        }
    }

    /// Flips the cell at `(x, y)`.
    pub fn toggle(&mut self, x: i64, y: i64)
        requires
            old(self).wf(),
        ensures
            final(self).wf(),
            final(self)@ == old(self)@.toggle(x as int, y as int),
    {
        let c = self.get(x, y);
        self.set(x, y, c.inverse());
    }
}

/// Any pair of integers addresses the same cell as the pair reduced into the
/// rectangle: reading, writing and flipping at `(x, y)` are reading, writing
/// and flipping at `(x mod width, y mod height)`.
pub proof fn lemma_toroidal_addressing(g: GridView, x: int, y: int, color: Color)
    requires
        g.wf(),
    ensures
        0 <= x % g.width < g.width,
        0 <= y % g.height < g.height,
        g.get(x, y) == g.get(x % g.width, y % g.height),
        g.set(x, y, color) == g.set(x % g.width, y % g.height, color),
        g.toggle(x, y) == g.toggle(x % g.width, y % g.height),
{
    lemma_mod_twice(x, g.width);
    lemma_mod_twice(y, g.height);
}

/// The cell that a pair of integers addresses lies inside the rectangle.
pub proof fn lemma_wrap_in_range(g: GridView, x: int, y: int)
    requires
        g.wf(),
    ensures
        0 <= g.wrap(x, y).0 < g.width,
        0 <= g.wrap(x, y).1 < g.height,
        g.cells.dom().contains(g.wrap(x, y)),
{
}

/// Writing keeps the grid well formed, is read back at the same address, and
/// leaves every cell that the address does not reach as it was.
pub proof fn lemma_set_one_cell(g: GridView, x: int, y: int, color: Color, u: int, v: int)
    requires
        g.wf(),
    ensures
        g.set(x, y, color).wf(),
        g.set(x, y, color).get(x, y) == color,
        g.wrap(u, v) != g.wrap(x, y) ==> g.set(x, y, color).get(u, v) == g.get(u, v),
{
}

/// Flipping a cell twice restores the grid.
pub proof fn lemma_toggle_twice(g: GridView, x: int, y: int)
    requires
        g.wf(),
    ensures
        g.toggle(x, y).wf(),
        g.toggle(x, y).toggle(x, y) == g,
{
    assert(g.toggle(x, y).toggle(x, y).cells =~= g.cells);
}

} // verus!
