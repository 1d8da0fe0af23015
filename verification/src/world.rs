//! The world: the grid, the ant on it, the camera over it, and the rule
//! that moves the ant.

use crate::ant::{Ant, AntView, Direction};
use crate::grid::{wrap, Color, Grid, GridView};
use crate::random::random_u64;
use crate::viewport::{Viewport, ViewportView};
use vstd::arithmetic::div_mod::{lemma_add_mod_noop_right, lemma_small_mod};
use vstd::prelude::*;

verus! {

/// The world as mathematics sees it.
pub struct WorldView {
    /// How many steps the automaton has made.
    pub it: int,
    pub grid: GridView,
    pub ant: AntView,
    pub camera: ViewportView,
    /// The least time between two frames, in milliseconds.
    pub refresh_interval: int,
    /// The least time between two steps, in milliseconds.
    pub cycle_interval: int,
}

impl WorldView {
    /// The grid and the camera are well formed and agree on the grid's size,
    /// and the ant stands on a cell of the grid.
    pub open spec fn wf(self) -> bool {
        &&& self.grid.wf()
        &&& self.camera.wf()
        &&& self.camera.map_width == self.grid.width
        &&& self.camera.map_height == self.grid.height
        &&& 0 <= self.ant.x < self.grid.width
        &&& 0 <= self.ant.y < self.grid.height
        &&& 0 <= self.it
    }

    /// A new world with the ant as given: no step made, every cell white,
    /// the camera as a new viewport has it.
    pub open spec fn initial(
        width: int,
        height: int,
        screen_width: int,
        screen_height: int,
        refresh_interval: int,
        cycle_interval: int,
        ant: AntView,
    ) -> WorldView {
        WorldView {
            it: 0,
            grid: GridView::blank(width, height),
            ant,
            camera: ViewportView::initial(screen_width, screen_height, width, height),
            refresh_interval,
            cycle_interval,
        }
    }

    /// The ant that three drawn numbers give on a grid: each coordinate is
    /// its number reduced modulo the side, the direction is the third number
    /// reduced modulo four.
    pub open spec fn drawn_ant(width: int, height: int, dx: int, dy: int, dd: int) -> AntView {
        AntView { x: dx % width, y: dy % height, dir: Direction::from_index(dd) }
    }

    /// The colour of the cell under the ant.
    pub open spec fn color_under_ant(self) -> Color {
        self.grid.get(self.ant.x, self.ant.y)
    }

    /// The world with the ant moved by `(dx, dy)` around the torus.
    pub open spec fn move_ant(self, dx: int, dy: int) -> WorldView {
        WorldView {
            ant: AntView {
                x: (self.ant.x + dx) % self.grid.width,
                y: (self.ant.y + dy) % self.grid.height,
                ..self.ant
            },
            ..self
        }
    }

    /// One application of the automaton's rule. The ant turns right on a
    /// white cell and left on a black one; the cell it stands on is flipped;
    /// the ant moves one cell in its new direction.
    pub open spec fn cycle(self) -> WorldView {
        let turned = match self.color_under_ant() {
            Color::White => self.ant.turn_right(),
            Color::Black => self.ant.turn_left(),
        };
        WorldView {
            grid: self.grid.toggle(self.ant.x, self.ant.y),
            ant: turned,
            ..self
        }.move_ant(turned.dir.dx(), turned.dir.dy())
    }

    /// The number of steps after one more; the counter holds 64 bits and
    /// starts again from zero when they are used up.
    pub open spec fn next_iteration(self) -> int {
        (self.it + 1) % 0x1_0000_0000_0000_0000
    }

    /// One step: the rule applied once, and counted.
    pub open spec fn step(self) -> WorldView {
        WorldView { it: self.next_iteration(), ..self.cycle() }
    }

    /// The world after `n` steps.
    pub open spec fn steps(self, n: nat) -> WorldView
        decreases n,
    {
        if n == 0 {
            self
        } else {
            self.steps((n - 1) as nat).step()
        }
    }

    /// The world with another camera.
    pub open spec fn with_camera(self, camera: ViewportView) -> WorldView {
        WorldView { camera, ..self }
    }

    /// The world with another grid.
    pub open spec fn with_grid(self, grid: GridView) -> WorldView {
        WorldView { grid, ..self }
    }
}

/// The rule keeps a world well formed, leaves the camera, the counter and
/// the intervals alone, and never changes the grid's size.
pub proof fn lemma_cycle_wf(w: WorldView)
    requires
        w.wf(),
    ensures
        w.cycle().wf(),
        w.cycle().camera == w.camera,
        w.cycle().it == w.it,
        w.cycle().refresh_interval == w.refresh_interval,
        w.cycle().cycle_interval == w.cycle_interval,
        w.cycle().grid.width == w.grid.width,
        w.cycle().grid.height == w.grid.height,
{
    let turned = match w.color_under_ant() {
        Color::White => w.ant.turn_right(),
        Color::Black => w.ant.turn_left(),
    };
}

/// A step keeps a world well formed and counts one more, up to the
/// counter's capacity.
pub proof fn lemma_step_wf(w: WorldView)
    requires
        w.wf(),
    ensures
        w.step().wf(),
        w.step().camera == w.camera,
        w.it + 1 < 0x1_0000_0000_0000_0000 ==> w.step().it == w.it + 1,
{
}

/// Any number of steps keeps a world well formed.
pub proof fn lemma_steps_wf(w: WorldView, n: nat)
    requires
        w.wf(),
    ensures
        w.steps(n).wf(),
        w.steps(n).camera == w.camera,
    decreases n,
{
    if n > 0 {
        lemma_steps_wf(w, (n - 1) as nat);
    }
}

/// The automaton is deterministic, and what it does to the grid and the ant
/// depends on the grid and the ant alone: two worlds that agree on both
/// still agree on both after the same number of steps, whatever their
/// cameras and intervals are.
pub proof fn lemma_steps_deterministic(a: WorldView, b: WorldView, n: nat)
    requires
        a.grid == b.grid,
        a.ant == b.ant,
    ensures
        a.steps(n).grid == b.steps(n).grid,
        a.steps(n).ant == b.steps(n).ant,
        a.it == b.it ==> a.steps(n).it == b.steps(n).it,
    decreases n,
{
    if n > 0 {
        lemma_steps_deterministic(a, b, (n - 1) as nat);
    }
}

/// On a white cell, with the ant facing up and room to its right, one step
/// turns the ant right, blackens the cell it stood on and moves it one cell
/// to the right.
pub proof fn lemma_first_step(w: WorldView)
    requires
        w.wf(),
        w.ant.dir == Direction::Up,
        w.color_under_ant() == Color::White,
        w.ant.x + 1 < w.grid.width,
    ensures
        w.step().ant.dir == Direction::Right,
        w.step().ant.x == w.ant.x + 1,
        w.step().ant.y == w.ant.y,
        w.step().grid.get(w.ant.x, w.ant.y) == Color::Black,
{
    lemma_small_mod((w.ant.x + 1) as nat, w.grid.width as nat);
    lemma_small_mod(w.ant.y as nat, w.grid.height as nat);
}

/// What a status line reports.
#[derive(Clone, Copy, Debug, PartialEq, Eq, Structural)]
pub struct Status {
    pub iteration: u64,
    pub ant_x: i64,
    pub ant_y: i64,
    pub camera_x: i64,
    pub camera_y: i64,
    pub refresh_interval: u64,
    pub cycle_interval: u64,
}

/// The single owner of the grid, the ant and the camera.
pub struct World {
    it: u64,
    grid: Grid,
    ant: Ant,
    camera: Viewport,
    refresh_interval: u64,
    cycle_interval: u64,
}

impl View for World {
    type V = WorldView;

    closed spec fn view(&self) -> WorldView {
        WorldView {
            it: self.it as int,
            grid: self.grid@,
            ant: self.ant@,
            camera: self.camera@,
            refresh_interval: self.refresh_interval as int,
            cycle_interval: self.cycle_interval as int,
        }
    }
}

impl World {
    /// What the representation owes beyond the view.
    pub closed spec fn inv(&self) -> bool {
        self.grid.wf()
    }

    /// The world is well formed.
    pub open spec fn wf(&self) -> bool {
        self.inv() && self@.wf()
    }

    /// A new world of `width` by `height` cells under a window of
    /// `screen_width` by `screen_height` pixels, with the ant placed and
    /// turned by chance; `None` when the grid has a side of zero cells.
    pub fn new(
        width: u32,
        height: u32,
        screen_width: u32,
        screen_height: u32,
        refresh_interval: u64,
        cycle_interval: u64,
    ) -> (r: Option<World>)
        ensures
            r is Some <==> width > 0 && height > 0,
            r matches Some(w) ==> w.wf() && w@ == WorldView::initial(
                width as int,
                height as int,
                screen_width as int,
                screen_height as int,
                refresh_interval as int,
                cycle_interval as int,
                w@.ant,
            ),
    {
        let dx = random_u64();
        let dy = random_u64();
        let dd = random_u64();
        World::from_draws(
            width,
            height,
            screen_width,
            screen_height,
            refresh_interval,
            cycle_interval,
            dx,
            dy,
            dd,
        )
    }

    /// A new world whose ant is given by three drawn numbers: the column is
    /// `dx` modulo the width, the row is `dy` modulo the height, and the
    /// direction is `dd` modulo four on the clockwise cycle. `None` when the
    /// grid has a side of zero cells.
    pub fn from_draws(
        width: u32,
        height: u32,
        screen_width: u32,
        screen_height: u32,
        refresh_interval: u64,
        cycle_interval: u64,
        dx: u64,
        dy: u64,
        dd: u64,
    ) -> (r: Option<World>)
        ensures
            r is Some <==> width > 0 && height > 0,
            r matches Some(w) ==> w.wf() && w@ == WorldView::initial(
                width as int,
                height as int,
                screen_width as int,
                screen_height as int,
                refresh_interval as int,
                cycle_interval as int,
                WorldView::drawn_ant(width as int, height as int, dx as int, dy as int, dd as int),
            ),
    {
        let grid = match Grid::new(width, height) {
            Some(g) => g,
            None => {
                return None;
            },
        };
        let camera = match Viewport::new(screen_width, screen_height, width, height) {
            Some(c) => c,
            None => {
                return None;
            },
        };
        let ant = Ant {
            x: (dx % (width as u64)) as i64,
            y: (dy % (height as u64)) as i64,
            dir: Direction::of_index(dd),
        };
        Some(World { it: 0, grid, ant, camera, refresh_interval, cycle_interval })
    }

    /// The colour at `(x, y)`; any pair of integers is a valid address.
    pub fn get(&self, x: i64, y: i64) -> (c: Color)
        requires
            self.wf(),
        ensures
            c == self@.grid.get(x as int, y as int),
    {
        self.grid.get(x, y)
    }

    /// Writes `color` at `(x, y)`.
    pub fn set(&mut self, x: i64, y: i64, color: Color)
        requires
            old(self).wf(),
        ensures
            final(self).wf(),
            final(self)@ == old(self)@.with_grid(old(self)@.grid.set(x as int, y as int, color)),
    {
        self.grid.set(x, y, color);
    }

    /// Flips the cell at `(x, y)`.
    pub fn inverse(&mut self, x: i64, y: i64)
        requires
            old(self).wf(),
        ensures
            final(self).wf(),
            final(self)@ == old(self)@.with_grid(old(self)@.grid.toggle(x as int, y as int)),
    {
        self.grid.toggle(x, y);
    }

    /// Moves the ant by `(dx, dy)` around the torus.
    pub fn move_ant(&mut self, dx: i64, dy: i64)
        requires
            old(self).wf(),
        ensures
            final(self).wf(),
            final(self)@ == old(self)@.move_ant(dx as int, dy as int),
    {
        let width = self.grid.width();
        let height = self.grid.height();
        proof {
            lemma_add_mod_noop_right(self@.ant.x, dx as int, width as int);
            lemma_add_mod_noop_right(self@.ant.y, dy as int, height as int);
        }
        let sx: i64 = wrap(dx, width) as i64;
        let sy: i64 = wrap(dy, height) as i64;
        self.ant.x = wrap(self.ant.x + sx, width) as i64;
        self.ant.y = wrap(self.ant.y + sy, height) as i64;
    }

    /// Applies the automaton's rule once.
    pub fn do_one_cycle(&mut self)
        requires
            old(self).wf(),
        ensures
            final(self).wf(),
            final(self)@ == old(self)@.cycle(),
    {
        match self.get(self.ant.x, self.ant.y) {
            Color::White => self.ant.turn_right(),
            Color::Black => self.ant.turn_left(),
        }
        self.inverse(self.ant.x, self.ant.y);
        let d = self.ant.dir.delta();
        self.move_ant(d.0, d.1);
    }

    /// Makes one step: applies the rule once and counts it.
    pub fn step(&mut self)
        requires
            old(self).wf(),
        ensures
            final(self).wf(),
            final(self)@ == old(self)@.step(),
    {
        self.do_one_cycle();
        self.it = self.it.wrapping_add(1);
    }

    /// How many steps have been made.
    pub fn iteration_count(&self) -> (n: u64)
        ensures
            n == self@.it,
    {
        self.it
    }

    /// Zooms the camera by `num / den`; see [`Viewport::zoom`].
    pub fn zoom(&mut self, num: u32, den: u32) -> (redraw: bool)
        requires
            old(self).wf(),
            num > 0,
            den > 0,
            num < den && old(self)@.camera.square_size > 1 ==> old(self)@.camera.square_size * num
                >= den,
        ensures
            final(self).wf(),
            final(self)@ == old(self)@.with_camera(old(self)@.camera.zoom(num as int, den as int)),
            redraw == old(self)@.camera.can_zoom(num as int, den as int),
    {
        self.camera.zoom(num, den)
    }

    /// Pans the camera one step, unless it follows the ant; see
    /// [`Viewport::move_view`].
    pub fn move_view(&mut self, direction: Direction) -> (redraw: bool)
        requires
            old(self).wf(),
        ensures
            final(self).wf(),
            final(self)@ == old(self)@.with_camera(old(self)@.camera.pan(direction)),
            redraw == !old(self)@.camera.follow_ant,
    {
        self.camera.move_view(direction)
    }

    /// Centres the camera on the ant where the ant is more than a quarter of
    /// the visible window away from the centre.
    pub fn set_view_above_ant(&mut self)
        requires
            old(self).wf(),
        ensures
            final(self).wf(),
            final(self)@ == old(self)@.with_camera(
                old(self)@.camera.center_on(old(self)@.ant.x, old(self)@.ant.y),
            ),
    {
        self.camera.set_view_above_ant(self.ant.x, self.ant.y);
    }

    /// Switches the camera's follow mode.
    pub fn toggle_follow(&mut self)
        requires
            old(self).wf(),
        ensures
            final(self).wf(),
            final(self)@ == old(self)@.with_camera(old(self)@.camera.toggle_follow()),
    {
        self.camera.toggle_follow();
    }

    /// The ant.
    pub fn ant(&self) -> (a: Ant)
        ensures
            a@ == self@.ant,
    {
        self.ant
    }

    /// The grid.
    pub fn grid(&self) -> (g: &Grid)
        requires
            self.wf(),
        ensures
            g.wf(),
            g@ == self@.grid,
    {
        &self.grid
    }

    /// The camera.
    pub fn camera(&self) -> (c: &Viewport)
        ensures
            c@ == self@.camera,
    {
        &self.camera
    }

    /// The least time between two frames, in milliseconds.
    pub fn refresh_interval(&self) -> (r: u64)
        ensures
            r == self@.refresh_interval,
    {
        self.refresh_interval
    }

    /// The least time between two steps, in milliseconds.
    pub fn cycle_interval(&self) -> (r: u64)
        ensures
            r == self@.cycle_interval,
    {
        self.cycle_interval
    }

    /// What a status line reports of the world as it is.
    pub fn status(&self) -> (s: Status)
        ensures
            s.iteration == self@.it,
            s.ant_x == self@.ant.x,
            s.ant_y == self@.ant.y,
            s.camera_x == self@.camera.pos_x,
            s.camera_y == self@.camera.pos_y,
            s.refresh_interval == self@.refresh_interval,
            s.cycle_interval == self@.cycle_interval,
    {
        Status {
            iteration: self.it,
            ant_x: self.ant.x,
            ant_y: self.ant.y,
            camera_x: self.camera.pos_x(),
            camera_y: self.camera.pos_y(),
            refresh_interval: self.refresh_interval,
            cycle_interval: self.cycle_interval,
        }
    }
}

} // verus!
