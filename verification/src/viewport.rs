//! The camera: which rectangle of the grid is shown, and at what scale.
//!
//! A viewport knows the window's size in pixels and the grid's size in cells.
//! From the side of one square in pixels it derives how many squares a line
//! and a column of the window hold, and it keeps the centre of the visible
//! window far enough from the grid's border that the window stays on the grid.

use crate::ant::Direction;
use vstd::arithmetic::div_mod::{
    lemma_div_by_multiple,
    lemma_div_is_ordered,
    lemma_fundamental_div_mod,
};
use vstd::math::{max, min};
use vstd::prelude::*;

verus! {

/// How many cells one press of an arrow key moves the camera.
pub const VIEW_MOVE_STEP: i64 = 5;

/// The factor of one zoom-in, as numerator and denominator.
pub const VIEW_ZOOM_PLUS: (u32, u32) = (11, 10);

/// The factor of one zoom-out, as numerator and denominator.
pub const VIEW_ZOOM_MINUS: (u32, u32) = (9, 10);

/// The camera as mathematics sees it.
pub struct ViewportView {
    /// The window's width in pixels.
    pub screen_width: int,
    /// The window's height in pixels.
    pub screen_height: int,
    /// The grid's width in cells.
    pub map_width: int,
    /// The grid's height in cells.
    pub map_height: int,
    /// The column at the centre of the visible window.
    pub pos_x: int,
    /// The row at the centre of the visible window.
    pub pos_y: int,
    /// Whether the camera follows the ant.
    pub follow_ant: bool,
    /// The side of one square in pixels.
    pub square_size: int,
    /// How many squares one line of the window shows.
    pub squares_per_line: int,
    /// How many squares one column of the window shows.
    pub squares_per_column: int,
}

impl ViewportView {
    /// The scale at which the grid fills the window along the side where it
    /// needs the larger squares, and at least one pixel.
    pub open spec fn fitted_size(self) -> int {
        max(
            1,
            max(self.screen_width / self.map_width, self.screen_height / self.map_height),
        )
    }

    /// The viewport at the fitted scale.
    pub open spec fn fit(self) -> ViewportView {
        ViewportView { square_size: self.fitted_size(), ..self }
    }

    /// The least column the centre may take.
    pub open spec fn low_x(self) -> int {
        self.squares_per_line / 2
    }

    /// The greatest column the centre may take.
    pub open spec fn high_x(self) -> int {
        self.map_width - self.squares_per_line / 2
    }

    /// The least row the centre may take.
    pub open spec fn low_y(self) -> int {
        self.squares_per_column / 2
    }

    /// The greatest row the centre may take.
    pub open spec fn high_y(self) -> int {
        self.map_height - self.squares_per_column / 2
    }

    /// Whether the centre lies between its bounds on both axes.
    pub open spec fn clamped(self) -> bool {
        &&& self.low_x() <= self.pos_x <= self.high_x()
        &&& self.low_y() <= self.pos_y <= self.high_y()
    }

    /// The viewport with its centre brought between the bounds: first up to
    /// the lower one, then down to the upper one.
    pub open spec fn adjust(self) -> ViewportView {
        ViewportView {
            pos_x: min(max(self.pos_x, self.low_x()), self.high_x()),
            pos_y: min(max(self.pos_y, self.low_y()), self.high_y()),
            ..self
        }
    }

    /// The viewport with the visible counts derived anew from the scale,
    /// each capped by the grid's size, and the centre adjusted to them.
    pub open spec fn update_scale(self) -> ViewportView {
        ViewportView {
            squares_per_line: min(self.screen_width / self.square_size, self.map_width),
            squares_per_column: min(self.screen_height / self.square_size, self.map_height),
            ..self
        }.adjust()
    }

    /// The viewport a new world starts with: centred on the grid, following
    /// the ant, at the fitted scale.
    pub open spec fn initial(
        screen_width: int,
        screen_height: int,
        map_width: int,
        map_height: int,
    ) -> ViewportView {
        ViewportView {
            screen_width,
            screen_height,
            map_width,
            map_height,
            pos_x: map_width / 2,
            pos_y: map_height / 2,
            follow_ant: true,
            square_size: 0,
            squares_per_line: 0,
            squares_per_column: 0,
        }.fit().update_scale()
    }

    /// The scale above which zooming in does nothing.
    pub open spec fn zoom_limit(self) -> int {
        min(self.screen_width, self.screen_height)
    }

    /// Whether a zoom by `num / den` does anything: a factor above one while
    /// the scale is under the limit, or a factor below one while the scale is
    /// above one pixel.
    pub open spec fn can_zoom(self, num: int, den: int) -> bool {
        ||| (num > den && self.square_size < self.zoom_limit())
        ||| (num < den && self.square_size > 1)
    }

    /// The scale after a zoom by `num / den`: the product rounded down, or
    /// one pixel more or less than before where rounding gives the old scale.
    pub open spec fn zoomed_size(self, num: int, den: int) -> int {
        let scaled = (self.square_size * num) / den;
        if scaled != self.square_size {
            scaled
        } else if num > den {
            self.square_size + 1
        } else if num < den {
            self.square_size - 1
        } else {
            self.square_size
        }
    }

    /// The viewport after a zoom by `num / den`.
    pub open spec fn zoom(self, num: int, den: int) -> ViewportView {
        if self.can_zoom(num, den) {
            ViewportView { square_size: self.zoomed_size(num, den), ..self }.update_scale()
        } else {
            self
        }
    }

    /// The viewport moved one step in a direction, as far as the bounds allow.
    pub open spec fn shift(self, direction: Direction) -> ViewportView {
        match direction {
            Direction::Up => ViewportView {
                pos_y: max(self.low_y(), self.pos_y - VIEW_MOVE_STEP),
                ..self
            },
            Direction::Down => ViewportView {
                pos_y: min(self.high_y(), self.pos_y + VIEW_MOVE_STEP),
                ..self
            },
            Direction::Left => ViewportView {
                pos_x: max(self.low_x(), self.pos_x - VIEW_MOVE_STEP),
                ..self
            },
            Direction::Right => ViewportView {
                pos_x: min(self.high_x(), self.pos_x + VIEW_MOVE_STEP),
                ..self
            },
        }
    }

    /// The viewport after a request to pan: moved, unless it follows the ant.
    pub open spec fn pan(self, direction: Direction) -> ViewportView {
        if self.follow_ant {
            self
        } else {
            self.shift(direction)
        }
    }

    /// Whether a cell lies more than a quarter of the visible window away
    /// from the centre, on either axis.
    pub open spec fn out_of_reach(self, x: int, y: int) -> bool {
        ||| x < self.pos_x - self.squares_per_line / 4
        ||| y < self.pos_y - self.squares_per_column / 4
        ||| x > self.pos_x + self.squares_per_line / 4
        ||| y > self.pos_y + self.squares_per_column / 4
    }

    /// The viewport centred on a cell where that cell is out of reach, and
    /// unchanged where it is not.
    pub open spec fn center_on(self, x: int, y: int) -> ViewportView {
        if self.out_of_reach(x, y) {
            ViewportView { pos_x: x, pos_y: y, ..self }.adjust()
        } else {
            self
        }
    }

    /// The viewport with the follow mode switched.
    pub open spec fn toggle_follow(self) -> ViewportView {
        ViewportView { follow_ant: !self.follow_ant, ..self }
    }

    /// The first column of the visible window.
    pub open spec fn first_visible_x(self) -> int {
        self.pos_x - self.squares_per_line / 2
    }

    /// The first row of the visible window.
    pub open spec fn first_visible_y(self) -> int {
        self.pos_y - self.squares_per_column / 2
    }

    /// The sizes make sense, the scale is at least one pixel, the visible
    /// counts are those the scale gives, and the centre is between its bounds.
    pub open spec fn wf(self) -> bool {
        &&& 0 <= self.screen_width
        &&& 0 <= self.screen_height
        &&& 0 < self.map_width
        &&& 0 < self.map_height
        &&& 1 <= self.square_size
        &&& self.squares_per_line == min(self.screen_width / self.square_size, self.map_width)
        &&& self.squares_per_column == min(
            self.screen_height / self.square_size,
            self.map_height,
        )
        &&& self.clamped()
    }
}

/// The visible counts of a well-formed viewport are not negative, do not
/// exceed the grid, and their squares fit in the window.
pub proof fn lemma_visible_counts(v: ViewportView)
    requires
        v.wf(),
    ensures
        0 <= v.squares_per_line <= v.map_width,
        0 <= v.squares_per_column <= v.map_height,
        v.squares_per_line * v.square_size <= v.screen_width,
        v.squares_per_column * v.square_size <= v.screen_height,
        0 <= v.low_x() <= v.high_x() <= v.map_width,
        0 <= v.low_y() <= v.high_y() <= v.map_height,
        0 <= v.first_visible_x() <= v.map_width,
        0 <= v.first_visible_y() <= v.map_height,
{
    lemma_quotient_fits(v.screen_width, v.square_size, v.squares_per_line);
    lemma_quotient_fits(v.screen_height, v.square_size, v.squares_per_column);
}

/// A count between zero and `total / size` takes at most `total` pixels.
proof fn lemma_quotient_fits(total: int, size: int, count: int)
    requires
        0 <= total,
        1 <= size,
        count <= total / size,
    ensures
        0 <= total / size,
        0 <= count ==> count * size <= total,
{
    lemma_fundamental_div_mod(total, size);
    if 0 <= count {
        assert(count * size <= (total / size) * size) by (nonlinear_arith)
            requires
                0 <= count <= total / size,
                1 <= size,
        ;
    }
}

/// After an adjustment the centre lies between its bounds on both axes,
/// whatever it was before, as long as the visible counts are not negative and
/// do not exceed the grid.
pub proof fn lemma_adjust_clamps(v: ViewportView)
    requires
        0 <= v.squares_per_line <= v.map_width,
        0 <= v.squares_per_column <= v.map_height,
    ensures
        v.adjust().clamped(),
        v.adjust().low_x() <= v.adjust().pos_x <= v.adjust().high_x(),
        v.adjust().low_y() <= v.adjust().pos_y <= v.adjust().high_y(),
        v.clamped() ==> v.adjust() == v,
{
}

/// Deriving the visible counts gives a well-formed viewport for every scale
/// of at least one pixel and every window size: in particular the centre
/// then lies between its bounds.
pub proof fn lemma_update_scale_wf(v: ViewportView)
    requires
        0 <= v.screen_width,
        0 <= v.screen_height,
        0 < v.map_width,
        0 < v.map_height,
        1 <= v.square_size,
    ensures
        v.update_scale().wf(),
        v.update_scale().clamped(),
{
}

/// The fitted scale is at least one pixel.
pub proof fn lemma_fit_positive(v: ViewportView)
    ensures
        v.fit().square_size >= 1,
{
}

/// The viewport a world starts with is well formed.
pub proof fn lemma_initial_wf(
    screen_width: int,
    screen_height: int,
    map_width: int,
    map_height: int,
)
    requires
        0 <= screen_width,
        0 <= screen_height,
        0 < map_width,
        0 < map_height,
    ensures
        ViewportView::initial(screen_width, screen_height, map_width, map_height).wf(),
{
    let v = ViewportView {
        screen_width,
        screen_height,
        map_width,
        map_height,
        pos_x: map_width / 2,
        pos_y: map_height / 2,
        follow_ant: true,
        square_size: 0,
        squares_per_line: 0,
        squares_per_column: 0,
    };
}

/// What multiplying a scale by `num / den` and rounding down gives: at least
/// the scale for a factor above one, less than the scale for a factor below
/// one, and never a negative number.
pub proof fn lemma_scaled(size: int, num: int, den: int)
    requires
        0 <= size,
        0 < num,
        0 < den,
    ensures
        0 <= (size * num) / den <= size * num,
        num >= den ==> (size * num) / den >= size,
        num < den && size > 0 ==> (size * num) / den < size,
{
    assert(0 <= size * num) by (nonlinear_arith)
        requires
            0 <= size,
            0 < num,
    ;
    lemma_fundamental_div_mod(size * num, den);
    let q = (size * num) / den;
    assert(den * q >= q) by (nonlinear_arith)
        requires
            0 <= q,
            1 <= den,
    ;
    if num >= den {
        assert(size * den <= size * num) by (nonlinear_arith)
            requires
                0 <= size,
                den <= num,
        ;
        lemma_div_is_ordered(size * den, size * num, den);
        lemma_div_by_multiple(size, den);
    }
    if num < den && size > 0 {
        assert(size * num < size * den) by (nonlinear_arith)
            requires
                0 < size,
                num < den,
        ;
        if q >= size {
            assert(den * q >= den * size) by (nonlinear_arith)
                requires
                    q >= size,
                    0 < den,
            ;
        }
    }
}

/// A zoom that is not held back by a bound changes the scale, upwards for a
/// factor above one and downwards for a factor below one; a zoom that is held
/// back changes nothing at all.
pub proof fn lemma_zoom_progress(v: ViewportView, num: int, den: int)
    requires
        v.wf(),
        0 < num,
        0 < den,
    ensures
        v.can_zoom(num, den) && num > den ==> v.zoom(num, den).square_size > v.square_size,
        v.can_zoom(num, den) && num < den ==> v.zoom(num, den).square_size < v.square_size,
        !v.can_zoom(num, den) ==> v.zoom(num, den) == v,
{
    lemma_scaled(v.square_size, num, den);
}

/// Zooming out never takes the scale under one pixel, as long as the factor
/// is not so small that the product rounds down to zero.
pub proof fn lemma_zoom_out_floor(v: ViewportView, num: int, den: int)
    requires
        v.wf(),
        0 < num < den,
        v.square_size > 1 ==> v.square_size * num >= den,
    ensures
        v.zoom(num, den).square_size >= 1,
        v.zoom(num, den).wf(),
{
    if v.can_zoom(num, den) {
        lemma_div_is_ordered(den, v.square_size * num, den);
    }
}

/// Tenths never round a scale of two pixels or more down to zero: zooming
/// out by nine tenths always keeps at least one pixel.
pub proof fn lemma_zoom_minus_floor(v: ViewportView)
    requires
        v.wf(),
    ensures
        v.square_size > 1 ==> v.square_size * VIEW_ZOOM_MINUS.0 >= VIEW_ZOOM_MINUS.1,
        v.zoom(VIEW_ZOOM_MINUS.0 as int, VIEW_ZOOM_MINUS.1 as int).square_size >= 1,
{
}

/// Zooming in from a scale within the limit stays within the limit, as long
/// as the product itself does; a scale at or above the limit is left alone.
pub proof fn lemma_zoom_in_ceiling(v: ViewportView, num: int, den: int)
    requires
        v.wf(),
        0 < den < num,
        v.square_size <= v.zoom_limit(),
        (v.square_size * num) / den <= v.zoom_limit(),
    ensures
        v.zoom(num, den).square_size <= v.zoom_limit(),
        v.zoom(num, den).zoom_limit() == v.zoom_limit(),
        v.square_size >= v.zoom_limit() ==> v.zoom(num, den) == v,
{
}

/// The camera is recentred only for a cell that lies more than a quarter of
/// the visible window from the centre on some axis. For a cell within that
/// distance on both axes nothing changes; for one beyond it the centre is
/// the cell itself, brought between the bounds.
pub proof fn lemma_recenter_hysteresis(v: ViewportView, x: int, y: int)
    requires
        v.wf(),
    ensures
        (v.pos_x - v.squares_per_line / 4 <= x <= v.pos_x + v.squares_per_line / 4
            && v.pos_y - v.squares_per_column / 4 <= y <= v.pos_y + v.squares_per_column / 4)
            ==> v.center_on(x, y) == v,
        (v.center_on(x, y).pos_x != v.pos_x || v.center_on(x, y).pos_y != v.pos_y)
            ==> v.out_of_reach(x, y),
        v.out_of_reach(x, y) ==> v.center_on(x, y).pos_x == min(max(x, v.low_x()), v.high_x())
            && v.center_on(x, y).pos_y == min(max(y, v.low_y()), v.high_y()),
        v.center_on(x, y).wf(),
{
}

/// Panning keeps the viewport well formed, moves the centre by at most one
/// step along one axis, and does nothing while the camera follows the ant.
pub proof fn lemma_pan(v: ViewportView, direction: Direction)
    requires
        v.wf(),
    ensures
        v.pan(direction).wf(),
        v.follow_ant ==> v.pan(direction) == v,
        v.pos_x - VIEW_MOVE_STEP <= v.pan(direction).pos_x <= v.pos_x + VIEW_MOVE_STEP,
        v.pos_y - VIEW_MOVE_STEP <= v.pan(direction).pos_y <= v.pos_y + VIEW_MOVE_STEP,
        v.pan(direction).pos_x == v.pos_x || v.pan(direction).pos_y == v.pos_y,
{
}

/// The camera over a grid.
pub struct Viewport {
    screen_width: u32,
    screen_height: u32,
    map_width: u32,
    map_height: u32,
    pos_x: i64,
    pos_y: i64,
    follow_ant: bool,
    square_size: u64,
    squares_per_line: u32,
    squares_per_column: u32,
}

impl View for Viewport {
    type V = ViewportView;

    closed spec fn view(&self) -> ViewportView {
        ViewportView {
            screen_width: self.screen_width as int,
            screen_height: self.screen_height as int,
            map_width: self.map_width as int,
            map_height: self.map_height as int,
            pos_x: self.pos_x as int,
            pos_y: self.pos_y as int,
            follow_ant: self.follow_ant,
            square_size: self.square_size as int,
            squares_per_line: self.squares_per_line as int,
            squares_per_column: self.squares_per_column as int,
        }
    }
}

impl Viewport {
    /// The viewport's view is well formed.
    pub open spec fn wf(&self) -> bool {
        self@.wf()
    }

    /// The viewport a world starts with, or `None` when the grid has a side
    /// of zero cells.
    pub fn new(screen_width: u32, screen_height: u32, map_width: u32, map_height: u32) -> (r:
        Option<Viewport>)
        ensures
            r is Some <==> map_width > 0 && map_height > 0,
            r matches Some(v) ==> v.wf() && v@ == ViewportView::initial(
                screen_width as int,
                screen_height as int,
                map_width as int,
                map_height as int,
            ),
    {
        if map_width == 0 || map_height == 0 {
            return None;
        }
        let mut v = Viewport {
            screen_width,
            screen_height,
            map_width,
            map_height,
            pos_x: (map_width / 2) as i64,
            pos_y: (map_height / 2) as i64,
            follow_ant: true,
            square_size: 0,
            squares_per_line: 0,
            squares_per_column: 0,
        };
        v.fit();
        v.update_scale();
        Some(v)
    }

    /// Sets the scale to the fitted one.
    pub fn fit(&mut self)
        requires
            old(self)@.map_width > 0,
            old(self)@.map_height > 0,
        ensures
            final(self)@ == old(self)@.fit(),
            final(self)@.square_size >= 1,
    {
        let a: u32 = self.screen_width / self.map_width;
        let b: u32 = self.screen_height / self.map_height;
        let mut size: u32 = if a > b {
            a
        } else {
            b
        };
        if size < 1 {
            size = 1;
        }
        self.square_size = size as u64;
    }

    /// Brings the centre between its bounds.
    pub fn adjust_view_position(&mut self)
        ensures
            final(self)@ == old(self)@.adjust(),
    {
        let low_x: i64 = (self.squares_per_line / 2) as i64;
        let high_x: i64 = self.map_width as i64 - low_x;
        let low_y: i64 = (self.squares_per_column / 2) as i64;
        let high_y: i64 = self.map_height as i64 - low_y;
        if self.pos_x < low_x {
            self.pos_x = low_x;
        }
        if self.pos_x > high_x {
            self.pos_x = high_x;
        }
        if self.pos_y < low_y {
            self.pos_y = low_y;
        }
        if self.pos_y > high_y {
            self.pos_y = high_y;
        }
    }

    /// Derives the visible counts from the scale and adjusts the centre.
    pub fn update_scale(&mut self)
        requires
            old(self)@.square_size >= 1,
            old(self)@.map_width > 0,
            old(self)@.map_height > 0,
        ensures
            final(self)@ == old(self)@.update_scale(),
            final(self).wf(),
    {
        let per_line: u64 = self.screen_width as u64 / self.square_size;
        let per_column: u64 = self.screen_height as u64 / self.square_size;
        self.squares_per_line = if per_line < self.map_width as u64 {
            per_line as u32
        } else {
            self.map_width
        };
        self.squares_per_column = if per_column < self.map_height as u64 {
            per_column as u32
        } else {
            self.map_height
        };
        self.adjust_view_position();
    }

    /// Zooms by the factor `num / den`: in for a factor above one, out for a
    /// factor below one. Returns whether the scale changed, in which case the
    /// world is to be drawn again.
    pub fn zoom(&mut self, num: u32, den: u32) -> (redraw: bool)
        requires
            old(self).wf(),
            num > 0,
            den > 0,
            num < den && old(self)@.square_size > 1 ==> old(self)@.square_size * num >= den,
        ensures
            final(self).wf(),
            final(self)@ == old(self)@.zoom(num as int, den as int),
            redraw == old(self)@.can_zoom(num as int, den as int),
    {
        let limit: u64 = if self.screen_width < self.screen_height {
            self.screen_width as u64
        } else {
            self.screen_height as u64
        };
        let size: u64 = self.square_size;
        if (num > den && size < limit) || (num < den && size > 1) {
            proof {
                lemma_scaled(size as int, num as int, den as int);
                assert(size * num <= 0xffff_ffff_ffff_ffff * 0xffff_ffff) by (nonlinear_arith)
                    requires
                        0 <= size <= 0xffff_ffff_ffff_ffff,
                        0 <= num <= 0xffff_ffff,
                ;
                if num > den {
                    assert(size * num <= 0xffff_ffff * 0xffff_ffff) by (nonlinear_arith)
                        requires
                            0 <= size <= 0xffff_ffff,
                            0 <= num <= 0xffff_ffff,
                    ;
                } else {
                    lemma_zoom_out_floor(self@, num as int, den as int);
                }
            }
            let scaled: u128 = (size as u128 * num as u128) / (den as u128);
            let next: u64 = if scaled != size as u128 {
                scaled as u64
            } else if num > den {
                size + 1
            } else {
                size - 1
            };
            self.square_size = next;
            self.update_scale();
            true
        } else {
            false
        }
    }

    /// Moves the centre one step up, as far as the bounds allow.
    pub fn move_view_up(&mut self)
        requires
            old(self).wf(),
        ensures
            final(self).wf(),
            final(self)@ == old(self)@.shift(Direction::Up),
    {
        let low: i64 = (self.squares_per_column / 2) as i64;
        let moved: i64 = self.pos_y - VIEW_MOVE_STEP;
        self.pos_y = if low > moved {
            low
        } else {
            moved
        };
    }

    /// Moves the centre one step down, as far as the bounds allow.
    pub fn move_view_down(&mut self)
        requires
            old(self).wf(),
        ensures
            final(self).wf(),
            final(self)@ == old(self)@.shift(Direction::Down),
    {
        let high: i64 = self.map_height as i64 - (self.squares_per_column / 2) as i64;
        let moved: i64 = self.pos_y + VIEW_MOVE_STEP;
        self.pos_y = if high < moved {
            high
        } else {
            moved
        };
    }

    /// Moves the centre one step left, as far as the bounds allow.
    pub fn move_view_left(&mut self)
        requires
            old(self).wf(),
        ensures
            final(self).wf(),
            final(self)@ == old(self)@.shift(Direction::Left),
    {
        let low: i64 = (self.squares_per_line / 2) as i64;
        let moved: i64 = self.pos_x - VIEW_MOVE_STEP;
        self.pos_x = if low > moved {
            low
        } else {
            moved
        };
    }

    /// Moves the centre one step right, as far as the bounds allow.
    pub fn move_view_right(&mut self)
        requires
            old(self).wf(),
        ensures
            final(self).wf(),
            final(self)@ == old(self)@.shift(Direction::Right),
    {
        let high: i64 = self.map_width as i64 - (self.squares_per_line / 2) as i64;
        let moved: i64 = self.pos_x + VIEW_MOVE_STEP;
        self.pos_x = if high < moved {
            high
        } else {
            moved
        };
    }

    /// Pans one step in a direction, unless the camera follows the ant.
    /// Returns whether it moved, in which case the world is to be drawn again.
    pub fn move_view(&mut self, direction: Direction) -> (redraw: bool)
        requires
            old(self).wf(),
        ensures
            final(self).wf(),
            final(self)@ == old(self)@.pan(direction),
            redraw == !old(self)@.follow_ant,
    {
        if self.follow_ant {
            return false;
        }
        match direction {
            Direction::Up => self.move_view_up(),
            Direction::Down => self.move_view_down(),
            Direction::Left => self.move_view_left(),
            Direction::Right => self.move_view_right(),
        }
        true
    }

    /// Centres the camera on the cell `(x, y)` where that cell is more than
    /// a quarter of the visible window away from the centre.
    pub fn set_view_above_ant(&mut self, x: i64, y: i64)
        requires
            old(self).wf(),
        ensures
            final(self).wf(),
            final(self)@ == old(self)@.center_on(x as int, y as int),
    {
        let reach_x: i64 = (self.squares_per_line / 4) as i64;
        let reach_y: i64 = (self.squares_per_column / 4) as i64;
        if x < self.pos_x - reach_x || y < self.pos_y - reach_y || x > self.pos_x + reach_x || y
            > self.pos_y + reach_y {
            self.pos_x = x;
            self.pos_y = y;
            self.adjust_view_position();
        }
    }

    /// Switches the follow mode.
    pub fn toggle_follow(&mut self)
        ensures
            final(self)@ == old(self)@.toggle_follow(),
    {
        self.follow_ant = !self.follow_ant;
    }

    /// The window's width in pixels.
    pub fn screen_width(&self) -> (r: u32)
        ensures
            r == self@.screen_width,
    {
        self.screen_width
    }

    /// The window's height in pixels.
    pub fn screen_height(&self) -> (r: u32)
        ensures
            r == self@.screen_height,
    {
        self.screen_height
    }

    /// The grid's width in cells.
    pub fn map_width(&self) -> (r: u32)
        ensures
            r == self@.map_width,
    {
        self.map_width
    }

    /// The grid's height in cells.
    pub fn map_height(&self) -> (r: u32)
        ensures
            r == self@.map_height,
    {
        self.map_height
    }

    /// The column at the centre of the visible window.
    pub fn pos_x(&self) -> (r: i64)
        ensures
            r == self@.pos_x,
    {
        self.pos_x
    }

    /// The row at the centre of the visible window.
    pub fn pos_y(&self) -> (r: i64)
        ensures
            r == self@.pos_y,
    {
        self.pos_y
    }

    /// Whether the camera follows the ant.
    pub fn follow_ant(&self) -> (r: bool)
        ensures
            r == self@.follow_ant,
    {
        self.follow_ant
    }

    /// The side of one square in pixels.
    pub fn square_size(&self) -> (r: u64)
        ensures
            r == self@.square_size,
    {
        self.square_size
    }

    /// How many squares one line of the window shows.
    pub fn squares_per_line(&self) -> (r: u32)
        ensures
            r == self@.squares_per_line,
    {
        self.squares_per_line
    }

    /// How many squares one column of the window shows.
    pub fn squares_per_column(&self) -> (r: u32)
        ensures
            r == self@.squares_per_column,
    {
        self.squares_per_column
    }
}

} // verus!
