//! The decisions of the control loop.
//!
//! The loop itself lives with whoever owns the window: it reads the clock,
//! polls one event, and hands both to [`Controller::turn`]. The turn decides
//! everything else: whether to quit, how the camera and the automaton move,
//! which pictures to show and in what order, and whether a status line is
//! due. Three cadences are kept apart, each with its own time stamp: panning
//! while an arrow key is held, stepping the automaton, and refreshing the
//! window.

use crate::ant::Direction;
use crate::render::{Square, SquareView};
use crate::viewport::{
    lemma_pan,
    lemma_recenter_hysteresis,
    lemma_update_scale_wf,
    lemma_zoom_out_floor,
    lemma_zoom_progress,
    ViewportView,
    VIEW_ZOOM_MINUS,
    VIEW_ZOOM_PLUS,
};
use crate::world::{lemma_step_wf, World, WorldView};
use vstd::prelude::*;

verus! {

/// The time in milliseconds that must pass between two pans of the camera
/// while an arrow key is held. It is fixed, and independent of the two
/// intervals that a world is made with.
pub const MOVE_INTERVAL: u64 = 20;

/// A key of the keyboard, as far as the loop tells keys apart.
#[derive(Clone, Copy, Debug, PartialEq, Eq, Structural)]
pub enum Key {
    Escape,
    Plus,
    Minus,
    Up,
    Down,
    Left,
    Right,
    F,
    Other,
}

/// What one poll of the window gave.
#[derive(Clone, Copy, Debug, PartialEq, Eq, Structural)]
pub enum Event {
    /// The window was closed.
    Quit,
    /// A key went down.
    KeyDown(Key),
    /// A key came up.
    KeyUp(Key),
    /// Nothing happened, or nothing the loop cares about.
    Nothing,
}

/// The loop's own state as mathematics sees it.
pub struct ControllerView {
    /// When the window was last refreshed.
    pub refresh_ticks: int,
    /// When the automaton last stepped.
    pub cycle_ticks: int,
    /// When the camera last panned.
    pub move_ticks: int,
    /// Whether the up arrow is held.
    pub up: bool,
    /// Whether the right arrow is held.
    pub right: bool,
    /// Whether the down arrow is held.
    pub down: bool,
    /// Whether the left arrow is held.
    pub left: bool,
}

/// A world together with the pictures shown of it so far in a turn.
pub struct Stage {
    pub world: WorldView,
    pub frames: Seq<Seq<SquareView>>,
}

impl Stage {
    /// The stage with one more picture: that of the world as it is.
    pub open spec fn show(self) -> Stage {
        Stage { frames: self.frames.push(self.world.picture()), ..self }
    }

    /// The stage after a pan in `direction` where its key is held: the
    /// camera moved and the world shown again.
    pub open spec fn pan(self, held: bool, direction: Direction) -> Stage {
        if held {
            Stage {
                world: self.world.with_camera(self.world.camera.pan(direction)),
                ..self
            }.show()
        } else {
            self
        }
    }

    /// The stage after one step of the automaton, which is not shown.
    pub open spec fn step(self) -> Stage {
        Stage { world: self.world.step(), ..self }
    }

    /// The stage after the camera was centred on the ant, if it follows the
    /// ant, and the world shown again.
    #[verifier::opaque]
    pub open spec fn refresh(self) -> Stage {
        if self.world.camera.follow_ant {
            Stage {
                world: self.world.with_camera(
                    self.world.camera.center_on(self.world.ant.x, self.world.ant.y),
                ),
                ..self
            }.show()
        } else {
            self.show()
        }
    }
}

/// What one turn of the loop comes to.
pub struct Turn {
    /// The loop's state after the turn.
    pub controller: ControllerView,
    /// The world after the turn.
    pub world: WorldView,
    /// Whether the loop ends here.
    pub quit: bool,
    /// The pictures to show, first to last.
    pub frames: Seq<Seq<SquareView>>,
    /// Whether a status line is due after the last picture.
    pub report: bool,
}

/// The time from `last` to `now` on a clock of 64 bits that starts again
/// from zero when they are used up.
pub open spec fn elapsed(now: int, last: int) -> int {
    if now >= last {
        now - last
    } else {
        now - last + 0x1_0000_0000_0000_0000
    }
}

/// Whether an event ends the loop: the window was closed or escape went down.
pub open spec fn quits(event: Event) -> bool {
    event == Event::Quit || event == Event::KeyDown(Key::Escape)
}

impl ControllerView {
    /// The state a loop starts with: every stamp at zero, no key held.
    pub open spec fn initial() -> ControllerView {
        ControllerView {
            refresh_ticks: 0,
            cycle_ticks: 0,
            move_ticks: 0,
            up: false,
            right: false,
            down: false,
            left: false,
        }
    }

    /// The state after an event: an arrow key is held from when it goes down
    /// to when it comes up.
    pub open spec fn hold(self, event: Event) -> ControllerView {
        match event {
            Event::KeyDown(Key::Up) => ControllerView { up: true, ..self },
            Event::KeyDown(Key::Down) => ControllerView { down: true, ..self },
            Event::KeyDown(Key::Left) => ControllerView { left: true, ..self },
            Event::KeyDown(Key::Right) => ControllerView { right: true, ..self },
            Event::KeyUp(Key::Up) => ControllerView { up: false, ..self },
            Event::KeyUp(Key::Down) => ControllerView { down: false, ..self },
            Event::KeyUp(Key::Left) => ControllerView { left: false, ..self },
            Event::KeyUp(Key::Right) => ControllerView { right: false, ..self },
            _ => self,
        }
    }

    /// Whether the camera pans at `now`: it does not follow the ant, and
    /// more than the fixed interval has passed since it last panned.
    pub open spec fn moves_due(self, world: WorldView, now: int) -> bool {
        !world.camera.follow_ant && elapsed(now, self.move_ticks) > MOVE_INTERVAL
    }

    /// Whether the automaton steps at `now`.
    pub open spec fn cycle_due(self, world: WorldView, now: int) -> bool {
        elapsed(now, self.cycle_ticks) >= world.cycle_interval
    }

    /// Whether the window is refreshed at `now`.
    pub open spec fn refresh_due(self, world: WorldView, now: int) -> bool {
        elapsed(now, self.refresh_ticks) >= world.refresh_interval
    }

    /// The state with the time `now` as the stamp of each cadence that fired.
    pub open spec fn stamp(
        self,
        moving: bool,
        stepping: bool,
        refreshing: bool,
        now: int,
    ) -> ControllerView {
        ControllerView {
            move_ticks: if moving {
                now
            } else {
                self.move_ticks
            },
            cycle_ticks: if stepping {
                now
            } else {
                self.cycle_ticks
            },
            refresh_ticks: if refreshing {
                now
            } else {
                self.refresh_ticks
            },
            ..self
        }
    }

    /// The stage after the pans of one turn: one for each arrow key held,
    /// in the order up, right, down, left.
    #[verifier::opaque]
    pub open spec fn pans(self, stage: Stage) -> Stage {
        stage.pan(self.up, Direction::Up).pan(self.right, Direction::Right).pan(
            self.down,
            Direction::Down,
        ).pan(self.left, Direction::Left)
    }
}

/// The stage after an event that does not end the loop. Plus and minus zoom,
/// and the world is shown again where the scale changed; F switches the
/// follow mode; nothing else touches the world.
#[verifier::opaque]
pub open spec fn event_stage(world: WorldView, event: Event) -> Stage {
    let stage = Stage { world, frames: Seq::empty() };
    match event {
        Event::KeyDown(Key::Plus) => {
            let (num, den) = (VIEW_ZOOM_PLUS.0 as int, VIEW_ZOOM_PLUS.1 as int);
            let zoomed = Stage { world: world.with_camera(world.camera.zoom(num, den)), ..stage };
            if world.camera.can_zoom(num, den) {
                zoomed.show()
            } else {
                zoomed
            }
        },
        Event::KeyDown(Key::Minus) => {
            let (num, den) = (VIEW_ZOOM_MINUS.0 as int, VIEW_ZOOM_MINUS.1 as int);
            let zoomed = Stage { world: world.with_camera(world.camera.zoom(num, den)), ..stage };
            if world.camera.can_zoom(num, den) {
                zoomed.show()
            } else {
                zoomed
            }
        },
        Event::KeyDown(Key::F) => Stage {
            world: world.with_camera(world.camera.toggle_follow()),
            ..stage
        },
        _ => stage,
    }
}

/// One turn of the loop at the time `now`, for one polled event.
///
/// An event that quits ends the loop at once and changes nothing. Any other
/// event is applied first. Then each cadence whose interval has passed fires
/// once and takes `now` as its new stamp: the pans, the step of the
/// automaton, the refresh of the window, in this order.
#[verifier::opaque]
pub open spec fn turn(
    controller: ControllerView,
    world: WorldView,
    event: Event,
    now: int,
) -> Turn {
    if quits(event) {
        Turn { controller, world, quit: true, frames: Seq::empty(), report: false }
    } else {
        let held = controller.hold(event);
        let s1 = event_stage(world, event);
        let moving = held.moves_due(s1.world, now);
        let s2 = if moving {
            held.pans(s1)
        } else {
            s1
        };
        let stepping = held.cycle_due(s2.world, now);
        let s3 = if stepping {
            s2.step()
        } else {
            s2
        };
        let refreshing = held.refresh_due(s3.world, now);
        let s4 = if refreshing {
            s3.refresh()
        } else {
            s3
        };
        Turn {
            controller: held.stamp(moving, stepping, refreshing, now),
            world: s4.world,
            quit: false,
            frames: s4.frames,
            report: refreshing,
        }
    }
}

/// A turn that does not quit, stage by stage.
proof fn lemma_turn_stages(
    controller: ControllerView,
    world: WorldView,
    event: Event,
    now: int,
    s2: Stage,
    s3: Stage,
    s4: Stage,
)
    requires
        !quits(event),
        s2 == if controller.hold(event).moves_due(event_stage(world, event).world, now) {
            controller.hold(event).pans(event_stage(world, event))
        } else {
            event_stage(world, event)
        },
        s3 == if controller.hold(event).cycle_due(s2.world, now) {
            s2.step()
        } else {
            s2
        },
        s4 == if controller.hold(event).refresh_due(s3.world, now) {
            s3.refresh()
        } else {
            s3
        },
    ensures
        turn(controller, world, event, now) == (Turn {
            controller: controller.hold(event).stamp(
                controller.hold(event).moves_due(event_stage(world, event).world, now),
                controller.hold(event).cycle_due(s2.world, now),
                controller.hold(event).refresh_due(s3.world, now),
                now,
            ),
            world: s4.world,
            quit: false,
            frames: s4.frames,
            report: controller.hold(event).refresh_due(s3.world, now),
        }),
{
    reveal(turn);
}

/// The sizes and the ant stay what the world had; only the camera differs.
spec fn same_automaton(a: WorldView, b: WorldView) -> bool {
    &&& a.grid == b.grid
    &&& a.ant == b.ant
    &&& a.it == b.it
    &&& a.refresh_interval == b.refresh_interval
    &&& a.cycle_interval == b.cycle_interval
    &&& a.camera.map_width == b.camera.map_width
    &&& a.camera.map_height == b.camera.map_height
}

/// A pan moves the camera and nothing else.
proof fn lemma_pan_stage(stage: Stage, held: bool, direction: Direction)
    requires
        stage.world.wf(),
    ensures
        stage.pan(held, direction).world.wf(),
        same_automaton(stage.pan(held, direction).world, stage.world),
{
    lemma_pan(stage.world.camera, direction);
}

/// An event moves the camera and nothing else.
proof fn lemma_event_stage(world: WorldView, event: Event)
    requires
        world.wf(),
    ensures
        event_stage(world, event).world.wf(),
        same_automaton(event_stage(world, event).world, world),
{
    reveal(event_stage);
    let plus = (VIEW_ZOOM_PLUS.0 as int, VIEW_ZOOM_PLUS.1 as int);
    let minus = (VIEW_ZOOM_MINUS.0 as int, VIEW_ZOOM_MINUS.1 as int);
    lemma_zoom_progress(world.camera, plus.0, plus.1);
    lemma_zoom_out_floor(world.camera, minus.0, minus.1);
    if world.camera.can_zoom(plus.0, plus.1) {
        lemma_update_scale_wf(
            ViewportView { square_size: world.camera.zoomed_size(plus.0, plus.1), ..world.camera },
        );
    }
}

/// The pans of a turn move the camera and nothing else.
proof fn lemma_pans(controller: ControllerView, stage: Stage)
    requires
        stage.world.wf(),
    ensures
        controller.pans(stage).world.wf(),
        same_automaton(controller.pans(stage).world, stage.world),
{
    reveal(ControllerView::pans);
    let a = stage.pan(controller.up, Direction::Up);
    lemma_pan_stage(stage, controller.up, Direction::Up);
    let b = a.pan(controller.right, Direction::Right);
    lemma_pan_stage(a, controller.right, Direction::Right);
    let c = b.pan(controller.down, Direction::Down);
    lemma_pan_stage(b, controller.down, Direction::Down);
    lemma_pan_stage(c, controller.left, Direction::Left);
}

/// A refresh moves the camera and nothing else.
proof fn lemma_refresh(stage: Stage)
    requires
        stage.world.wf(),
    ensures
        stage.refresh().world.wf(),
        same_automaton(stage.refresh().world, stage.world),
{
    reveal(Stage::refresh);
    lemma_recenter_hysteresis(stage.world.camera, stage.world.ant.x, stage.world.ant.y);
}

/// A step keeps the world well formed and sees the grid, the ant and the
/// counter only.
proof fn lemma_step_stage(stage: Stage, world: WorldView)
    requires
        stage.world.wf(),
        same_automaton(stage.world, world),
    ensures
        stage.step().world.wf(),
        same_automaton(stage.step().world, world.step()),
{
    lemma_step_wf(stage.world);
}

/// The three cadences are independent of each other, of the event and of
/// the keys held. In a turn that does not quit, the automaton steps exactly
/// when its own interval has passed since its own stamp, the window is
/// refreshed exactly when its own interval has passed since its own stamp,
/// and each stamp that fires, and no other, is set to the time of the turn.
/// Nothing but the step touches the grid, the ant or the counter.
pub proof fn lemma_cadences_independent(
    controller: ControllerView,
    world: WorldView,
    event: Event,
    now: int,
)
    requires
        world.wf(),
        !quits(event),
    ensures
        ({
            let t = turn(controller, world, event, now);
            let stepping = elapsed(now, controller.cycle_ticks) >= world.cycle_interval;
            let refreshing = elapsed(now, controller.refresh_ticks) >= world.refresh_interval;
            let stepped = if stepping {
                world.step()
            } else {
                world
            };
            &&& t.world.wf()
            &&& !t.quit
            &&& t.report == refreshing
            &&& t.controller.cycle_ticks == if stepping {
                now
            } else {
                controller.cycle_ticks
            }
            &&& t.controller.refresh_ticks == if refreshing {
                now
            } else {
                controller.refresh_ticks
            }
            &&& t.world.grid == stepped.grid
            &&& t.world.ant == stepped.ant
            &&& t.world.it == stepped.it
        }),
{
    let held = controller.hold(event);
    let s1 = event_stage(world, event);
    lemma_event_stage(world, event);
    let s2 = if held.moves_due(s1.world, now) {
        held.pans(s1)
    } else {
        s1
    };
    lemma_pans(held, s1);
    let s3 = if held.cycle_due(s2.world, now) {
        s2.step()
    } else {
        s2
    };
    lemma_step_stage(s2, world);
    let s4 = if held.refresh_due(s3.world, now) {
        s3.refresh()
    } else {
        s3
    };
    lemma_refresh(s3);
    lemma_turn_stages(controller, world, event, now, s2, s3, s4);
}

/// A turn that quits changes nothing and shows nothing.
pub proof fn lemma_quit_changes_nothing(
    controller: ControllerView,
    world: WorldView,
    event: Event,
    now: int,
)
    requires
        quits(event),
    ensures
        turn(controller, world, event, now).quit,
        turn(controller, world, event, now).controller == controller,
        turn(controller, world, event, now).world == world,
        turn(controller, world, event, now).frames.len() == 0,
        !turn(controller, world, event, now).report,
{
    reveal(turn);
}

/// What a turn hands back to the loop.
pub struct Outcome {
    /// Whether the loop ends here.
    pub quit: bool,
    /// The pictures to show, first to last.
    pub frames: Vec<Vec<Square>>,
    /// Whether a status line is due after the last picture.
    pub report: bool,
}

/// The state of the control loop: three time stamps and the arrow keys held.
pub struct Controller {
    refresh_ticks: u64,
    cycle_ticks: u64,
    move_ticks: u64,
    up: bool,
    right: bool,
    down: bool,
    left: bool,
}

impl View for Controller {
    type V = ControllerView;

    closed spec fn view(&self) -> ControllerView {
        ControllerView {
            refresh_ticks: self.refresh_ticks as int,
            cycle_ticks: self.cycle_ticks as int,
            move_ticks: self.move_ticks as int,
            up: self.up,
            right: self.right,
            down: self.down,
            left: self.left,
        }
    }
}

/// Adds the picture of the world as it is to the pictures of a turn.
fn show(world: &World, frames: &mut Vec<Vec<Square>>)
    requires
        world.wf(),
    ensures
        final(frames).deep_view() == old(frames).deep_view().push(world@.picture()),
{
    let picture = world.draw_world();
    frames.push(picture);
}

/// Pans in one direction where its key is held, and shows the world again.
fn pan(world: &mut World, frames: &mut Vec<Vec<Square>>, held: bool, direction: Direction)
    requires
        old(world).wf(),
        !old(world)@.camera.follow_ant,
    ensures
        final(world).wf(),
        !final(world)@.camera.follow_ant,
        (Stage { world: final(world)@, frames: final(frames).deep_view() }) == (Stage {
            world: old(world)@,
            frames: old(frames).deep_view(),
        }).pan(held, direction),
{
    if held {
        if world.move_view(direction) {
            show(world, frames);
        }
    }
}

impl Controller {
    /// The state a loop starts with.
    pub fn new() -> (c: Controller)
        ensures
            c@ == ControllerView::initial(),
    {
        Controller {
            refresh_ticks: 0,
            cycle_ticks: 0,
            move_ticks: 0,
            up: false,
            right: false,
            down: false,
            left: false,
        }
    }

    /// What is shown before the first turn: the picture of the world as it
    /// was made. After it is taken the camera is centred on the ant, if it
    /// follows the ant.
    pub fn start(world: &mut World) -> (first: Vec<Square>)
        requires
            old(world).wf(),
        ensures
            final(world).wf(),
            first.deep_view() == old(world)@.picture(),
            final(world)@ == if old(world)@.camera.follow_ant {
                old(world)@.with_camera(
                    old(world)@.camera.center_on(old(world)@.ant.x, old(world)@.ant.y),
                )
            } else {
                old(world)@
            },
    {
        let first = world.draw_world();
        if world.camera().follow_ant() {
            world.set_view_above_ant();
        }
        first
    }

    /// Applies what an event means for the keys held.
    fn hold(&mut self, event: Event)
        ensures
            final(self)@ == old(self)@.hold(event),
    {
        match event {
            Event::KeyDown(Key::Up) => {
                self.up = true;
            },
            Event::KeyDown(Key::Down) => {
                self.down = true;
            },
            Event::KeyDown(Key::Left) => {
                self.left = true;
            },
            Event::KeyDown(Key::Right) => {
                self.right = true;
            },
            Event::KeyUp(Key::Up) => {
                self.up = false;
            },
            Event::KeyUp(Key::Down) => {
                self.down = false;
            },
            Event::KeyUp(Key::Left) => {
                self.left = false;
            },
            Event::KeyUp(Key::Right) => {
                self.right = false;
            },
            _ => {},
        }
    }

    /// Applies what an event means for the world.
    fn apply(world: &mut World, event: Event) -> (frames: Vec<Vec<Square>>)
        requires
            old(world).wf(),
        ensures
            final(world).wf(),
            (Stage { world: final(world)@, frames: frames.deep_view() }) == event_stage(
                old(world)@,
                event,
            ),
    {
        let mut frames: Vec<Vec<Square>> = Vec::new();
        proof {
            reveal(event_stage);
            assert(frames.deep_view() =~= Seq::<Seq<SquareView>>::empty());
        }
        match event {
            Event::KeyDown(Key::Plus) => {
                if world.zoom(VIEW_ZOOM_PLUS.0, VIEW_ZOOM_PLUS.1) {
                    show(world, &mut frames);
                }
            },
            Event::KeyDown(Key::Minus) => {
                if world.zoom(VIEW_ZOOM_MINUS.0, VIEW_ZOOM_MINUS.1) {
                    show(world, &mut frames);
                }
            },
            Event::KeyDown(Key::F) => {
                world.toggle_follow();
            },
            _ => {},
        }
        frames
    }

    /// Pans once for each arrow key held, in the order up, right, down, left.
    fn pans(&self, world: &mut World, frames: &mut Vec<Vec<Square>>)
        requires
            old(world).wf(),
            !old(world)@.camera.follow_ant,
        ensures
            final(world).wf(),
            (Stage { world: final(world)@, frames: final(frames).deep_view() }) == self@.pans(
                Stage { world: old(world)@, frames: old(frames).deep_view() },
            ),
    {
        proof {
            reveal(ControllerView::pans);
        }
        pan(world, frames, self.up, Direction::Up);
        pan(world, frames, self.right, Direction::Right);
        pan(world, frames, self.down, Direction::Down);
        pan(world, frames, self.left, Direction::Left);
    }

    /// Centres a following camera on the ant and shows the world.
    fn refresh(world: &mut World, frames: &mut Vec<Vec<Square>>)
        requires
            old(world).wf(),
        ensures
            final(world).wf(),
            (Stage { world: final(world)@, frames: final(frames).deep_view() }) == (Stage {
                world: old(world)@,
                frames: old(frames).deep_view(),
            }).refresh(),
    {
        proof {
            reveal(Stage::refresh);
        }
        if world.camera().follow_ant() {
            world.set_view_above_ant();
        }
        show(world, frames);
    }

    /// Whether the camera pans at `now`.
    fn moves_due(&self, world: &World, now: u64) -> (due: bool)
        ensures
            due == self@.moves_due(world@, now as int),
    {
        !world.camera().follow_ant() && now.wrapping_sub(self.move_ticks) > MOVE_INTERVAL
    }

    /// Whether the automaton steps at `now`.
    fn cycle_due(&self, world: &World, now: u64) -> (due: bool)
        ensures
            due == self@.cycle_due(world@, now as int),
    {
        now.wrapping_sub(self.cycle_ticks) >= world.cycle_interval()
    }

    /// Whether the window is refreshed at `now`.
    fn refresh_due(&self, world: &World, now: u64) -> (due: bool)
        ensures
            due == self@.refresh_due(world@, now as int),
    {
        now.wrapping_sub(self.refresh_ticks) >= world.refresh_interval()
    }

    /// Takes `now` as the stamp of each cadence that fired.
    fn stamp(&mut self, moving: bool, stepping: bool, refreshing: bool, now: u64)
        ensures
            final(self)@ == old(self)@.stamp(moving, stepping, refreshing, now as int),
    {
        if moving {
            self.move_ticks = now;
        }
        if stepping {
            self.cycle_ticks = now;
        }
        if refreshing {
            self.refresh_ticks = now;
        }
    }

    /// One turn of the loop: see [`turn`].
    pub fn turn(&mut self, world: &mut World, event: Event, now: u64) -> (out: Outcome)
        requires
            old(world).wf(),
        ensures
            final(world).wf(),
            final(self)@ == turn(old(self)@, old(world)@, event, now as int).controller,
            final(world)@ == turn(old(self)@, old(world)@, event, now as int).world,
            out.quit == turn(old(self)@, old(world)@, event, now as int).quit,
            out.frames.deep_view() == turn(old(self)@, old(world)@, event, now as int).frames,
            out.report == turn(old(self)@, old(world)@, event, now as int).report,
    {
        match event {
            Event::Quit | Event::KeyDown(Key::Escape) => {
                let frames: Vec<Vec<Square>> = Vec::new();
                proof {
                    lemma_quit_changes_nothing(self@, world@, event, now as int);
                    assert(frames.deep_view() =~= Seq::<Seq<SquareView>>::empty());
                }
                return Outcome { quit: true, frames, report: false };
            },
            _ => {},
        }
        self.hold(event);
        let mut frames = Controller::apply(world, event);
        let moving = self.moves_due(world, now);
        if moving {
            self.pans(world, &mut frames);
        }
        let ghost s2 = Stage { world: world@, frames: frames.deep_view() };
        let stepping = self.cycle_due(world, now);
        if stepping {
            world.step();
        }
        let ghost s3 = Stage { world: world@, frames: frames.deep_view() };
        let refreshing = self.refresh_due(world, now);
        if refreshing {
            Controller::refresh(world, &mut frames);
        }
        let ghost s4 = Stage { world: world@, frames: frames.deep_view() };
        self.stamp(moving, stepping, refreshing, now);
        proof {
            lemma_turn_stages(old(self)@, old(world)@, event, now as int, s2, s3, s4);
        }
        Outcome { quit: false, frames, report: refreshing }
    }
}

} // verus!
