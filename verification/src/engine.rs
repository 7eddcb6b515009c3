//! The engine's state and the event filter that drives it.

use vstd::prelude::*;

use crate::event::{Action, Button, Event, Outcome, Point, Verdict};
use crate::keys::{bind, binding, Binding, Cell, Direction, GridLayout, Key};

verus! {

/// How far one press of a direction key moves the pointer.
#[derive(Clone, Copy, Debug, PartialEq, Eq, Structural)]
pub enum SpeedLevel {
    Slow,
    Normal,
    Fast,
}

impl SpeedLevel {
    /// The pixels per key press: 5, 40 or 150.
    pub open spec fn scalar_spec(self) -> int {
        match self {
            SpeedLevel::Slow => 5,
            SpeedLevel::Normal => 40,
            SpeedLevel::Fast => 150,
        }
    }

    /// The pixels per key press: 5, 40 or 150.
    pub fn scalar(self) -> (s: i64)
        ensures
            s == self.scalar_spec(),
    {
        match self {
            SpeedLevel::Slow => 5,
            SpeedLevel::Normal => 40,
            SpeedLevel::Fast => 150,
        }
    }
}

/// What the direction keys do.
#[derive(Clone, Copy, Debug, PartialEq, Eq, Structural)]
pub enum Mode {
    /// Direction keys move the pointer.
    Pointer,
    /// The four cardinal direction keys start scroll gestures.
    Scroll,
}

impl Mode {
    /// The other mode.
    pub open spec fn toggled_spec(self) -> Mode {
        match self {
            Mode::Pointer => Mode::Scroll,
            Mode::Scroll => Mode::Pointer,
        }
    }

    /// The other mode.
    pub fn toggled(self) -> (m: Mode)
        ensures
            m == self.toggled_spec(),
    {
        match self {
            Mode::Pointer => Mode::Scroll,
            Mode::Scroll => Mode::Pointer,
        }
    }
}

/// The size of the display in pixels, read once when the engine starts.
/// A display that could not be read has extent zero.
#[derive(Clone, Copy, Debug, PartialEq, Eq, Structural)]
pub struct ScreenExtent {
    pub width: u32,
    pub height: u32,
}

impl ScreenExtent {
    /// The extent of a display that reports `width` by `height` pixels. A
    /// side of more than `u32::MAX` pixels counts as `u32::MAX`.
    pub fn new(width: u64, height: u64) -> (screen: ScreenExtent)
        ensures
            screen.width == if width > u32::MAX { u32::MAX as int } else { width as int },
            screen.height == if height > u32::MAX { u32::MAX as int } else { height as int },
    {
        ScreenExtent {
            width: if width > 0xffff_ffff { 0xffff_ffff } else { width as u32 },
            height: if height > 0xffff_ffff { 0xffff_ffff } else { height as u32 },
        }
    }

    /// The middle of the screen.
    pub open spec fn center_spec(self) -> Point {
        Point { x: (self.width / 2) as i64, y: (self.height / 2) as i64 }
    }

    /// The middle of the screen: half the width, half the height.
    pub fn center(self) -> (p: Point)
        ensures
            p == self.center_spec(),
            p.x == self.width / 2,
            p.y == self.height / 2,
    {
        Point { x: (self.width / 2) as i64, y: (self.height / 2) as i64 }
    }
}

/// A coordinate held to the range of `i64`.
pub open spec fn saturate(v: int) -> i64 {
    if v > i64::MAX {
        i64::MAX
    } else if v < i64::MIN {
        i64::MIN
    } else {
        v as i64
    }
}

/// Where a direction key sends the pointer: from `cursor`, `speed` pixels
/// along each axis of `direction`'s unit vector. A coordinate that would
/// leave the range of `i64` stops at its end.
pub open spec fn steer_target(cursor: Point, direction: Direction, speed: SpeedLevel) -> Point {
    Point {
        x: saturate(cursor.x + direction.unit_x() * speed.scalar_spec()),
        y: saturate(cursor.y + direction.unit_y() * speed.scalar_spec()),
    }
}

/// The middle of one stretch of a divided axis: `extent` is cut into `parts`
/// stretches of `extent / parts` pixels, and the result is the start of
/// stretch `index` plus half a stretch.
pub open spec fn stretch_middle(extent: int, parts: int, index: int) -> int {
    index * (extent / parts) + (extent / parts) / 2
}

/// Where a grid key sends the pointer: the middle of its cell.
pub open spec fn grid_target(screen: ScreenExtent, layout: GridLayout, cell: Cell) -> Point {
    Point {
        x: stretch_middle(screen.width as int, layout.columns_spec(), cell.col as int) as i64,
        y: stretch_middle(screen.height as int, layout.rows_spec(), cell.row as int) as i64,
    }
}

/// Adds an offset to a coordinate, stopping at the ends of `i64`.
pub fn shifted(coordinate: i64, offset: i64) -> (r: i64)
    ensures
        r == saturate(coordinate + offset),
        i64::MIN <= coordinate + offset <= i64::MAX ==> r == coordinate + offset,
{
    if offset > 0 && coordinate > i64::MAX - offset {
        i64::MAX
    } else if offset < 0 && coordinate < i64::MIN - offset {
        i64::MIN
    } else {
        coordinate + offset
    }
}

/// Computes the target of a direction key.
pub fn move_target(cursor: Point, direction: Direction, speed: SpeedLevel) -> (target: Point)
    ensures
        target == steer_target(cursor, direction, speed),
{
    let (ux, uy): (i64, i64) = direction.vector();
    let step: i64 = speed.scalar();
    Point { x: shifted(cursor.x, ux * step), y: shifted(cursor.y, uy * step) }
}

/// Computes the target of a grid key: the middle of `cell`. On a screen of
/// extent zero every target is the origin.
pub fn jump_target(screen: ScreenExtent, layout: GridLayout, cell: Cell) -> (target: Point)
    ensures
        target == grid_target(screen, layout, cell),
        target.x == stretch_middle(screen.width as int, layout.columns_spec(), cell.col as int),
        target.y == stretch_middle(screen.height as int, layout.rows_spec(), cell.row as int),
{
    let cell_width: i64 = (screen.width / (layout.columns() as u32)) as i64;
    let cell_height: i64 = (screen.height / (layout.rows() as u32)) as i64;
    assert(0 <= (cell.col as int) * (cell_width as int) <= 255 * 0xffff_ffff) by (nonlinear_arith)
        requires
            0 <= cell.col <= 255,
            0 <= cell_width <= 0xffff_ffff,
    ;
    assert(0 <= (cell.row as int) * (cell_height as int) <= 255 * 0xffff_ffff) by (nonlinear_arith)
        requires
            0 <= cell.row <= 255,
            0 <= cell_height <= 0xffff_ffff,
    ;
    Point {
        x: (cell.col as i64) * cell_width + cell_width / 2,
        y: (cell.row as i64) * cell_height + cell_height / 2,
    }
}

/// Everything the filter remembers between two events.
#[derive(Clone, Copy, Debug, PartialEq, Eq, Structural)]
pub struct Engine {
    /// Where the pointer is believed to be: the last position that was
    /// observed or that the engine itself asked for.
    pub cursor: Point,
    pub speed: SpeedLevel,
    pub mode: Mode,
    pub screen: ScreenExtent,
    pub layout: GridLayout,
}

impl Engine {
    /// The state in which an engine starts: pointer mode at normal speed,
    /// with the pointer where it was seen, or in the middle of the screen if
    /// it was not seen.
    pub open spec fn initial(screen: ScreenExtent, layout: GridLayout, seen: Option<Point>) -> Engine {
        Engine {
            cursor: match seen {
                Some(p) => p,
                None => screen.center_spec(),
            },
            speed: SpeedLevel::Normal,
            mode: Mode::Pointer,
            screen,
            layout,
        }
    }

    /// The state with the pointer at `cursor`.
    pub open spec fn with_cursor(self, cursor: Point) -> Engine {
        Engine { cursor, ..self }
    }

    /// The state at `speed`.
    pub open spec fn with_speed(self, speed: SpeedLevel) -> Engine {
        Engine { speed, ..self }
    }

    /// The state in `mode`.
    pub open spec fn with_mode(self, mode: Mode) -> Engine {
        Engine { mode, ..self }
    }

    /// What a direction key does when it is pressed. In pointer mode the
    /// pointer moves and the estimate follows it. In scroll mode a cardinal
    /// key starts a gesture and a diagonal key does nothing. The key is
    /// swallowed in every case.
    pub open spec fn steer(self, direction: Direction) -> (Engine, Outcome) {
        match self.mode {
            Mode::Pointer => {
                let target = steer_target(self.cursor, direction, self.speed);
                (self.with_cursor(target), Outcome::consumed(Action::MoveTo(target)))
            },
            Mode::Scroll => match direction.scroll_spec() {
                Some(scroll) => (self, Outcome::consumed(Action::Scroll(scroll))),
                None => (self, Outcome::consumed(Action::Nothing)),
            },
        }
    }

    /// What the press of `key` does to the state, and the answer to it.
    pub open spec fn press(self, key: Key) -> (Engine, Outcome) {
        match binding(self.layout, key) {
            Binding::Steer(direction) => self.steer(direction),
            Binding::PrimaryClick => (self, Outcome::consumed(Action::ButtonDown(Button::Left))),
            Binding::SecondaryClick => (self, Outcome::consumed(Action::ButtonDown(Button::Right))),
            Binding::Jump(cell) => {
                let target = grid_target(self.screen, self.layout, cell);
                (self.with_cursor(target), Outcome::consumed(Action::MoveTo(target)))
            },
            Binding::Exit => (self, Outcome::consumed(Action::Exit)),
            Binding::Slow => (
                self.with_speed(SpeedLevel::Slow),
                Outcome::forwarded(Event::KeyPress(key)),
            ),
            Binding::Fast => (
                self.with_speed(SpeedLevel::Fast),
                Outcome::forwarded(Event::KeyPress(key)),
            ),
            Binding::ScrollHold => (self.with_mode(Mode::Scroll), Outcome::consumed(Action::Nothing)),
            Binding::ScrollToggle => (
                self.with_mode(self.mode.toggled_spec()),
                Outcome::consumed(Action::Nothing),
            ),
            Binding::Unbound => (self, Outcome::forwarded(Event::KeyPress(key))),
        }
    }

    /// What the release of `key` does to the state, and the answer to it.
    /// Only the keys that are held for an effect react to their release.
    pub open spec fn release(self, key: Key) -> (Engine, Outcome) {
        match binding(self.layout, key) {
            Binding::PrimaryClick => (self, Outcome::consumed(Action::ButtonUp(Button::Left))),
            Binding::SecondaryClick => (self, Outcome::consumed(Action::ButtonUp(Button::Right))),
            Binding::Slow | Binding::Fast => (
                self.with_speed(SpeedLevel::Normal),
                Outcome::forwarded(Event::KeyRelease(key)),
            ),
            Binding::ScrollHold => (self.with_mode(Mode::Pointer), Outcome::consumed(Action::Nothing)),
            _ => (self, Outcome::forwarded(Event::KeyRelease(key))),
        }
    }

    /// The state after `event` and the answer to it.
    pub open spec fn react(self, event: Event) -> (Engine, Outcome) {
        match event {
            Event::PointerMove { x, y } => (
                self.with_cursor(Point { x, y }),
                Outcome::forwarded(event),
            ),
            Event::KeyPress(key) => self.press(key),
            Event::KeyRelease(key) => self.release(key),
            Event::Other => (self, Outcome::forwarded(event)),
        }
    }

    /// The state after `event`.
    pub open spec fn next(self, event: Event) -> Engine {
        self.react(event).0
    }

    /// The answer to `event`.
    pub open spec fn answer(self, event: Event) -> Outcome {
        self.react(event).1
    }

    /// Starts an engine: pointer mode, normal speed, the pointer at `seen`
    /// or, where it could not be seen, in the middle of the screen.
    pub fn start(screen: ScreenExtent, layout: GridLayout, seen: Option<Point>) -> (engine: Engine)
        ensures
            engine == Engine::initial(screen, layout, seen),
    {
        let cursor = match seen {
            Some(p) => p,
            None => screen.center(),
        };
        Engine { cursor, speed: SpeedLevel::Normal, mode: Mode::Pointer, screen, layout }
    }

    /// Filters one event: updates the state and says whether the event is
    /// swallowed or passed on, and what is to be done in its place.
    ///
    /// An event that is passed on comes back unchanged and asks for nothing.
    /// The screen and the layout never change.
    pub fn filter(&mut self, event: Event) -> (outcome: Outcome)
        ensures
            *final(self) == old(self).next(event),
            outcome == old(self).answer(event),
            outcome.verdict == Verdict::Consumed || outcome == Outcome::forwarded(event),
            final(self).screen == old(self).screen,
            final(self).layout == old(self).layout,
    {
        match event {
            Event::PointerMove { x, y } => {
                self.cursor = Point { x, y };
                Outcome { verdict: Verdict::Forwarded(event), action: Action::Nothing }
            },
            Event::KeyPress(key) => self.on_press(key),
            Event::KeyRelease(key) => self.on_release(key),
            Event::Other => Outcome { verdict: Verdict::Forwarded(event), action: Action::Nothing },
        }
    }

    /// Handles the press of a key.
    pub fn on_press(&mut self, key: Key) -> (outcome: Outcome)
        ensures
            (*final(self), outcome) == old(self).press(key),
    {
        let pass = Outcome { verdict: Verdict::Forwarded(Event::KeyPress(key)), action: Action::Nothing };
        let action = match bind(self.layout, key) {
            Binding::Steer(direction) => match self.mode {
                Mode::Pointer => {
                    let target = move_target(self.cursor, direction, self.speed);
                    self.cursor = target;
                    Action::MoveTo(target)
                },
                Mode::Scroll => match direction.scroll() {
                    Some(scroll) => Action::Scroll(scroll),
                    None => Action::Nothing,
                },
            },
            Binding::PrimaryClick => Action::ButtonDown(Button::Left),
            Binding::SecondaryClick => Action::ButtonDown(Button::Right),
            Binding::Jump(cell) => {
                let target = jump_target(self.screen, self.layout, cell);
                self.cursor = target;
                Action::MoveTo(target)
            },
            Binding::Exit => Action::Exit,
            Binding::Slow => {
                self.speed = SpeedLevel::Slow;
                return pass;
            },
            Binding::Fast => {
                self.speed = SpeedLevel::Fast;
                return pass;
            },
            Binding::ScrollHold => {
                self.mode = Mode::Scroll;
                Action::Nothing
            },
            Binding::ScrollToggle => {
                self.mode = self.mode.toggled();
                Action::Nothing
            },
            Binding::Unbound => {
                return pass;
            },
        };
        Outcome { verdict: Verdict::Consumed, action }
    }

    /// Handles the release of a key.
    pub fn on_release(&mut self, key: Key) -> (outcome: Outcome)
        ensures
            (*final(self), outcome) == old(self).release(key),
    {
        let pass = Outcome { verdict: Verdict::Forwarded(Event::KeyRelease(key)), action: Action::Nothing };
        match bind(self.layout, key) {
            Binding::PrimaryClick => Outcome {
                verdict: Verdict::Consumed,
                action: Action::ButtonUp(Button::Left),
            },
            Binding::SecondaryClick => Outcome {
                verdict: Verdict::Consumed,
                action: Action::ButtonUp(Button::Right),
            },
            Binding::Slow | Binding::Fast => {
                self.speed = SpeedLevel::Normal;
                pass
            },
            Binding::ScrollHold => {
                self.mode = Mode::Pointer;
                Outcome { verdict: Verdict::Consumed, action: Action::Nothing }
            },
            _ => pass,
        }
    }
}

} // verus!
