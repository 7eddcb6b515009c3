//! What holds of the filter over every state and every event.

use vstd::prelude::*;

use crate::engine::{grid_target, steer_target, stretch_middle, Engine, Mode, ScreenExtent, SpeedLevel};
use crate::event::{Action, Event, Outcome, Point, Verdict};
use crate::keys::{binding, direction_table, grid_position, grid_table, Binding, Cell, Direction, GridLayout, Key};

verus! {

/// In pointer mode a direction key moves the pointer by the speed's pixels
/// along the key's unit vector, and the estimate is exactly the point that
/// the move was sent to. Speed and mode stay as they are. This holds
/// wherever the target's coordinates are within `i64`.
pub proof fn lemma_steer_moves_by_speed(engine: Engine, key: Key, direction: Direction)
    requires
        engine.mode == Mode::Pointer,
        direction_table(key) == Some(direction),
        i64::MIN <= engine.cursor.x + direction.unit_x() * engine.speed.scalar_spec() <= i64::MAX,
        i64::MIN <= engine.cursor.y + direction.unit_y() * engine.speed.scalar_spec() <= i64::MAX,
    ensures
        engine.answer(Event::KeyPress(key)).verdict == Verdict::Consumed,
        engine.answer(Event::KeyPress(key)).action == Action::MoveTo(
            engine.next(Event::KeyPress(key)).cursor,
        ),
        engine.next(Event::KeyPress(key)).cursor.x == engine.cursor.x + direction.unit_x()
            * engine.speed.scalar_spec(),
        engine.next(Event::KeyPress(key)).cursor.y == engine.cursor.y + direction.unit_y()
            * engine.speed.scalar_spec(),
        engine.next(Event::KeyPress(key)) == engine.with_cursor(
            engine.next(Event::KeyPress(key)).cursor,
        ),
{
}

/// Whenever the filter asks for a pointer move, the estimate afterwards is
/// the point that it asked for, and every other answer leaves the estimate
/// alone unless the event was a pointer move itself.
pub proof fn lemma_estimate_follows_moves(engine: Engine, event: Event)
    ensures
        engine.answer(event).action matches Action::MoveTo(target) ==> engine.next(event).cursor
            == target,
        !(engine.answer(event).action is MoveTo) && !(event is PointerMove) ==> engine.next(
            event,
        ).cursor == engine.cursor,
        event matches Event::PointerMove { x, y } ==> engine.next(event).cursor == (Point { x, y }),
{
}

/// Every direction has exactly one key, and the eight keys stand for eight
/// different directions.
pub proof fn lemma_direction_keys(first: Key, second: Key, direction: Direction)
    ensures
        exists|key: Key| direction_table(key) == Some(direction),
        direction_table(first).is_some() && direction_table(first) == direction_table(second)
            ==> first == second,
{
    let key = match direction {
        Direction::West => Key::KeyH,
        Direction::East => Key::KeyL,
        Direction::South => Key::KeyJ,
        Direction::North => Key::KeyK,
        Direction::NorthWest => Key::KeyY,
        Direction::NorthEast => Key::KeyU,
        Direction::SouthWest => Key::KeyB,
        Direction::SouthEast => Key::KeyN,
    };
    assert(direction_table(key) == Some(direction));
}

/// Under either layout every cell of the grid has exactly one key, and a
/// grid key's cell lies inside the layout.
pub proof fn lemma_grid_keys(layout: GridLayout, first: Key, second: Key, cell: Cell)
    ensures
        cell.within(layout) ==> exists|key: Key| grid_table(layout, key) == Some(cell),
        grid_table(layout, first) matches Some(c) ==> c.within(layout),
        grid_table(layout, first).is_some() && grid_table(layout, first) == grid_table(
            layout,
            second,
        ) ==> first == second,
{
    if cell.within(layout) {
        let key = if cell.row == 0 {
            if cell.col == 0 {
                Key::KeyQ
            } else if cell.col == 1 {
                Key::KeyW
            } else if cell.col == 2 {
                Key::KeyE
            } else {
                Key::KeyR
            }
        } else if cell.row == 1 {
            if cell.col == 0 {
                Key::KeyA
            } else if cell.col == 1 {
                Key::KeyS
            } else if cell.col == 2 {
                Key::KeyD
            } else {
                Key::KeyF
            }
        } else {
            if cell.col == 0 {
                Key::KeyZ
            } else if cell.col == 1 {
                Key::KeyX
            } else if cell.col == 2 {
                Key::KeyC
            } else {
                Key::KeyV
            }
        };
        assert(grid_position(key) == Some(cell));
        assert(grid_table(layout, key) == Some(cell));
    }
}

/// A grid key sends the pointer to the middle of its cell, whatever the mode
/// and the speed, and the estimate follows.
pub proof fn lemma_jump_goes_to_cell(engine: Engine, key: Key, cell: Cell)
    requires
        grid_table(engine.layout, key) == Some(cell),
    ensures
        engine.answer(Event::KeyPress(key)) == Outcome::consumed(
            Action::MoveTo(grid_target(engine.screen, engine.layout, cell)),
        ),
        engine.next(Event::KeyPress(key)) == engine.with_cursor(
            grid_target(engine.screen, engine.layout, cell),
        ),
{
}

/// The middle of a cell of the layout lies on the screen, and on a screen of
/// extent zero it is the origin.
pub proof fn lemma_jump_stays_on_screen(screen: ScreenExtent, layout: GridLayout, cell: Cell)
    requires
        cell.within(layout),
    ensures
        0 <= grid_target(screen, layout, cell).x <= screen.width,
        0 <= grid_target(screen, layout, cell).y <= screen.height,
        screen.width > 0 ==> grid_target(screen, layout, cell).x < screen.width,
        screen.height > 0 ==> grid_target(screen, layout, cell).y < screen.height,
        screen.width == 0 ==> grid_target(screen, layout, cell).x == 0,
        screen.height == 0 ==> grid_target(screen, layout, cell).y == 0,
{
    lemma_stretch_middle_inside(screen.width as int, layout.columns_spec(), cell.col as int);
    lemma_stretch_middle_inside(screen.height as int, layout.rows_spec(), cell.row as int);
}

/// The middle of a stretch lies inside the axis that was divided.
pub proof fn lemma_stretch_middle_inside(extent: int, parts: int, index: int)
    requires
        0 <= extent,
        0 <= index < parts,
    ensures
        0 <= stretch_middle(extent, parts, index) <= extent,
        extent > 0 ==> stretch_middle(extent, parts, index) < extent,
{
    let size = extent / parts;
    assert(0 <= size && size * parts <= extent) by (nonlinear_arith)
        requires
            size == extent / parts,
            0 <= extent,
            0 < parts,
    ;
    assert(0 <= index * size && index * size + size <= size * parts) by (nonlinear_arith)
        requires
            0 <= index < parts,
            0 <= size,
    ;
    assert(size == 0 ==> index * size == 0) by (nonlinear_arith);
}

/// Where the axis divides evenly into halves of stretches, the middle of a
/// stretch is exact: `(2 * index + 1) / (2 * parts)` of the extent.
pub proof fn lemma_stretch_middle_exact(extent: int, parts: int, index: int)
    requires
        0 <= extent,
        0 < parts,
        extent % (2 * parts) == 0,
    ensures
        stretch_middle(extent, parts, index) * (2 * parts) == (2 * index + 1) * extent,
{
    let half = extent / (2 * parts);
    assert(extent == half * (2 * parts)) by (nonlinear_arith)
        requires
            half == extent / (2 * parts),
            extent % (2 * parts) == 0,
            0 < parts,
    ;
    assert(extent == (2 * half) * parts) by (nonlinear_arith)
        requires
            extent == half * (2 * parts),
    ;
    assert(extent / parts == 2 * half) by (nonlinear_arith)
        requires
            extent == (2 * half) * parts,
            0 < parts,
    ;
    assert((index * (2 * half) + half) * (2 * parts) == (2 * index + 1) * (half * (2 * parts)))
        by (nonlinear_arith);
}

/// Two presses of the toggle key lead back to the mode before them, and to
/// the very same state, whether or not the key is released in between.
pub proof fn lemma_toggle_twice(engine: Engine, key: Key)
    requires
        binding(engine.layout, key) == Binding::ScrollToggle,
    ensures
        engine.next(Event::KeyPress(key)).mode != engine.mode,
        engine.next(Event::KeyPress(key)).next(Event::KeyPress(key)) == engine,
        engine.next(Event::KeyPress(key)).next(Event::KeyRelease(key)).next(
            Event::KeyPress(key),
        ).next(Event::KeyRelease(key)) == engine,
{
}

/// Holding the hold key means scroll mode, and letting it go means pointer
/// mode, whatever the mode was before.
pub proof fn lemma_hold_then_release(engine: Engine, key: Key)
    requires
        binding(engine.layout, key) == Binding::ScrollHold,
    ensures
        engine.next(Event::KeyPress(key)).mode == Mode::Scroll,
        engine.next(Event::KeyRelease(key)).mode == Mode::Pointer,
        engine.next(Event::KeyPress(key)).next(Event::KeyRelease(key)) == engine.with_mode(
            Mode::Pointer,
        ),
        engine.answer(Event::KeyPress(key)) == Outcome::consumed(Action::Nothing),
        engine.answer(Event::KeyRelease(key)) == Outcome::consumed(Action::Nothing),
{
}

/// The slow key sets 5 pixels per press while it is held and its release
/// sets 40 again. The fast key pressed meanwhile sets 150, and the release
/// of either key sets 40. The modifiers are passed on, never swallowed.
pub proof fn lemma_speed_modifiers(engine: Engine, slow: Key, fast: Key)
    requires
        binding(engine.layout, slow) == Binding::Slow,
        binding(engine.layout, fast) == Binding::Fast,
    ensures
        engine.next(Event::KeyPress(slow)).speed.scalar_spec() == 5,
        engine.next(Event::KeyPress(slow)).next(Event::KeyRelease(slow)).speed.scalar_spec() == 40,
        engine.next(Event::KeyPress(fast)).speed.scalar_spec() == 150,
        engine.next(Event::KeyPress(slow)).next(Event::KeyPress(fast)).speed.scalar_spec() == 150,
        engine.next(Event::KeyPress(slow)).next(Event::KeyPress(fast)).next(
            Event::KeyRelease(fast),
        ).speed.scalar_spec() == 40,
        engine.next(Event::KeyRelease(slow)).speed == SpeedLevel::Normal,
        engine.next(Event::KeyRelease(fast)).speed == SpeedLevel::Normal,
        engine.answer(Event::KeyPress(slow)) == Outcome::forwarded(Event::KeyPress(slow)),
        engine.answer(Event::KeyPress(fast)) == Outcome::forwarded(Event::KeyPress(fast)),
        engine.answer(Event::KeyRelease(slow)) == Outcome::forwarded(Event::KeyRelease(slow)),
        engine.answer(Event::KeyRelease(fast)) == Outcome::forwarded(Event::KeyRelease(fast)),
{
}

/// A pointer move that the engine observes is passed on and changes the
/// estimate only: speed, mode, screen and layout stay. The same move seen a
/// second time changes nothing at all.
pub proof fn lemma_pointer_moves_touch_only_the_estimate(engine: Engine, x: i64, y: i64)
    ensures
        engine.next(Event::PointerMove { x, y }) == engine.with_cursor(Point { x, y }),
        engine.next(Event::PointerMove { x, y }).speed == engine.speed,
        engine.next(Event::PointerMove { x, y }).mode == engine.mode,
        engine.next(Event::PointerMove { x, y }).next(Event::PointerMove { x, y }) == engine.next(
            Event::PointerMove { x, y },
        ),
        engine.answer(Event::PointerMove { x, y }) == Outcome::forwarded(
            Event::PointerMove { x, y },
        ),
        engine.next(Event::PointerMove { x, y }).answer(Event::PointerMove { x, y })
            == Outcome::forwarded(Event::PointerMove { x, y }),
{
}

/// A key without a binding, and any event that is neither a key nor a
/// pointer move, passes through and leaves the state as it was.
pub proof fn lemma_unknown_passes_through(engine: Engine, event: Event)
    requires
        match event {
            Event::KeyPress(key) | Event::KeyRelease(key) => binding(engine.layout, key)
                == Binding::Unbound,
            Event::Other => true,
            Event::PointerMove { .. } => false,
        },
    ensures
        engine.next(event) == engine,
        engine.answer(event) == Outcome::forwarded(event),
{
}

/// Every answer either swallows the event or passes on the very event that
/// came in and asks for nothing; and the screen and the layout never change.
pub proof fn lemma_answers_are_sound(engine: Engine, event: Event)
    ensures
        engine.answer(event).verdict == Verdict::Consumed || engine.answer(event)
            == Outcome::forwarded(event),
        engine.next(event).screen == engine.screen,
        engine.next(event).layout == engine.layout,
{
}

/// In scroll mode a direction key never moves the pointer: a cardinal key
/// starts a gesture along its own axis, a diagonal key does nothing, and
/// the key is swallowed either way.
pub proof fn lemma_scroll_mode_keys(engine: Engine, key: Key, direction: Direction)
    requires
        engine.mode == Mode::Scroll,
        direction_table(key) == Some(direction),
    ensures
        engine.next(Event::KeyPress(key)) == engine,
        engine.answer(Event::KeyPress(key)).verdict == Verdict::Consumed,
        direction.is_cardinal() ==> direction.scroll_spec().is_some() && engine.answer(
            Event::KeyPress(key),
        ).action == Action::Scroll(direction.scroll_spec().unwrap()),
        direction.is_cardinal() ==> direction.scroll_spec().unwrap().unit_x() == direction.unit_x()
            && direction.scroll_spec().unwrap().unit_y() == -direction.unit_y(),
        !direction.is_cardinal() ==> engine.answer(Event::KeyPress(key)).action == Action::Nothing,
{
}

} // verus!
