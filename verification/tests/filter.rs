use vimouse::engine::{jump_target, move_target, shifted, Engine, Mode, ScreenExtent, SpeedLevel};
use vimouse::event::{Action, Button, Event, Outcome, Point, Verdict, SEND_SETTLE_MS};
use vimouse::keys::{bind, direction_of, grid_cell, Binding, Cell, Direction, GridLayout, Key};
use vimouse::scroll::ScrollDirection;

fn engine_at(x: i64, y: i64) -> Engine {
    Engine::start(ScreenExtent::new(1920, 1080), GridLayout::ThreeByFour, Some(Point { x, y }))
}

fn consumed(action: Action) -> Outcome {
    Outcome { verdict: Verdict::Consumed, action }
}

fn forwarded(event: Event) -> Outcome {
    Outcome { verdict: Verdict::Forwarded(event), action: Action::Nothing }
}

const DIRECTION_KEYS: [(Key, i64, i64); 8] = [
    (Key::KeyH, -1, 0),
    (Key::KeyL, 1, 0),
    (Key::KeyJ, 0, 1),
    (Key::KeyK, 0, -1),
    (Key::KeyY, -1, -1),
    (Key::KeyU, 1, -1),
    (Key::KeyB, -1, 1),
    (Key::KeyN, 1, 1),
];

#[test]
fn start_uses_seen_pointer_or_screen_center() {
    let seen = Engine::start(ScreenExtent::new(1920, 1080), GridLayout::ThreeByFour, Some(Point { x: 7, y: 9 }));
    assert_eq!(seen.cursor, Point { x: 7, y: 9 });
    assert_eq!(seen.speed, SpeedLevel::Normal);
    assert_eq!(seen.mode, Mode::Pointer);
    assert_eq!(seen.screen, ScreenExtent { width: 1920, height: 1080 });
    assert_eq!(seen.layout, GridLayout::ThreeByFour);
    let unseen = Engine::start(ScreenExtent::new(1920, 1080), GridLayout::ThreeByThree, None);
    assert_eq!(unseen.cursor, Point { x: 960, y: 540 });
    assert_eq!(unseen.layout, GridLayout::ThreeByThree);
}

#[test]
fn screen_extent_is_held_to_u32() {
    assert_eq!(ScreenExtent::new(0, 0), ScreenExtent { width: 0, height: 0 });
    assert_eq!(ScreenExtent::new(2560, 1440), ScreenExtent { width: 2560, height: 1440 });
    assert_eq!(
        ScreenExtent::new(u64::MAX, 4_294_967_296),
        ScreenExtent { width: u32::MAX, height: u32::MAX }
    );
    assert_eq!(ScreenExtent::new(4_294_967_295, 1).width, u32::MAX);
    assert_eq!(ScreenExtent::new(1921, 1081).center(), Point { x: 960, y: 540 });
}

#[test]
fn speed_scalars() {
    assert_eq!(SpeedLevel::Slow.scalar(), 5);
    assert_eq!(SpeedLevel::Normal.scalar(), 40);
    assert_eq!(SpeedLevel::Fast.scalar(), 150);
}

#[test]
fn direction_table_and_vectors() {
    assert_eq!(direction_of(Key::KeyH), Some(Direction::West));
    assert_eq!(direction_of(Key::KeyL), Some(Direction::East));
    assert_eq!(direction_of(Key::KeyJ), Some(Direction::South));
    assert_eq!(direction_of(Key::KeyK), Some(Direction::North));
    assert_eq!(direction_of(Key::KeyY), Some(Direction::NorthWest));
    assert_eq!(direction_of(Key::KeyU), Some(Direction::NorthEast));
    assert_eq!(direction_of(Key::KeyB), Some(Direction::SouthWest));
    assert_eq!(direction_of(Key::KeyN), Some(Direction::SouthEast));
    assert_eq!(direction_of(Key::KeyQ), None);
    assert_eq!(direction_of(Key::Other), None);
    for (key, dx, dy) in DIRECTION_KEYS {
        assert_eq!(direction_of(key).unwrap().vector(), (dx, dy));
    }
}

#[test]
fn cardinal_directions_scroll_and_diagonals_do_not() {
    assert_eq!(Direction::West.scroll(), Some(ScrollDirection::Left));
    assert_eq!(Direction::East.scroll(), Some(ScrollDirection::Right));
    assert_eq!(Direction::South.scroll(), Some(ScrollDirection::Down));
    assert_eq!(Direction::North.scroll(), Some(ScrollDirection::Up));
    assert_eq!(Direction::NorthEast.scroll(), None);
    assert_eq!(Direction::NorthWest.scroll(), None);
    assert_eq!(Direction::SouthEast.scroll(), None);
    assert_eq!(Direction::SouthWest.scroll(), None);
}

#[test]
fn grid_table_by_layout() {
    assert_eq!(GridLayout::ThreeByThree.columns(), 3);
    assert_eq!(GridLayout::ThreeByFour.columns(), 4);
    assert_eq!(GridLayout::ThreeByThree.rows(), 3);
    assert_eq!(GridLayout::ThreeByFour.rows(), 3);
    let rows = [
        [Key::KeyQ, Key::KeyW, Key::KeyE, Key::KeyR],
        [Key::KeyA, Key::KeyS, Key::KeyD, Key::KeyF],
        [Key::KeyZ, Key::KeyX, Key::KeyC, Key::KeyV],
    ];
    for (row, keys) in rows.iter().enumerate() {
        for (col, key) in keys.iter().enumerate() {
            let cell = Cell { col: col as u8, row: row as u8 };
            assert_eq!(grid_cell(GridLayout::ThreeByFour, *key), Some(cell));
            let narrow = if col < 3 { Some(cell) } else { None };
            assert_eq!(grid_cell(GridLayout::ThreeByThree, *key), narrow);
        }
    }
    assert_eq!(grid_cell(GridLayout::ThreeByFour, Key::KeyH), None);
    assert_eq!(grid_cell(GridLayout::ThreeByFour, Key::Other), None);
}

#[test]
fn bindings_of_the_remaining_keys() {
    let layout = GridLayout::ThreeByFour;
    assert_eq!(bind(layout, Key::KeyU), Binding::Steer(Direction::NorthEast));
    assert_eq!(bind(layout, Key::KeyF), Binding::Jump(Cell { col: 3, row: 1 }));
    assert_eq!(bind(GridLayout::ThreeByThree, Key::KeyF), Binding::Unbound);
    assert_eq!(bind(layout, Key::Space), Binding::PrimaryClick);
    assert_eq!(bind(layout, Key::ControlLeft), Binding::SecondaryClick);
    assert_eq!(bind(layout, Key::ControlRight), Binding::SecondaryClick);
    assert_eq!(bind(layout, Key::CapsLock), Binding::SecondaryClick);
    assert_eq!(bind(layout, Key::Escape), Binding::Exit);
    assert_eq!(bind(layout, Key::ShiftLeft), Binding::Slow);
    assert_eq!(bind(layout, Key::ShiftRight), Binding::Slow);
    assert_eq!(bind(layout, Key::Alt), Binding::Fast);
    assert_eq!(bind(layout, Key::KeyG), Binding::ScrollHold);
    assert_eq!(bind(layout, Key::KeyT), Binding::ScrollToggle);
    assert_eq!(bind(layout, Key::Other), Binding::Unbound);
}

#[test]
fn direction_keys_move_by_speed_in_pointer_mode() {
    for speed in [SpeedLevel::Slow, SpeedLevel::Normal, SpeedLevel::Fast] {
        for (key, dx, dy) in DIRECTION_KEYS {
            let mut engine = engine_at(300, -200);
            engine.speed = speed;
            let target = Point { x: 300 + dx * speed.scalar(), y: -200 + dy * speed.scalar() };
            let outcome = engine.filter(Event::KeyPress(key));
            assert_eq!(outcome, consumed(Action::MoveTo(target)));
            assert_eq!(engine.cursor, target);
            assert_eq!(engine.speed, speed);
            assert_eq!(engine.mode, Mode::Pointer);
        }
    }
}

#[test]
fn move_target_exact_values() {
    let from = Point { x: 100, y: 100 };
    assert_eq!(move_target(from, Direction::North, SpeedLevel::Normal), Point { x: 100, y: 60 });
    assert_eq!(move_target(from, Direction::SouthWest, SpeedLevel::Slow), Point { x: 95, y: 105 });
    assert_eq!(move_target(from, Direction::East, SpeedLevel::Fast), Point { x: 250, y: 100 });
}

#[test]
fn moves_stop_at_the_ends_of_the_coordinate_range() {
    assert_eq!(shifted(i64::MAX - 10, 40), i64::MAX);
    assert_eq!(shifted(i64::MIN + 10, -40), i64::MIN);
    assert_eq!(shifted(i64::MAX - 40, 40), i64::MAX);
    assert_eq!(shifted(i64::MAX - 41, 40), i64::MAX - 1);
    assert_eq!(shifted(5, -40), -35);
    let mut engine = engine_at(i64::MAX - 3, i64::MIN + 3);
    let outcome = engine.filter(Event::KeyPress(Key::KeyU));
    let corner = Point { x: i64::MAX, y: i64::MIN };
    assert_eq!(outcome, consumed(Action::MoveTo(corner)));
    assert_eq!(engine.cursor, corner);
}

#[test]
fn grid_jump_three_by_three_on_1200_by_900() {
    let screen = ScreenExtent::new(1200, 900);
    let mut engine = Engine::start(screen, GridLayout::ThreeByThree, None);
    assert_eq!(grid_cell(GridLayout::ThreeByThree, Key::KeyS), Some(Cell { col: 1, row: 1 }));
    let outcome = engine.filter(Event::KeyPress(Key::KeyS));
    assert_eq!(outcome, consumed(Action::MoveTo(Point { x: 600, y: 450 })));
    assert_eq!(engine.cursor, Point { x: 600, y: 450 });
    assert_eq!(grid_cell(GridLayout::ThreeByThree, Key::KeyQ), Some(Cell { col: 0, row: 0 }));
    let outcome = engine.filter(Event::KeyPress(Key::KeyQ));
    assert_eq!(outcome, consumed(Action::MoveTo(Point { x: 200, y: 150 })));
    assert_eq!(engine.cursor, Point { x: 200, y: 150 });
    let outcome = engine.filter(Event::KeyPress(Key::KeyC));
    assert_eq!(outcome, consumed(Action::MoveTo(Point { x: 1000, y: 750 })));
}

#[test]
fn grid_jump_three_by_four_targets() {
    let screen = ScreenExtent::new(1920, 1080);
    let layout = GridLayout::ThreeByFour;
    assert_eq!(jump_target(screen, layout, Cell { col: 0, row: 0 }), Point { x: 240, y: 180 });
    assert_eq!(jump_target(screen, layout, Cell { col: 3, row: 2 }), Point { x: 1680, y: 900 });
    assert_eq!(jump_target(screen, layout, Cell { col: 2, row: 1 }), Point { x: 1200, y: 540 });
    let odd = ScreenExtent::new(1366, 768);
    assert_eq!(jump_target(odd, layout, Cell { col: 1, row: 1 }), Point { x: 511, y: 384 });
    assert_eq!(jump_target(odd, GridLayout::ThreeByThree, Cell { col: 2, row: 0 }), Point { x: 1137, y: 128 });
}

#[test]
fn grid_jump_works_in_scroll_mode_too() {
    let mut engine = engine_at(1, 1);
    engine.mode = Mode::Scroll;
    let outcome = engine.filter(Event::KeyPress(Key::KeyV));
    assert_eq!(outcome, consumed(Action::MoveTo(Point { x: 1680, y: 900 })));
    assert_eq!(engine.cursor, Point { x: 1680, y: 900 });
    assert_eq!(engine.mode, Mode::Scroll);
}

#[test]
fn unread_screen_sends_every_jump_to_the_origin() {
    let mut engine = Engine::start(ScreenExtent::new(0, 0), GridLayout::ThreeByFour, None);
    assert_eq!(engine.cursor, Point { x: 0, y: 0 });
    for key in [Key::KeyQ, Key::KeyS, Key::KeyV] {
        engine.cursor = Point { x: 5, y: 5 };
        let outcome = engine.filter(Event::KeyPress(key));
        assert_eq!(outcome, consumed(Action::MoveTo(Point { x: 0, y: 0 })));
        assert_eq!(engine.cursor, Point { x: 0, y: 0 });
    }
}

#[test]
fn fourth_column_passes_through_in_three_column_layout() {
    let mut engine = Engine::start(ScreenExtent::new(1200, 900), GridLayout::ThreeByThree, None);
    let before = engine;
    for key in [Key::KeyR, Key::KeyF, Key::KeyV] {
        assert_eq!(engine.filter(Event::KeyPress(key)), forwarded(Event::KeyPress(key)));
        assert_eq!(engine, before);
    }
}

#[test]
fn click_keys_press_and_release_buttons() {
    let mut engine = engine_at(10, 10);
    let before = engine;
    assert_eq!(engine.filter(Event::KeyPress(Key::Space)), consumed(Action::ButtonDown(Button::Left)));
    assert_eq!(engine.filter(Event::KeyRelease(Key::Space)), consumed(Action::ButtonUp(Button::Left)));
    for key in [Key::ControlLeft, Key::ControlRight, Key::CapsLock] {
        assert_eq!(engine.filter(Event::KeyPress(key)), consumed(Action::ButtonDown(Button::Right)));
        assert_eq!(engine.filter(Event::KeyRelease(key)), consumed(Action::ButtonUp(Button::Right)));
    }
    assert_eq!(engine, before);
}

#[test]
fn exit_key_asks_for_the_end() {
    let mut engine = engine_at(10, 10);
    let before = engine;
    assert_eq!(engine.filter(Event::KeyPress(Key::Escape)), consumed(Action::Exit));
    assert_eq!(engine.filter(Event::KeyRelease(Key::Escape)), forwarded(Event::KeyRelease(Key::Escape)));
    assert_eq!(engine, before);
}

#[test]
fn toggle_twice_returns_to_the_mode_before() {
    for mode in [Mode::Pointer, Mode::Scroll] {
        let mut engine = engine_at(0, 0);
        engine.mode = mode;
        let before = engine;
        assert_eq!(engine.filter(Event::KeyPress(Key::KeyT)), consumed(Action::Nothing));
        assert_eq!(engine.mode, mode.toggled());
        assert_ne!(engine.mode, mode);
        assert_eq!(engine.filter(Event::KeyRelease(Key::KeyT)), forwarded(Event::KeyRelease(Key::KeyT)));
        assert_eq!(engine.filter(Event::KeyPress(Key::KeyT)), consumed(Action::Nothing));
        assert_eq!(engine, before);
    }
}

#[test]
fn hold_and_release_returns_to_pointer_whatever_was_toggled() {
    for toggles in 0..3 {
        let mut engine = engine_at(0, 0);
        for _ in 0..toggles {
            engine.filter(Event::KeyPress(Key::KeyT));
        }
        assert_eq!(engine.filter(Event::KeyPress(Key::KeyG)), consumed(Action::Nothing));
        assert_eq!(engine.mode, Mode::Scroll);
        assert_eq!(engine.filter(Event::KeyRelease(Key::KeyG)), consumed(Action::Nothing));
        assert_eq!(engine.mode, Mode::Pointer);
    }
}

#[test]
fn speed_modifiers_set_and_reset() {
    let mut engine = engine_at(0, 0);
    assert_eq!(engine.speed.scalar(), 40);
    assert_eq!(engine.filter(Event::KeyPress(Key::ShiftLeft)), forwarded(Event::KeyPress(Key::ShiftLeft)));
    assert_eq!(engine.speed, SpeedLevel::Slow);
    assert_eq!(engine.speed.scalar(), 5);
    assert_eq!(engine.filter(Event::KeyRelease(Key::ShiftLeft)), forwarded(Event::KeyRelease(Key::ShiftLeft)));
    assert_eq!(engine.speed.scalar(), 40);
    engine.filter(Event::KeyPress(Key::ShiftRight));
    assert_eq!(engine.speed.scalar(), 5);
    assert_eq!(engine.filter(Event::KeyPress(Key::Alt)), forwarded(Event::KeyPress(Key::Alt)));
    assert_eq!(engine.speed, SpeedLevel::Fast);
    assert_eq!(engine.speed.scalar(), 150);
    assert_eq!(engine.filter(Event::KeyRelease(Key::Alt)), forwarded(Event::KeyRelease(Key::Alt)));
    assert_eq!(engine.speed, SpeedLevel::Normal);
    assert_eq!(engine.speed.scalar(), 40);
    engine.filter(Event::KeyRelease(Key::ShiftRight));
    assert_eq!(engine.speed.scalar(), 40);
}

#[test]
fn slow_and_fast_speed_change_the_step() {
    let mut engine = engine_at(500, 500);
    engine.filter(Event::KeyPress(Key::ShiftLeft));
    assert_eq!(engine.filter(Event::KeyPress(Key::KeyL)), consumed(Action::MoveTo(Point { x: 505, y: 500 })));
    engine.filter(Event::KeyPress(Key::Alt));
    assert_eq!(engine.filter(Event::KeyPress(Key::KeyJ)), consumed(Action::MoveTo(Point { x: 505, y: 650 })));
    engine.filter(Event::KeyRelease(Key::Alt));
    assert_eq!(engine.filter(Event::KeyPress(Key::KeyY)), consumed(Action::MoveTo(Point { x: 465, y: 610 })));
}

#[test]
fn pointer_moves_change_only_the_estimate() {
    for mode in [Mode::Pointer, Mode::Scroll] {
        for speed in [SpeedLevel::Slow, SpeedLevel::Normal, SpeedLevel::Fast] {
            let mut engine = engine_at(1, 2);
            engine.mode = mode;
            engine.speed = speed;
            let event = Event::PointerMove { x: 77, y: -5 };
            assert_eq!(engine.filter(event), forwarded(event));
            let once = engine;
            assert_eq!(engine.filter(event), forwarded(event));
            assert_eq!(engine, once);
            assert_eq!(engine.cursor, Point { x: 77, y: -5 });
            assert_eq!(engine.mode, mode);
            assert_eq!(engine.speed, speed);
            assert_eq!(engine.screen, ScreenExtent { width: 1920, height: 1080 });
        }
    }
}

#[test]
fn observed_position_is_where_the_next_move_starts() {
    let mut engine = engine_at(0, 0);
    engine.filter(Event::PointerMove { x: 1000, y: 1000 });
    assert_eq!(engine.filter(Event::KeyPress(Key::KeyK)), consumed(Action::MoveTo(Point { x: 1000, y: 960 })));
    assert_eq!(engine.filter(Event::KeyPress(Key::KeyK)), consumed(Action::MoveTo(Point { x: 1000, y: 920 })));
}

#[test]
fn scroll_mode_direction_keys() {
    let mut engine = engine_at(50, 50);
    engine.filter(Event::KeyPress(Key::KeyG));
    let held = engine;
    assert_eq!(engine.filter(Event::KeyPress(Key::KeyH)), consumed(Action::Scroll(ScrollDirection::Left)));
    assert_eq!(engine.filter(Event::KeyPress(Key::KeyL)), consumed(Action::Scroll(ScrollDirection::Right)));
    assert_eq!(engine.filter(Event::KeyPress(Key::KeyJ)), consumed(Action::Scroll(ScrollDirection::Down)));
    assert_eq!(engine.filter(Event::KeyPress(Key::KeyK)), consumed(Action::Scroll(ScrollDirection::Up)));
    for key in [Key::KeyY, Key::KeyU, Key::KeyB, Key::KeyN] {
        assert_eq!(engine.filter(Event::KeyPress(key)), consumed(Action::Nothing));
    }
    assert_eq!(engine, held);
}

#[test]
fn unknown_keys_and_other_events_pass_through() {
    let mut engine = engine_at(3, 4);
    let before = engine;
    assert_eq!(engine.filter(Event::KeyPress(Key::Other)), forwarded(Event::KeyPress(Key::Other)));
    assert_eq!(engine.filter(Event::KeyRelease(Key::Other)), forwarded(Event::KeyRelease(Key::Other)));
    assert_eq!(engine.filter(Event::Other), forwarded(Event::Other));
    for (key, _, _) in DIRECTION_KEYS {
        assert_eq!(engine.filter(Event::KeyRelease(key)), forwarded(Event::KeyRelease(key)));
    }
    assert_eq!(engine.filter(Event::KeyRelease(Key::KeyQ)), forwarded(Event::KeyRelease(Key::KeyQ)));
    assert_eq!(engine.filter(Event::KeyRelease(Key::KeyT)), forwarded(Event::KeyRelease(Key::KeyT)));
    assert_eq!(engine, before);
}

#[test]
fn press_and_release_handlers_agree_with_filter() {
    let mut a = engine_at(9, 9);
    let mut b = a;
    for key in [Key::KeyN, Key::KeyG, Key::KeyH, Key::Space, Key::ShiftLeft, Key::KeyD, Key::Other] {
        assert_eq!(a.on_press(key), b.filter(Event::KeyPress(key)));
        assert_eq!(a, b);
        assert_eq!(a.on_release(key), b.filter(Event::KeyRelease(key)));
        assert_eq!(a, b);
    }
}

#[test]
fn outcome_is_consumed() {
    assert!(consumed(Action::Nothing).is_consumed());
    assert!(consumed(Action::Exit).is_consumed());
    assert!(!forwarded(Event::Other).is_consumed());
}

#[test]
fn sender_rests_five_milliseconds() {
    assert_eq!(SEND_SETTLE_MS, 5);
}
