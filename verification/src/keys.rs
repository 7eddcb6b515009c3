//! Key identities and the two fixed tables: compass directions and grid cells.

use vstd::prelude::*;

use crate::scroll::ScrollDirection;

verus! {

/// A physical key, as far as the engine tells keys apart. Every key that has
/// no binding in any layout is `Other`.
#[derive(Clone, Copy, Debug, PartialEq, Eq, Structural)]
pub enum Key {
    KeyH,
    KeyJ,
    KeyK,
    KeyL,
    KeyY,
    KeyU,
    KeyB,
    KeyN,
    Space,
    ControlLeft,
    ControlRight,
    CapsLock,
    KeyQ,
    KeyW,
    KeyE,
    KeyR,
    KeyA,
    KeyS,
    KeyD,
    KeyF,
    KeyZ,
    KeyX,
    KeyC,
    KeyV,
    Escape,
    ShiftLeft,
    ShiftRight,
    Alt,
    KeyG,
    KeyT,
    Other,
}

/// One of the eight compass directions on the screen. The screen's y axis
/// grows downward, so north is towards smaller y.
#[derive(Clone, Copy, Debug, PartialEq, Eq, Structural)]
pub enum Direction {
    North,
    NorthEast,
    East,
    SouthEast,
    South,
    SouthWest,
    West,
    NorthWest,
}

impl Direction {
    /// The x component of the direction's unit vector: -1, 0 or 1.
    pub open spec fn unit_x(self) -> int {
        match self {
            Direction::East | Direction::NorthEast | Direction::SouthEast => 1,
            Direction::West | Direction::NorthWest | Direction::SouthWest => -1,
            Direction::North | Direction::South => 0,
        }
    }

    /// The y component of the direction's unit vector: -1 (north), 0 or 1 (south).
    pub open spec fn unit_y(self) -> int {
        match self {
            Direction::South | Direction::SouthEast | Direction::SouthWest => 1,
            Direction::North | Direction::NorthEast | Direction::NorthWest => -1,
            Direction::East | Direction::West => 0,
        }
    }

    /// Whether the direction lies on one axis only.
    pub open spec fn is_cardinal(self) -> bool {
        self.unit_x() == 0 || self.unit_y() == 0
    }

    /// The scroll direction that a direction key stands for in scroll mode.
    /// Only the four cardinal directions scroll. The wheel's y axis is the
    /// reverse of the screen's: north scrolls up, which is a positive delta.
    pub open spec fn scroll_spec(self) -> Option<ScrollDirection> {
        match self {
            Direction::West => Some(ScrollDirection::Left),
            Direction::East => Some(ScrollDirection::Right),
            Direction::South => Some(ScrollDirection::Down),
            Direction::North => Some(ScrollDirection::Up),
            _ => None,
        }
    }

    /// The unit vector `(x, y)` of the direction.
    pub fn vector(self) -> (v: (i64, i64))
        ensures
            v.0 == self.unit_x(),
            v.1 == self.unit_y(),
    {
        match self {
            Direction::North => (0, -1),
            Direction::NorthEast => (1, -1),
            Direction::East => (1, 0),
            Direction::SouthEast => (1, 1),
            Direction::South => (0, 1),
            Direction::SouthWest => (-1, 1),
            Direction::West => (-1, 0),
            Direction::NorthWest => (-1, -1),
        }
    }

    /// The scroll direction of a cardinal direction, `None` for a diagonal.
    pub fn scroll(self) -> (s: Option<ScrollDirection>)
        ensures
            s == self.scroll_spec(),
            s.is_some() <==> self.is_cardinal(),
    {
        match self {
            Direction::West => Some(ScrollDirection::Left),
            Direction::East => Some(ScrollDirection::Right),
            Direction::South => Some(ScrollDirection::Down),
            Direction::North => Some(ScrollDirection::Up),
            _ => None,
        }
    }
}

/// How the screen is divided for grid jumps: three rows of three or of four
/// columns.
#[derive(Clone, Copy, Debug, PartialEq, Eq, Structural)]
pub enum GridLayout {
    ThreeByThree,
    ThreeByFour,
}

impl GridLayout {
    pub open spec fn columns_spec(self) -> int {
        match self {
            GridLayout::ThreeByThree => 3,
            GridLayout::ThreeByFour => 4,
        }
    }

    pub open spec fn rows_spec(self) -> int {
        3
    }

    /// The number of columns: 3 or 4.
    pub fn columns(self) -> (n: u8)
        ensures
            n == self.columns_spec(),
    {
        match self {
            GridLayout::ThreeByThree => 3,
            GridLayout::ThreeByFour => 4,
        }
    }

    /// The number of rows: always 3.
    pub fn rows(self) -> (n: u8)
        ensures
            n == self.rows_spec(),
    {
        3
    }
}

/// A cell of the grid, counted from the top left corner.
#[derive(Clone, Copy, Debug, PartialEq, Eq, Structural)]
pub struct Cell {
    pub col: u8,
    pub row: u8,
}

impl Cell {
    /// Whether the cell lies inside the layout.
    pub open spec fn within(self, layout: GridLayout) -> bool {
        self.col < layout.columns_spec() && self.row < layout.rows_spec()
    }
}

/// The key on which a direction sits: `h j k l` for west, south, north and
/// east, `y u b n` for the diagonals.
pub open spec fn direction_table(key: Key) -> Option<Direction> {
    match key {
        Key::KeyH => Some(Direction::West),
        Key::KeyL => Some(Direction::East),
        Key::KeyJ => Some(Direction::South),
        Key::KeyK => Some(Direction::North),
        Key::KeyY => Some(Direction::NorthWest),
        Key::KeyU => Some(Direction::NorthEast),
        Key::KeyB => Some(Direction::SouthWest),
        Key::KeyN => Some(Direction::SouthEast),
        _ => None,
    }
}

/// Where a key sits in the widest grid: the three letter rows of the
/// keyboard, four keys each, from `q` at the top left to `v` at the bottom
/// right.
pub open spec fn grid_position(key: Key) -> Option<Cell> {
    match key {
        Key::KeyQ => Some(Cell { col: 0, row: 0 }),
        Key::KeyW => Some(Cell { col: 1, row: 0 }),
        Key::KeyE => Some(Cell { col: 2, row: 0 }),
        Key::KeyR => Some(Cell { col: 3, row: 0 }),
        Key::KeyA => Some(Cell { col: 0, row: 1 }),
        Key::KeyS => Some(Cell { col: 1, row: 1 }),
        Key::KeyD => Some(Cell { col: 2, row: 1 }),
        Key::KeyF => Some(Cell { col: 3, row: 1 }),
        Key::KeyZ => Some(Cell { col: 0, row: 2 }),
        Key::KeyX => Some(Cell { col: 1, row: 2 }),
        Key::KeyC => Some(Cell { col: 2, row: 2 }),
        Key::KeyV => Some(Cell { col: 3, row: 2 }),
        _ => None,
    }
}

/// The cell that a key jumps to under a layout: its position in the widest
/// grid, if the layout has that column.
pub open spec fn grid_table(layout: GridLayout, key: Key) -> Option<Cell> {
    match grid_position(key) {
        Some(cell) => if cell.within(layout) {
            Some(cell)
        } else {
            None
        },
        None => None,
    }
}

/// Looks a key up in the direction table.
pub fn direction_of(key: Key) -> (d: Option<Direction>)
    ensures
        d == direction_table(key),
{
    match key {
        Key::KeyH => Some(Direction::West),
        Key::KeyL => Some(Direction::East),
        Key::KeyJ => Some(Direction::South),
        Key::KeyK => Some(Direction::North),
        Key::KeyY => Some(Direction::NorthWest),
        Key::KeyU => Some(Direction::NorthEast),
        Key::KeyB => Some(Direction::SouthWest),
        Key::KeyN => Some(Direction::SouthEast),
        _ => None,
    }
}

/// Looks a key up in the grid table of a layout. A key of the fourth column
/// has no cell in the three-column layout.
pub fn grid_cell(layout: GridLayout, key: Key) -> (c: Option<Cell>)
    ensures
        c == grid_table(layout, key),
        c matches Some(cell) ==> cell.within(layout),
{
    let (col, row): (u8, u8) = match key {
        Key::KeyQ => (0, 0),
        Key::KeyW => (1, 0),
        Key::KeyE => (2, 0),
        Key::KeyR => (3, 0),
        Key::KeyA => (0, 1),
        Key::KeyS => (1, 1),
        Key::KeyD => (2, 1),
        Key::KeyF => (3, 1),
        Key::KeyZ => (0, 2),
        Key::KeyX => (1, 2),
        Key::KeyC => (2, 2),
        Key::KeyV => (3, 2),
        _ => {
            return None;
        },
    };
    if col < layout.columns() {
        Some(Cell { col, row })
    } else {
        None
    }
}

/// What a key means to the engine.
#[derive(Clone, Copy, Debug, PartialEq, Eq, Structural)]
pub enum Binding {
    /// One of the eight direction keys.
    Steer(Direction),
    /// The key that stands for the left mouse button.
    PrimaryClick,
    /// A key that stands for the right mouse button.
    SecondaryClick,
    /// A grid key, with the cell that it jumps to.
    Jump(Cell),
    /// The key that ends the program.
    Exit,
    /// The modifier that slows the pointer down while it is held.
    Slow,
    /// The modifier that speeds the pointer up while it is held.
    Fast,
    /// The key that turns scroll mode on while it is held.
    ScrollHold,
    /// The key that flips between pointer and scroll mode.
    ScrollToggle,
    /// A key that the engine does not know.
    Unbound,
}

/// The binding of each key under a layout. Direction and grid keys come from
/// their tables; space clicks; either control key and caps lock right-click;
/// either shift key slows, alt speeds up; `g` holds scroll mode, `t` toggles
/// it; escape exits.
pub open spec fn binding(layout: GridLayout, key: Key) -> Binding {
    if let Some(d) = direction_table(key) {
        Binding::Steer(d)
    } else if let Some(cell) = grid_table(layout, key) {
        Binding::Jump(cell)
    } else {
        match key {
            Key::Space => Binding::PrimaryClick,
            Key::ControlLeft | Key::ControlRight | Key::CapsLock => Binding::SecondaryClick,
            Key::Escape => Binding::Exit,
            Key::ShiftLeft | Key::ShiftRight => Binding::Slow,
            Key::Alt => Binding::Fast,
            Key::KeyG => Binding::ScrollHold,
            Key::KeyT => Binding::ScrollToggle,
            _ => Binding::Unbound,
        }
    }
}

/// Classifies a key under a layout.
pub fn bind(layout: GridLayout, key: Key) -> (b: Binding)
    ensures
        b == binding(layout, key),
{
    if let Some(d) = direction_of(key) {
        return Binding::Steer(d);
    }
    if let Some(cell) = grid_cell(layout, key) {
        return Binding::Jump(cell);
    }
    match key {
        Key::Space => Binding::PrimaryClick,
        Key::ControlLeft | Key::ControlRight | Key::CapsLock => Binding::SecondaryClick,
        Key::Escape => Binding::Exit,
        Key::ShiftLeft | Key::ShiftRight => Binding::Slow,
        Key::Alt => Binding::Fast,
        Key::KeyG => Binding::ScrollHold,
        Key::KeyT => Binding::ScrollToggle,
        _ => Binding::Unbound,
    }
}

} // verus!
