use vstd::prelude::*;

verus! {

/// A navigation step through the split tree, and the side selector for
/// inserting a new region.
///
/// `Left`/`Right` steps navigate a horizontal split; `Up`/`Down` steps
/// navigate a vertical split. When used to insert, `Up`/`Left` place the
/// fresh leaf on the first positional slot (top or left), `Down`/`Right`
/// on the second (bottom or right).
#[derive(Clone, Copy, Debug, PartialEq, Eq, Structural)]
pub enum Direction {
    Up,
    Down,
    Left,
    Right,
}

impl Direction {
    /// Whether this step navigates a horizontal split.
    pub open spec fn is_horizontal(self) -> bool {
        self == Direction::Left || self == Direction::Right
    }

    /// Whether this step navigates a vertical split.
    pub open spec fn is_vertical(self) -> bool {
        self == Direction::Up || self == Direction::Down
    }
}

/// A screen region in cell coordinates: origin plus extent.
#[derive(Clone, Copy, Debug, PartialEq, Eq, Structural)]
pub struct Rect {
    pub x: u32,
    pub y: u32,
    pub width: u32,
    pub height: u32,
}

impl Rect {
    pub fn new(x: u32, y: u32, width: u32, height: u32) -> (r: Rect)
        ensures
            r == (Rect { x, y, width, height }),
    {
        Rect { x, y, width, height }
    }

    /// A rectangle whose far edges stay within the coordinate space, so
    /// that every cell of it is addressable.
    pub open spec fn in_bounds(self) -> bool {
        self.x + self.width <= u32::MAX && self.y + self.height <= u32::MAX
    }
}

/// An opaque token identifying a registered component. The host assigns
/// identity; this layer only compares and stores tokens, never interprets
/// them.
#[derive(Clone, Copy, Debug, PartialEq, Eq, Hash, Structural)]
pub struct ComponentId {
    pub token: u64,
}

impl ComponentId {
    pub fn new(token: u64) -> (r: ComponentId)
        ensures
            r == (ComponentId { token }),
    {
        ComponentId { token }
    }
}

/// A terminal colour as the host understands it: the sixteen named
/// colours, an ANSI palette index, a truecolour triple, or the terminal
/// default (`Reset`).
#[derive(Clone, Copy, Debug, PartialEq, Eq, Structural)]
pub enum Colour {
    Black,
    Blue,
    Cyan,
    Green,
    Magenta,
    Red,
    White,
    Yellow,
    LightBlack,
    LightBlue,
    LightCyan,
    LightGreen,
    LightMagenta,
    LightRed,
    LightWhite,
    LightYellow,
    Reset,
    Ansi { value: u8 },
    Rgb { red: u8, green: u8, blue: u8 },
}

} // verus!
