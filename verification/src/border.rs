use vstd::prelude::*;

use crate::common::Colour;

verus! {

/// A border style tag. The four built-in styles resolve to fixed
/// box-drawing glyphs; `Custom` carries its own eight glyphs.
#[derive(Clone, Copy, Debug, PartialEq, Eq, Structural)]
pub enum BorderType {
    Normal,
    Rounded,
    Double,
    Thick,
    Custom {
        left: char,
        topleft: char,
        top: char,
        topright: char,
        right: char,
        bottomright: char,
        bottom: char,
        bottomleft: char,
    },
}

/// A border: a style tag plus the foreground colour its glyphs are drawn
/// in.
#[derive(Clone, Copy, Debug, PartialEq, Eq, Structural)]
pub struct Border {
    pub colour: Colour,
    pub kind: BorderType,
}

impl BorderType {
    /// The glyph for the left edge of this style.
    pub open spec fn left_glyph(self) -> char {
        match self {
            BorderType::Normal | BorderType::Rounded => '│',
            BorderType::Thick => '┃',
            BorderType::Double => '║',
            BorderType::Custom { left, .. } => left,
        }
    }

    /// The glyph for the top-left corner of this style.
    pub open spec fn topleft_glyph(self) -> char {
        match self {
            BorderType::Normal => '┌',
            BorderType::Rounded => '╭',
            BorderType::Thick => '┏',
            BorderType::Double => '╔',
            BorderType::Custom { topleft, .. } => topleft,
        }
    }

    /// The glyph for the top edge of this style.
    pub open spec fn top_glyph(self) -> char {
        match self {
            BorderType::Normal | BorderType::Rounded => '─',
            BorderType::Thick => '━',
            BorderType::Double => '═',
            BorderType::Custom { top, .. } => top,
        }
    }

    /// The glyph for the top-right corner of this style.
    pub open spec fn topright_glyph(self) -> char {
        match self {
            BorderType::Normal => '┐',
            BorderType::Rounded => '╮',
            BorderType::Thick => '┓',
            BorderType::Double => '╗',
            BorderType::Custom { topright, .. } => topright,
        }
    }

    /// The glyph for the right edge of this style.
    pub open spec fn right_glyph(self) -> char {
        match self {
            BorderType::Normal | BorderType::Rounded => '│',
            BorderType::Thick => '┃',
            BorderType::Double => '║',
            BorderType::Custom { right, .. } => right,
        }
    }

    /// The glyph for the bottom-right corner of this style.
    pub open spec fn bottomright_glyph(self) -> char {
        match self {
            BorderType::Normal => '┘',
            BorderType::Rounded => '╯',
            BorderType::Thick => '┛',
            BorderType::Double => '╝',
            BorderType::Custom { bottomright, .. } => bottomright,
        }
    }

    /// The glyph for the bottom edge of this style.
    pub open spec fn bottom_glyph(self) -> char {
        match self {
            BorderType::Normal | BorderType::Rounded => '─',
            BorderType::Thick => '━',
            BorderType::Double => '═',
            BorderType::Custom { bottom, .. } => bottom,
        }
    }

    /// The glyph for the bottom-left corner of this style.
    pub open spec fn bottomleft_glyph(self) -> char {
        match self {
            BorderType::Normal => '└',
            BorderType::Rounded => '╰',
            BorderType::Thick => '┗',
            BorderType::Double => '╚',
            BorderType::Custom { bottomleft, .. } => bottomleft,
        }
    }

    pub fn left(&self) -> (r: char)
        ensures
            r == self.left_glyph(),
    {
        match self {
            Self::Normal | Self::Rounded => '│',
            Self::Thick => '┃',
            Self::Double => '║',
            Self::Custom { left, .. } => *left,
        }
    }

    pub fn topleft(&self) -> (r: char)
        ensures
            r == self.topleft_glyph(),
    {
        match self {
            Self::Normal => '┌',
            Self::Rounded => '╭',
            Self::Thick => '┏',
            Self::Double => '╔',
            Self::Custom { topleft, .. } => *topleft,
        }
    }

    pub fn top(&self) -> (r: char)
        ensures
            r == self.top_glyph(),
    {
        match self {
            Self::Normal | Self::Rounded => '─',
            Self::Thick => '━',
            Self::Double => '═',
            Self::Custom { top, .. } => *top,
        }
    }

    pub fn topright(&self) -> (r: char)
        ensures
            r == self.topright_glyph(),
    {
        match self {
            Self::Normal => '┐',
            Self::Rounded => '╮',
            Self::Thick => '┓',
            Self::Double => '╗',
            Self::Custom { topright, .. } => *topright,
        }
    }

    pub fn right(&self) -> (r: char)
        ensures
            r == self.right_glyph(),
    {
        match self {
            Self::Normal | Self::Rounded => '│',
            Self::Thick => '┃',
            Self::Double => '║',
            Self::Custom { right, .. } => *right,
        }
    }

    pub fn bottomright(&self) -> (r: char)
        ensures
            r == self.bottomright_glyph(),
    {
        match self {
            Self::Normal => '┘',
            Self::Rounded => '╯',
            Self::Thick => '┛',
            Self::Double => '╝',
            Self::Custom { bottomright, .. } => *bottomright,
        }
    }

    pub fn bottom(&self) -> (r: char)
        ensures
            r == self.bottom_glyph(),
    {
        match self {
            Self::Normal | Self::Rounded => '─',
            Self::Thick => '━',
            Self::Double => '═',
            Self::Custom { bottom, .. } => *bottom,
        }
    }

    pub fn bottomleft(&self) -> (r: char)
        ensures
            r == self.bottomleft_glyph(),
    {
        match self {
            Self::Normal => '└',
            Self::Rounded => '╰',
            Self::Thick => '┗',
            Self::Double => '╚',
            Self::Custom { bottomleft, .. } => *bottomleft,
        }
    }
}

/// The eight boundary glyphs a border style resolves to.
#[derive(Clone, Copy, Debug, PartialEq, Eq, Structural)]
pub struct BorderSet {
    pub left: char,
    pub topleft: char,
    pub top: char,
    pub topright: char,
    pub right: char,
    pub bottomright: char,
    pub bottom: char,
    pub bottomleft: char,
}

/// The full glyph set of a border style.
pub open spec fn glyph_set(kind: BorderType) -> BorderSet {
    BorderSet {
        left: kind.left_glyph(),
        topleft: kind.topleft_glyph(),
        top: kind.top_glyph(),
        topright: kind.topright_glyph(),
        right: kind.right_glyph(),
        bottomright: kind.bottomright_glyph(),
        bottom: kind.bottom_glyph(),
        bottomleft: kind.bottomleft_glyph(),
    }
}

impl<'a> From<&'a BorderType> for BorderSet {
    fn from(value: &'a BorderType) -> (r: Self) {
        Self {
            left: value.left(),
            topleft: value.topleft(),
            top: value.top(),
            topright: value.topright(),
            right: value.right(),
            bottomright: value.bottomright(),
            bottom: value.bottom(),
            bottomleft: value.bottomleft(),
        }
    }
}

impl<'a> vstd::std_specs::convert::FromSpecImpl<&'a BorderType> for BorderSet {
    open spec fn obeys_from_spec() -> bool {
        true
    }

    open spec fn from_spec(t: &'a BorderType) -> Self {
        glyph_set(*t)
    }
}

} // verus!
