use vstd::prelude::*;

use crate::border::{glyph_set, Border};
use crate::common::{Colour, ComponentId, Direction, Rect};
use crate::constraint::{constraint_eval, lemma_constraint_eval_in_range, Constraint};

verus! {

/// The screen-partition tree.
///
/// A node is empty, a leaf optionally bound to one component and one
/// border, or a binary split along one axis. Each split carries one
/// constraint per positional slot: `left`/`top` first, `right`/`bottom`
/// second.
pub enum Layout {
    Empty,
    Single { component: Option<ComponentId>, border: Option<Border> },
    SplitHorizontal {
        left_constraint: Constraint,
        left: Box<Layout>,
        right_constraint: Constraint,
        right: Box<Layout>,
    },
    SplitVertical {
        top_constraint: Constraint,
        top: Box<Layout>,
        bottom_constraint: Constraint,
        bottom: Box<Layout>,
    },
}

impl Default for Layout {
    fn default() -> (r: Self)
        ensures
            r == Layout::Empty,
    {
        Layout::Empty
    }
}

/// The tree that `add` builds at the end of its path: the fresh leaf and
/// the current subtree, wrapped in a split along the axis `split`
/// implies. `Up`/`Left` place the fresh leaf on the first slot,
/// `Down`/`Right` on the second; `constraint_1` always binds to the
/// first slot and `constraint_2` to the second, whichever side is new.
pub open spec fn wrap_split(
    t: Layout,
    split: Direction,
    constraint_1: Constraint,
    constraint_2: Constraint,
    component: Option<ComponentId>,
    border: Option<Border>,
) -> Layout {
    let fresh = Layout::Single { component, border };
    match split {
        Direction::Up => Layout::SplitVertical {
            top_constraint: constraint_1,
            top: Box::new(fresh),
            bottom_constraint: constraint_2,
            bottom: Box::new(t),
        },
        Direction::Down => Layout::SplitVertical {
            top_constraint: constraint_1,
            top: Box::new(t),
            bottom_constraint: constraint_2,
            bottom: Box::new(fresh),
        },
        Direction::Left => Layout::SplitHorizontal {
            left_constraint: constraint_1,
            left: Box::new(fresh),
            right_constraint: constraint_2,
            right: Box::new(t),
        },
        Direction::Right => Layout::SplitHorizontal {
            left_constraint: constraint_1,
            left: Box::new(t),
            right_constraint: constraint_2,
            right: Box::new(fresh),
        },
    }
}

/// The tree and outcome that `add` leaves behind. An empty path wraps
/// the whole subtree; a step into a split must match the split's axis,
/// else the tree is returned unchanged with outcome `false`.
pub open spec fn spec_add(
    t: Layout,
    at: Seq<Direction>,
    split: Direction,
    constraint_1: Constraint,
    constraint_2: Constraint,
    component: Option<ComponentId>,
    border: Option<Border>,
) -> (Layout, bool)
    decreases at.len(),
{
    if at.len() == 0 {
        (wrap_split(t, split, constraint_1, constraint_2, component, border), true)
    } else {
        match t {
            Layout::SplitHorizontal { left_constraint, left, right_constraint, right } => {
                if at[0] == Direction::Left {
                    let (sub, changed) = spec_add(
                        *left,
                        at.skip(1),
                        split,
                        constraint_1,
                        constraint_2,
                        component,
                        border,
                    );
                    (
                        Layout::SplitHorizontal {
                            left_constraint,
                            left: Box::new(sub),
                            right_constraint,
                            right,
                        },
                        changed,
                    )
                } else if at[0] == Direction::Right {
                    let (sub, changed) = spec_add(
                        *right,
                        at.skip(1),
                        split,
                        constraint_1,
                        constraint_2,
                        component,
                        border,
                    );
                    (
                        Layout::SplitHorizontal {
                            left_constraint,
                            left,
                            right_constraint,
                            right: Box::new(sub),
                        },
                        changed,
                    )
                } else {
                    (Layout::SplitHorizontal { left_constraint, left, right_constraint, right }, false)
                }
            },
            Layout::SplitVertical { top_constraint, top, bottom_constraint, bottom } => {
                if at[0] == Direction::Up {
                    let (sub, changed) = spec_add(
                        *top,
                        at.skip(1),
                        split,
                        constraint_1,
                        constraint_2,
                        component,
                        border,
                    );
                    (
                        Layout::SplitVertical {
                            top_constraint,
                            top: Box::new(sub),
                            bottom_constraint,
                            bottom,
                        },
                        changed,
                    )
                } else if at[0] == Direction::Down {
                    let (sub, changed) = spec_add(
                        *bottom,
                        at.skip(1),
                        split,
                        constraint_1,
                        constraint_2,
                        component,
                        border,
                    );
                    (
                        Layout::SplitVertical {
                            top_constraint,
                            top,
                            bottom_constraint,
                            bottom: Box::new(sub),
                        },
                        changed,
                    )
                } else {
                    (Layout::SplitVertical { top_constraint, top, bottom_constraint, bottom }, false)
                }
            },
            _ => (t, false),
        }
    }
}

/// The tree and outcome that `remove` leaves behind. An empty path
/// clears the whole tree; a single remaining step on a split of the
/// matching axis collapses the split into the sibling opposite the named
/// side; any axis mismatch leaves the tree unchanged with outcome
/// `false`.
pub open spec fn spec_remove(t: Layout, at: Seq<Direction>) -> (Layout, bool)
    decreases at.len(),
{
    if at.len() == 0 {
        (Layout::Empty, true)
    } else {
        match t {
            Layout::SplitHorizontal { left_constraint, left, right_constraint, right } => {
                if at[0] == Direction::Left {
                    if at.len() == 1 {
                        (*right, true)
                    } else {
                        let (sub, changed) = spec_remove(*left, at.skip(1));
                        (
                            Layout::SplitHorizontal {
                                left_constraint,
                                left: Box::new(sub),
                                right_constraint,
                                right,
                            },
                            changed,
                        )
                    }
                } else if at[0] == Direction::Right {
                    if at.len() == 1 {
                        (*left, true)
                    } else {
                        let (sub, changed) = spec_remove(*right, at.skip(1));
                        (
                            Layout::SplitHorizontal {
                                left_constraint,
                                left,
                                right_constraint,
                                right: Box::new(sub),
                            },
                            changed,
                        )
                    }
                } else {
                    (Layout::SplitHorizontal { left_constraint, left, right_constraint, right }, false)
                }
            },
            Layout::SplitVertical { top_constraint, top, bottom_constraint, bottom } => {
                if at[0] == Direction::Up {
                    if at.len() == 1 {
                        (*bottom, true)
                    } else {
                        let (sub, changed) = spec_remove(*top, at.skip(1));
                        (
                            Layout::SplitVertical {
                                top_constraint,
                                top: Box::new(sub),
                                bottom_constraint,
                                bottom,
                            },
                            changed,
                        )
                    }
                } else if at[0] == Direction::Down {
                    if at.len() == 1 {
                        (*top, true)
                    } else {
                        let (sub, changed) = spec_remove(*bottom, at.skip(1));
                        (
                            Layout::SplitVertical {
                                top_constraint,
                                top,
                                bottom_constraint,
                                bottom: Box::new(sub),
                            },
                            changed,
                        )
                    }
                } else {
                    (Layout::SplitVertical { top_constraint, top, bottom_constraint, bottom }, false)
                }
            },
            _ => (t, false),
        }
    }
}

/// The tree and outcome that `set` leaves behind: the addressed subtree
/// replaced wholesale, or the tree unchanged with outcome `false` on any
/// axis mismatch.
pub open spec fn spec_set(t: Layout, at: Seq<Direction>, state: Layout) -> (Layout, bool)
    decreases at.len(),
{
    if at.len() == 0 {
        (state, true)
    } else {
        match t {
            Layout::SplitHorizontal { left_constraint, left, right_constraint, right } => {
                if at[0] == Direction::Left {
                    let (sub, changed) = spec_set(*left, at.skip(1), state);
                    (
                        Layout::SplitHorizontal {
                            left_constraint,
                            left: Box::new(sub),
                            right_constraint,
                            right,
                        },
                        changed,
                    )
                } else if at[0] == Direction::Right {
                    let (sub, changed) = spec_set(*right, at.skip(1), state);
                    (
                        Layout::SplitHorizontal {
                            left_constraint,
                            left,
                            right_constraint,
                            right: Box::new(sub),
                        },
                        changed,
                    )
                } else {
                    (Layout::SplitHorizontal { left_constraint, left, right_constraint, right }, false)
                }
            },
            Layout::SplitVertical { top_constraint, top, bottom_constraint, bottom } => {
                if at[0] == Direction::Up {
                    let (sub, changed) = spec_set(*top, at.skip(1), state);
                    (
                        Layout::SplitVertical {
                            top_constraint,
                            top: Box::new(sub),
                            bottom_constraint,
                            bottom,
                        },
                        changed,
                    )
                } else if at[0] == Direction::Down {
                    let (sub, changed) = spec_set(*bottom, at.skip(1), state);
                    (
                        Layout::SplitVertical {
                            top_constraint,
                            top,
                            bottom_constraint,
                            bottom: Box::new(sub),
                        },
                        changed,
                    )
                } else {
                    (Layout::SplitVertical { top_constraint, top, bottom_constraint, bottom }, false)
                }
            },
            _ => (t, false),
        }
    }
}

/// The node a path addresses, or nothing on any axis mismatch or on a
/// path that descends past a leaf or an empty node.
pub open spec fn spec_get(t: Layout, at: Seq<Direction>) -> Option<Layout>
    decreases at.len(),
{
    if at.len() == 0 {
        Some(t)
    } else {
        match t {
            Layout::SplitHorizontal { left, right, .. } => {
                if at[0] == Direction::Left {
                    spec_get(*left, at.skip(1))
                } else if at[0] == Direction::Right {
                    spec_get(*right, at.skip(1))
                } else {
                    None
                }
            },
            Layout::SplitVertical { top, bottom, .. } => {
                if at[0] == Direction::Up {
                    spec_get(*top, at.skip(1))
                } else if at[0] == Direction::Down {
                    spec_get(*bottom, at.skip(1))
                } else {
                    None
                }
            },
            _ => None,
        }
    }
}

/// One border cell to draw: a glyph at a position, with a foreground
/// colour and a background colour.
#[derive(Clone, Copy, Debug, PartialEq, Eq, Structural)]
pub struct DrawCommand {
    pub x: u32,
    pub y: u32,
    pub glyph: char,
    pub fg: Colour,
    pub bg: Colour,
}

/// The extent allotted to the first slot of a split: what its constraint
/// allocates, clamped to the container so the slot never exceeds it.
pub open spec fn first_extent(c: Constraint, avail: u32) -> int {
    let e = constraint_eval(c, avail);
    if e <= avail {
        e
    } else {
        avail as int
    }
}

/// The extent allotted to the second slot of a split: what its
/// constraint allocates, clamped to what remains after the first slot.
pub open spec fn second_extent(c1: Constraint, c2: Constraint, avail: u32) -> int {
    let rest = avail - first_extent(c1, avail);
    let e = constraint_eval(c2, avail);
    if e <= rest {
        e
    } else {
        rest
    }
}

/// `n` cells of a horizontal run starting at `(x0, y)`.
pub open spec fn hline(x0: u32, y: u32, n: int, glyph: char, fg: Colour) -> Seq<DrawCommand> {
    Seq::new(
        n as nat,
        |i: int| DrawCommand { x: (x0 + i) as u32, y, glyph, fg, bg: Colour::Reset },
    )
}

/// `n` cells of a vertical run starting at `(x, y0)`.
pub open spec fn vline(x: u32, y0: u32, n: int, glyph: char, fg: Colour) -> Seq<DrawCommand> {
    Seq::new(
        n as nat,
        |i: int| DrawCommand { x, y: (y0 + i) as u32, glyph, fg, bg: Colour::Reset },
    )
}

/// The border cells of a bordered region: the four corners, then the top
/// edge, bottom edge, left edge and right edge along the interior spans,
/// drawn in the border's colour on a reset background. A region too
/// small for a border (width or height of one or less) draws nothing.
pub open spec fn border_draws(b: Border, screen: Rect) -> Seq<DrawCommand> {
    if screen.width > 1 && screen.height > 1 {
        let g = glyph_set(b.kind);
        let x1 = (screen.x + screen.width - 1) as u32;
        let y1 = (screen.y + screen.height - 1) as u32;
        seq![
            DrawCommand { x: screen.x, y: screen.y, glyph: g.topleft, fg: b.colour, bg: Colour::Reset },
            DrawCommand { x: x1, y: screen.y, glyph: g.topright, fg: b.colour, bg: Colour::Reset },
            DrawCommand { x: x1, y: y1, glyph: g.bottomright, fg: b.colour, bg: Colour::Reset },
            DrawCommand { x: screen.x, y: y1, glyph: g.bottomleft, fg: b.colour, bg: Colour::Reset },
        ] + hline((screen.x + 1) as u32, screen.y, screen.width - 2, g.top, b.colour) + hline(
            (screen.x + 1) as u32,
            y1,
            screen.width - 2,
            g.bottom,
            b.colour,
        ) + vline(screen.x, (screen.y + 1) as u32, screen.height - 2, g.left, b.colour) + vline(
            x1,
            (screen.y + 1) as u32,
            screen.height - 2,
            g.right,
            b.colour,
        )
    } else {
        Seq::empty()
    }
}

/// A zero-sized rectangle at the origin: the degenerate allocation a
/// component receives when its region is too small to hold an interior.
pub open spec fn zero_rect() -> Rect {
    Rect { x: 0, y: 0, width: 0, height: 0 }
}

/// The rectangle one cell inside `screen` on every side.
pub open spec fn inset_rect(screen: Rect) -> Rect {
    Rect {
        x: (screen.x + 1) as u32,
        y: (screen.y + 1) as u32,
        width: (screen.width - 2) as u32,
        height: (screen.height - 2) as u32,
    }
}

/// The sub-rectangles a split hands to its two slots.
pub open spec fn split_rects_horizontal(c1: Constraint, c2: Constraint, screen: Rect) -> (
    Rect,
    Rect,
) {
    let w1 = first_extent(c1, screen.width);
    let w2 = second_extent(c1, c2, screen.width);
    (
        Rect { x: screen.x, y: screen.y, width: w1 as u32, height: screen.height },
        Rect { x: (screen.x + w1) as u32, y: screen.y, width: w2 as u32, height: screen.height },
    )
}

/// The sub-rectangles a vertical split hands to its two slots.
pub open spec fn split_rects_vertical(c1: Constraint, c2: Constraint, screen: Rect) -> (
    Rect,
    Rect,
) {
    let h1 = first_extent(c1, screen.height);
    let h2 = second_extent(c1, c2, screen.height);
    (
        Rect { x: screen.x, y: screen.y, width: screen.width, height: h1 as u32 },
        Rect { x: screen.x, y: (screen.y + h1) as u32, width: screen.width, height: h2 as u32 },
    )
}

/// The rectangle assigned to every component under `t` drawn into
/// `screen`, in first-slot-first order. A bordered leaf is inset by one
/// cell on every side when its region leaves room; a leaf whose region
/// is too small receives the degenerate zero rectangle so the component
/// stays addressable.
pub open spec fn spec_areas(t: Layout, screen: Rect) -> Seq<(Rect, ComponentId)>
    decreases t,
{
    match t {
        Layout::Empty => Seq::empty(),
        Layout::Single { component, border } => match component {
            Some(c) => match border {
                Some(_) => if screen.width > 2 && screen.height > 2 {
                    seq![(inset_rect(screen), c)]
                } else {
                    seq![(zero_rect(), c)]
                },
                None => seq![(screen, c)],
            },
            None => Seq::empty(),
        },
        Layout::SplitHorizontal { left_constraint, left, right_constraint, right } => {
            let rects = split_rects_horizontal(left_constraint, right_constraint, screen);
            spec_areas(*left, rects.0) + spec_areas(*right, rects.1)
        },
        Layout::SplitVertical { top_constraint, top, bottom_constraint, bottom } => {
            let rects = split_rects_vertical(top_constraint, bottom_constraint, screen);
            spec_areas(*top, rects.0) + spec_areas(*bottom, rects.1)
        },
    }
}

/// The border cells drawn for the whole tree, leaves in
/// first-slot-first order.
pub open spec fn spec_draws(t: Layout, screen: Rect) -> Seq<DrawCommand>
    decreases t,
{
    match t {
        Layout::Empty => Seq::empty(),
        Layout::Single { border, .. } => match border {
            Some(b) => border_draws(b, screen),
            None => Seq::empty(),
        },
        Layout::SplitHorizontal { left_constraint, left, right_constraint, right } => {
            let rects = split_rects_horizontal(left_constraint, right_constraint, screen);
            spec_draws(*left, rects.0) + spec_draws(*right, rects.1)
        },
        Layout::SplitVertical { top_constraint, top, bottom_constraint, bottom } => {
            let rects = split_rects_vertical(top_constraint, bottom_constraint, screen);
            spec_draws(*top, rects.0) + spec_draws(*bottom, rects.1)
        },
    }
}

/// Every component bound in a leaf of the tree, first slot before second
/// slot, each exactly once per leaf that holds one.
pub open spec fn spec_components(t: Layout) -> Seq<ComponentId>
    decreases t,
{
    match t {
        Layout::Empty => Seq::empty(),
        Layout::Single { component, .. } => match component {
            Some(c) => seq![c],
            None => Seq::empty(),
        },
        Layout::SplitHorizontal { left, right, .. } => spec_components(*left) + spec_components(
            *right,
        ),
        Layout::SplitVertical { top, bottom, .. } => spec_components(*top) + spec_components(
            *bottom,
        ),
    }
}

/// A split partitions its container without overlap and without
/// overrun: the first slot receives its constraint's allocation clamped
/// to the container, the second slot exactly the smaller of its own
/// allocation and what remains, so the two extents together never
/// exceed the container's extent.
pub proof fn lemma_split_partition(c1: Constraint, c2: Constraint, avail: u32)
    ensures
        0 <= first_extent(c1, avail) <= avail,
        0 <= second_extent(c1, c2, avail),
        first_extent(c1, avail) + second_extent(c1, c2, avail) <= avail,
        second_extent(c1, c2, avail) == if constraint_eval(c2, avail) <= avail - first_extent(
            c1,
            avail,
        ) {
            constraint_eval(c2, avail)
        } else {
            avail - first_extent(c1, avail)
        },
{
    lemma_constraint_eval_in_range(c1, avail);
    lemma_constraint_eval_in_range(c2, avail);
}

/// Removing one side of a split by a single-step path of the matching
/// axis collapses the whole split into the sibling opposite the named
/// side: the split wrapper disappears rather than leaving an empty
/// placeholder.
pub proof fn lemma_remove_collapses(
    c1: Constraint,
    first: Layout,
    c2: Constraint,
    second: Layout,
)
    ensures
        spec_remove(
            Layout::SplitHorizontal {
                left_constraint: c1,
                left: Box::new(first),
                right_constraint: c2,
                right: Box::new(second),
            },
            seq![Direction::Left],
        ) == (second, true),
        spec_remove(
            Layout::SplitHorizontal {
                left_constraint: c1,
                left: Box::new(first),
                right_constraint: c2,
                right: Box::new(second),
            },
            seq![Direction::Right],
        ) == (first, true),
        spec_remove(
            Layout::SplitVertical {
                top_constraint: c1,
                top: Box::new(first),
                bottom_constraint: c2,
                bottom: Box::new(second),
            },
            seq![Direction::Up],
        ) == (second, true),
        spec_remove(
            Layout::SplitVertical {
                top_constraint: c1,
                top: Box::new(first),
                bottom_constraint: c2,
                bottom: Box::new(second),
            },
            seq![Direction::Down],
        ) == (first, true),
{
}

/// A path whose first step runs against the node's split axis makes
/// every operation a no-op: `add`, `remove` and `set` leave the tree
/// unchanged and report no change, and `get` finds nothing.
pub proof fn lemma_axis_mismatch_noop(
    t: Layout,
    at: Seq<Direction>,
    split: Direction,
    constraint_1: Constraint,
    constraint_2: Constraint,
    component: Option<ComponentId>,
    border: Option<Border>,
    state: Layout,
)
    requires
        at.len() > 0,
        (t is SplitHorizontal && at[0].is_vertical()) || (t is SplitVertical
            && at[0].is_horizontal()),
    ensures
        spec_add(t, at, split, constraint_1, constraint_2, component, border) == (t, false),
        spec_remove(t, at) == (t, false),
        spec_set(t, at, state) == (t, false),
        spec_get(t, at) is None,
{
}

/// A failed `add` never partially mutates the tree: whenever it reports
/// no change, the tree it leaves behind is the tree it was given.
pub proof fn lemma_add_noop(
    t: Layout,
    at: Seq<Direction>,
    split: Direction,
    constraint_1: Constraint,
    constraint_2: Constraint,
    component: Option<ComponentId>,
    border: Option<Border>,
)
    ensures
        !spec_add(t, at, split, constraint_1, constraint_2, component, border).1 ==> spec_add(
            t,
            at,
            split,
            constraint_1,
            constraint_2,
            component,
            border,
        ).0 == t,
    decreases at.len(),
{
    if at.len() > 0 {
        match t {
            Layout::SplitHorizontal { left, right, .. } => {
                lemma_add_noop(*left, at.skip(1), split, constraint_1, constraint_2, component, border);
                lemma_add_noop(
                    *right,
                    at.skip(1),
                    split,
                    constraint_1,
                    constraint_2,
                    component,
                    border,
                );
            },
            Layout::SplitVertical { top, bottom, .. } => {
                lemma_add_noop(*top, at.skip(1), split, constraint_1, constraint_2, component, border);
                lemma_add_noop(
                    *bottom,
                    at.skip(1),
                    split,
                    constraint_1,
                    constraint_2,
                    component,
                    border,
                );
            },
            _ => (),
        }
    }
}

/// A failed `remove` never partially mutates the tree.
pub proof fn lemma_remove_noop(t: Layout, at: Seq<Direction>)
    ensures
        !spec_remove(t, at).1 ==> spec_remove(t, at).0 == t,
    decreases at.len(),
{
    if at.len() > 0 {
        match t {
            Layout::SplitHorizontal { left, right, .. } => {
                lemma_remove_noop(*left, at.skip(1));
                lemma_remove_noop(*right, at.skip(1));
            },
            Layout::SplitVertical { top, bottom, .. } => {
                lemma_remove_noop(*top, at.skip(1));
                lemma_remove_noop(*bottom, at.skip(1));
            },
            _ => (),
        }
    }
}

/// Every path that `get` resolves, `remove` can collapse: a successful
/// lookup guarantees that removal at the same path reports a change.
pub proof fn lemma_get_some_implies_remove_changes(t: Layout, at: Seq<Direction>)
    ensures
        spec_get(t, at) is Some ==> spec_remove(t, at).1,
    decreases at.len(),
{
    if at.len() > 1 {
        match t {
            Layout::SplitHorizontal { left, right, .. } => {
                lemma_get_some_implies_remove_changes(*left, at.skip(1));
                lemma_get_some_implies_remove_changes(*right, at.skip(1));
            },
            Layout::SplitVertical { top, bottom, .. } => {
                lemma_get_some_implies_remove_changes(*top, at.skip(1));
                lemma_get_some_implies_remove_changes(*bottom, at.skip(1));
            },
            _ => (),
        }
    }
}

/// A failed `set` never partially mutates the tree.
pub proof fn lemma_set_noop(t: Layout, at: Seq<Direction>, state: Layout)
    ensures
        !spec_set(t, at, state).1 ==> spec_set(t, at, state).0 == t,
    decreases at.len(),
{
    if at.len() > 0 {
        match t {
            Layout::SplitHorizontal { left, right, .. } => {
                lemma_set_noop(*left, at.skip(1), state);
                lemma_set_noop(*right, at.skip(1), state);
            },
            Layout::SplitVertical { top, bottom, .. } => {
                lemma_set_noop(*top, at.skip(1), state);
                lemma_set_noop(*bottom, at.skip(1), state);
            },
            _ => (),
        }
    }
}

impl Layout {
    /// A leaf bound to an optional component and an optional border.
    pub fn single(component: Option<ComponentId>, border: Option<Border>) -> (r: Self)
        ensures
            r == (Layout::Single { component, border }),
    {
        Self::Single { component, border }
    }

    /// A horizontal split of two subtrees.
    pub fn horizontal(
        left: Layout,
        right: Layout,
        left_constraint: Constraint,
        right_constraint: Constraint,
    ) -> (r: Self)
        ensures
            r == (Layout::SplitHorizontal {
                left_constraint,
                left: Box::new(left),
                right_constraint,
                right: Box::new(right),
            }),
    {
        Self::SplitHorizontal {
            left_constraint,
            left: Box::new(left),
            right_constraint,
            right: Box::new(right),
        }
    }

    /// A vertical split of two subtrees.
    pub fn vertical(
        top: Layout,
        bottom: Layout,
        top_constraint: Constraint,
        bottom_constraint: Constraint,
    ) -> (r: Self)
        ensures
            r == (Layout::SplitVertical {
                top_constraint,
                top: Box::new(top),
                bottom_constraint,
                bottom: Box::new(bottom),
            }),
    {
        Self::SplitVertical {
            top_constraint,
            top: Box::new(top),
            bottom_constraint,
            bottom: Box::new(bottom),
        }
    }

    fn add_owned(
        t: Layout,
        at: &[Direction],
        i: usize,
        split: &Direction,
        constraint_1: Constraint,
        constraint_2: Constraint,
        component: Option<ComponentId>,
        border: Option<Border>,
    ) -> (res: (Layout, bool))
        requires
            i <= at@.len(),
        ensures
            res == spec_add(
                t,
                at@.skip(i as int),
                *split,
                constraint_1,
                constraint_2,
                component,
                border,
            ),
        decreases at@.len() - i,
    {
        if i == at.len() {
            let fresh = Layout::Single { component, border };
            let wrapped = match split {
                Direction::Up => Layout::SplitVertical {
                    top_constraint: constraint_1,
                    top: Box::new(fresh),
                    bottom_constraint: constraint_2,
                    bottom: Box::new(t),
                },
                Direction::Down => Layout::SplitVertical {
                    top_constraint: constraint_1,
                    top: Box::new(t),
                    bottom_constraint: constraint_2,
                    bottom: Box::new(fresh),
                },
                Direction::Left => Layout::SplitHorizontal {
                    left_constraint: constraint_1,
                    left: Box::new(fresh),
                    right_constraint: constraint_2,
                    right: Box::new(t),
                },
                Direction::Right => Layout::SplitHorizontal {
                    left_constraint: constraint_1,
                    left: Box::new(t),
                    right_constraint: constraint_2,
                    right: Box::new(fresh),
                },
            };
            (wrapped, true)
        } else {
            proof {
                assert(at@.skip(i as int)[0] == at@[i as int]);
                assert(at@.skip(i as int).skip(1) =~= at@.skip(i as int + 1));
            }
            let step = at[i];
            match t {
                Layout::SplitHorizontal { left_constraint, left, right_constraint, right } => {
                    if step == Direction::Left {
                        let (sub, changed) = Self::add_owned(
                            *left,
                            at,
                            i + 1,
                            split,
                            constraint_1,
                            constraint_2,
                            component,
                            border,
                        );
                        (
                            Layout::SplitHorizontal {
                                left_constraint,
                                left: Box::new(sub),
                                right_constraint,
                                right,
                            },
                            changed,
                        )
                    } else if step == Direction::Right {
                        let (sub, changed) = Self::add_owned(
                            *right,
                            at,
                            i + 1,
                            split,
                            constraint_1,
                            constraint_2,
                            component,
                            border,
                        );
                        (
                            Layout::SplitHorizontal {
                                left_constraint,
                                left,
                                right_constraint,
                                right: Box::new(sub),
                            },
                            changed,
                        )
                    } else {
                        (
                            Layout::SplitHorizontal {
                                left_constraint,
                                left,
                                right_constraint,
                                right,
                            },
                            false,
                        )
                    }
                },
                Layout::SplitVertical { top_constraint, top, bottom_constraint, bottom } => {
                    if step == Direction::Up {
                        let (sub, changed) = Self::add_owned(
                            *top,
                            at,
                            i + 1,
                            split,
                            constraint_1,
                            constraint_2,
                            component,
                            border,
                        );
                        (
                            Layout::SplitVertical {
                                top_constraint,
                                top: Box::new(sub),
                                bottom_constraint,
                                bottom,
                            },
                            changed,
                        )
                    } else if step == Direction::Down {
                        let (sub, changed) = Self::add_owned(
                            *bottom,
                            at,
                            i + 1,
                            split,
                            constraint_1,
                            constraint_2,
                            component,
                            border,
                        );
                        (
                            Layout::SplitVertical {
                                top_constraint,
                                top,
                                bottom_constraint,
                                bottom: Box::new(sub),
                            },
                            changed,
                        )
                    } else {
                        (
                            Layout::SplitVertical {
                                top_constraint,
                                top,
                                bottom_constraint,
                                bottom,
                            },
                            false,
                        )
                    }
                },
                other => (other, false),
            }
        }
    }

    /// Insert a fresh leaf at the addressed node, wrapping the subtree
    /// there in a new split. Returns whether the tree changed; an axis
    /// mismatch anywhere on the path changes nothing.
    pub fn add(
        &mut self,
        at: &[Direction],
        split: &Direction,
        constraint_1: Constraint,
        constraint_2: Constraint,
        component: Option<ComponentId>,
        border: Option<Border>,
    ) -> (r: bool)
        ensures
            (*final(self), r) == spec_add(
                *old(self),
                at@,
                *split,
                constraint_1,
                constraint_2,
                component,
                border,
            ),
    {
        proof {
            assert(at@.skip(0) =~= at@);
        }
        let mut taken = Layout::Empty;
        core::mem::swap(self, &mut taken);
        let (tree, changed) = Self::add_owned(
            taken,
            at,
            0,
            split,
            constraint_1,
            constraint_2,
            component,
            border,
        );
        *self = tree;
        changed
    }

    fn remove_owned(t: Layout, at: &[Direction], i: usize) -> (res: (Layout, bool))
        requires
            i <= at@.len(),
        ensures
            res == spec_remove(t, at@.skip(i as int)),
        decreases at@.len() - i,
    {
        if i == at.len() {
            (Layout::Empty, true)
        } else {
            proof {
                assert(at@.skip(i as int)[0] == at@[i as int]);
                assert(at@.skip(i as int).skip(1) =~= at@.skip(i as int + 1));
                assert(at@.skip(i as int).len() == at@.len() - i);
            }
            let step = at[i];
            let last = i + 1 == at.len();
            match t {
                Layout::SplitHorizontal { left_constraint, left, right_constraint, right } => {
                    if step == Direction::Left {
                        if last {
                            (*right, true)
                        } else {
                            let (sub, changed) = Self::remove_owned(*left, at, i + 1);
                            (
                                Layout::SplitHorizontal {
                                    left_constraint,
                                    left: Box::new(sub),
                                    right_constraint,
                                    right,
                                },
                                changed,
                            )
                        }
                    } else if step == Direction::Right {
                        if last {
                            (*left, true)
                        } else {
                            let (sub, changed) = Self::remove_owned(*right, at, i + 1);
                            (
                                Layout::SplitHorizontal {
                                    left_constraint,
                                    left,
                                    right_constraint,
                                    right: Box::new(sub),
                                },
                                changed,
                            )
                        }
                    } else {
                        (
                            Layout::SplitHorizontal {
                                left_constraint,
                                left,
                                right_constraint,
                                right,
                            },
                            false,
                        )
                    }
                },
                Layout::SplitVertical { top_constraint, top, bottom_constraint, bottom } => {
                    if step == Direction::Up {
                        if last {
                            (*bottom, true)
                        } else {
                            let (sub, changed) = Self::remove_owned(*top, at, i + 1);
                            (
                                Layout::SplitVertical {
                                    top_constraint,
                                    top: Box::new(sub),
                                    bottom_constraint,
                                    bottom,
                                },
                                changed,
                            )
                        }
                    } else if step == Direction::Down {
                        if last {
                            (*top, true)
                        } else {
                            let (sub, changed) = Self::remove_owned(*bottom, at, i + 1);
                            (
                                Layout::SplitVertical {
                                    top_constraint,
                                    top,
                                    bottom_constraint,
                                    bottom: Box::new(sub),
                                },
                                changed,
                            )
                        }
                    } else {
                        (
                            Layout::SplitVertical {
                                top_constraint,
                                top,
                                bottom_constraint,
                                bottom,
                            },
                            false,
                        )
                    }
                },
                other => (other, false),
            }
        }
    }

    /// Remove the addressed node. An empty path clears the whole tree; a
    /// path ending at a split of the matching axis collapses that split
    /// into the sibling opposite the named side. Returns whether the
    /// tree changed.
    pub fn remove(&mut self, at: &[Direction]) -> (r: bool)
        ensures
            (*final(self), r) == spec_remove(*old(self), at@),
    {
        proof {
            assert(at@.skip(0) =~= at@);
        }
        let mut taken = Layout::Empty;
        core::mem::swap(self, &mut taken);
        let (tree, changed) = Self::remove_owned(taken, at, 0);
        *self = tree;
        changed
    }

    fn set_owned(t: Layout, at: &[Direction], i: usize, state: Layout) -> (res: (Layout, bool))
        requires
            i <= at@.len(),
        ensures
            res == spec_set(t, at@.skip(i as int), state),
        decreases at@.len() - i,
    {
        if i == at.len() {
            (state, true)
        } else {
            proof {
                assert(at@.skip(i as int)[0] == at@[i as int]);
                assert(at@.skip(i as int).skip(1) =~= at@.skip(i as int + 1));
            }
            let step = at[i];
            match t {
                Layout::SplitHorizontal { left_constraint, left, right_constraint, right } => {
                    if step == Direction::Left {
                        let (sub, changed) = Self::set_owned(*left, at, i + 1, state);
                        (
                            Layout::SplitHorizontal {
                                left_constraint,
                                left: Box::new(sub),
                                right_constraint,
                                right,
                            },
                            changed,
                        )
                    } else if step == Direction::Right {
                        let (sub, changed) = Self::set_owned(*right, at, i + 1, state);
                        (
                            Layout::SplitHorizontal {
                                left_constraint,
                                left,
                                right_constraint,
                                right: Box::new(sub),
                            },
                            changed,
                        )
                    } else {
                        (
                            Layout::SplitHorizontal {
                                left_constraint,
                                left,
                                right_constraint,
                                right,
                            },
                            false,
                        )
                    }
                },
                Layout::SplitVertical { top_constraint, top, bottom_constraint, bottom } => {
                    if step == Direction::Up {
                        let (sub, changed) = Self::set_owned(*top, at, i + 1, state);
                        (
                            Layout::SplitVertical {
                                top_constraint,
                                top: Box::new(sub),
                                bottom_constraint,
                                bottom,
                            },
                            changed,
                        )
                    } else if step == Direction::Down {
                        let (sub, changed) = Self::set_owned(*bottom, at, i + 1, state);
                        (
                            Layout::SplitVertical {
                                top_constraint,
                                top,
                                bottom_constraint,
                                bottom: Box::new(sub),
                            },
                            changed,
                        )
                    } else {
                        (
                            Layout::SplitVertical {
                                top_constraint,
                                top,
                                bottom_constraint,
                                bottom,
                            },
                            false,
                        )
                    }
                },
                other => (other, false),
            }
        }
    }

    /// Replace the addressed subtree wholesale. Returns whether the tree
    /// changed; an axis mismatch anywhere on the path changes nothing.
    pub fn set(&mut self, at: &[Direction], state: Layout) -> (r: bool)
        ensures
            (*final(self), r) == spec_set(*old(self), at@, state),
    {
        proof {
            assert(at@.skip(0) =~= at@);
        }
        let mut taken = Layout::Empty;
        core::mem::swap(self, &mut taken);
        let (tree, changed) = Self::set_owned(taken, at, 0, state);
        *self = tree;
        changed
    }

    fn get_at(&self, at: &[Direction], i: usize) -> (r: Option<&Layout>)
        requires
            i <= at@.len(),
        ensures
            (match r {
                Some(node) => spec_get(*self, at@.skip(i as int)) == Some(*node),
                None => spec_get(*self, at@.skip(i as int)) is None,
            }),
        decreases at@.len() - i,
    {
        if i == at.len() {
            Some(self)
        } else {
            proof {
                assert(at@.skip(i as int)[0] == at@[i as int]);
                assert(at@.skip(i as int).skip(1) =~= at@.skip(i as int + 1));
            }
            let step = at[i];
            match self {
                Layout::SplitHorizontal { left, right, .. } => {
                    if step == Direction::Left {
                        left.get_at(at, i + 1)
                    } else if step == Direction::Right {
                        right.get_at(at, i + 1)
                    } else {
                        None
                    }
                },
                Layout::SplitVertical { top, bottom, .. } => {
                    if step == Direction::Up {
                        top.get_at(at, i + 1)
                    } else if step == Direction::Down {
                        bottom.get_at(at, i + 1)
                    } else {
                        None
                    }
                },
                _ => None,
            }
        }
    }

    /// Look up the node a path addresses. Returns nothing on any axis
    /// mismatch or when the path descends past a leaf or an empty node.
    pub fn get(&self, at: &[Direction]) -> (r: Option<&Layout>)
        ensures
            (match r {
                Some(node) => spec_get(*self, at@) == Some(*node),
                None => spec_get(*self, at@) is None,
            }),
    {
        proof {
            assert(at@.skip(0) =~= at@);
        }
        self.get_at(at, 0)
    }

    fn alloc_first(c: &Constraint, avail: u32) -> (r: u32)
        ensures
            r as int == first_extent(*c, avail),
            r <= avail,
    {
        let e: u32 = c.eval(avail);
        if e <= avail {
            e
        } else {
            avail
        }
    }

    fn border_cells(b: Border, screen: Rect) -> (r: Vec<DrawCommand>)
        requires
            screen.in_bounds(),
        ensures
            r@ == border_draws(b, screen),
    {
        let mut out: Vec<DrawCommand> = Vec::new();
        if screen.width > 1 && screen.height > 1 {
            let ghost g = glyph_set(b.kind);
            let x1: u32 = screen.x + screen.width - 1;
            let y1: u32 = screen.y + screen.height - 1;
            out.push(
                DrawCommand {
                    x: screen.x,
                    y: screen.y,
                    glyph: b.kind.topleft(),
                    fg: b.colour,
                    bg: Colour::Reset,
                },
            );
            out.push(
                DrawCommand { x: x1, y: screen.y, glyph: b.kind.topright(), fg: b.colour, bg: Colour::Reset },
            );
            out.push(
                DrawCommand { x: x1, y: y1, glyph: b.kind.bottomright(), fg: b.colour, bg: Colour::Reset },
            );
            out.push(
                DrawCommand { x: screen.x, y: y1, glyph: b.kind.bottomleft(), fg: b.colour, bg: Colour::Reset },
            );
            let top_glyph = b.kind.top();
            let ghost corners = out@;
            let mut j: u32 = 0;
            while j < screen.width - 2
                invariant
                    screen.in_bounds(),
                    screen.width > 1,
                    screen.height > 1,
                    j <= screen.width - 2,
                    top_glyph == g.top,
                    out@ =~= corners + hline((screen.x + 1) as u32, screen.y, j as int, g.top, b.colour),
                decreases screen.width - 2 - j,
            {
                out.push(
                    DrawCommand {
                        x: screen.x + 1 + j,
                        y: screen.y,
                        glyph: top_glyph,
                        fg: b.colour,
                        bg: Colour::Reset,
                    },
                );
                j = j + 1;
            }
            let bottom_glyph = b.kind.bottom();
            let ghost with_top = out@;
            let mut j: u32 = 0;
            while j < screen.width - 2
                invariant
                    screen.in_bounds(),
                    screen.width > 1,
                    screen.height > 1,
                    y1 == screen.y + screen.height - 1,
                    j <= screen.width - 2,
                    bottom_glyph == g.bottom,
                    out@ =~= with_top + hline((screen.x + 1) as u32, y1, j as int, g.bottom, b.colour),
                decreases screen.width - 2 - j,
            {
                out.push(
                    DrawCommand {
                        x: screen.x + 1 + j,
                        y: y1,
                        glyph: bottom_glyph,
                        fg: b.colour,
                        bg: Colour::Reset,
                    },
                );
                j = j + 1;
            }
            let left_glyph = b.kind.left();
            let ghost with_bottom = out@;
            let mut j: u32 = 0;
            while j < screen.height - 2
                invariant
                    screen.in_bounds(),
                    screen.width > 1,
                    screen.height > 1,
                    j <= screen.height - 2,
                    left_glyph == g.left,
                    out@ =~= with_bottom + vline(screen.x, (screen.y + 1) as u32, j as int, g.left, b.colour),
                decreases screen.height - 2 - j,
            {
                out.push(
                    DrawCommand {
                        x: screen.x,
                        y: screen.y + 1 + j,
                        glyph: left_glyph,
                        fg: b.colour,
                        bg: Colour::Reset,
                    },
                );
                j = j + 1;
            }
            let right_glyph = b.kind.right();
            let ghost with_left = out@;
            let mut j: u32 = 0;
            while j < screen.height - 2
                invariant
                    screen.in_bounds(),
                    screen.width > 1,
                    screen.height > 1,
                    x1 == screen.x + screen.width - 1,
                    j <= screen.height - 2,
                    right_glyph == g.right,
                    out@ =~= with_left + vline(x1, (screen.y + 1) as u32, j as int, g.right, b.colour),
                decreases screen.height - 2 - j,
            {
                out.push(
                    DrawCommand {
                        x: x1,
                        y: screen.y + 1 + j,
                        glyph: right_glyph,
                        fg: b.colour,
                        bg: Colour::Reset,
                    },
                );
                j = j + 1;
            }
        }
        proof {
            assert(out@ =~= border_draws(b, screen));
        }
        out
    }

    /// Compute every component's rectangle and every border cell to draw
    /// for this tree within `screen`. Splits allot the first slot its
    /// constraint's allocation clamped to the container, and the second
    /// slot its allocation clamped to what remains, so the two slots
    /// never overlap and never exceed the container.
    pub fn areas(&self, screen: Rect) -> (r: (Vec<(Rect, ComponentId)>, Vec<DrawCommand>))
        requires
            screen.in_bounds(),
        ensures
            r.0@ == spec_areas(*self, screen),
            r.1@ == spec_draws(*self, screen),
        decreases *self,
    {
        let mut rects: Vec<(Rect, ComponentId)> = Vec::new();
        let mut draws: Vec<DrawCommand> = Vec::new();
        match self {
            Layout::Empty => {},
            Layout::Single { component, border } => {
                match border {
                    Some(b) => {
                        let mut cells = Self::border_cells(*b, screen);
                        draws.append(&mut cells);
                        match component {
                            Some(c) => {
                                if screen.width > 2 && screen.height > 2 {
                                    rects.push(
                                        (
                                            Rect {
                                                x: screen.x + 1,
                                                y: screen.y + 1,
                                                width: screen.width - 2,
                                                height: screen.height - 2,
                                            },
                                            *c,
                                        ),
                                    );
                                } else {
                                    rects.push((Rect { x: 0, y: 0, width: 0, height: 0 }, *c));
                                }
                            },
                            None => {},
                        }
                    },
                    None => {
                        match component {
                            Some(c) => rects.push((screen, *c)),
                            None => {},
                        }
                    },
                }
            },
            Layout::SplitHorizontal { left_constraint, left, right_constraint, right } => {
                let w1: u32 = Self::alloc_first(left_constraint, screen.width);
                let rest: u32 = screen.width - w1;
                let e2: u32 = right_constraint.eval(screen.width);
                let w2: u32 = if e2 <= rest {
                    e2
                } else {
                    rest
                };
                let first_rect = Rect { x: screen.x, y: screen.y, width: w1, height: screen.height };
                let second_rect = Rect {
                    x: screen.x + w1,
                    y: screen.y,
                    width: w2,
                    height: screen.height,
                };
                let (mut a1, mut d1) = left.areas(first_rect);
                let (mut a2, mut d2) = right.areas(second_rect);
                rects.append(&mut a1);
                rects.append(&mut a2);
                draws.append(&mut d1);
                draws.append(&mut d2);
            },
            Layout::SplitVertical { top_constraint, top, bottom_constraint, bottom } => {
                let h1: u32 = Self::alloc_first(top_constraint, screen.height);
                let rest: u32 = screen.height - h1;
                let e2: u32 = bottom_constraint.eval(screen.height);
                let h2: u32 = if e2 <= rest {
                    e2
                } else {
                    rest
                };
                let first_rect = Rect { x: screen.x, y: screen.y, width: screen.width, height: h1 };
                let second_rect = Rect {
                    x: screen.x,
                    y: screen.y + h1,
                    width: screen.width,
                    height: h2,
                };
                let (mut a1, mut d1) = top.areas(first_rect);
                let (mut a2, mut d2) = bottom.areas(second_rect);
                rects.append(&mut a1);
                rects.append(&mut a2);
                draws.append(&mut d1);
                draws.append(&mut d2);
            },
        }
        proof {
            assert(rects@ =~= spec_areas(*self, screen));
            assert(draws@ =~= spec_draws(*self, screen));
        }
        (rects, draws)
    }

    /// Collect every component bound in the tree, in first-slot-first
    /// order.
    pub fn components(&self) -> (r: Vec<ComponentId>)
        ensures
            r@ == spec_components(*self),
        decreases *self,
    {
        let mut out: Vec<ComponentId> = Vec::new();
        match self {
            Layout::Empty => {},
            Layout::Single { component, .. } => {
                match component {
                    Some(c) => out.push(*c),
                    None => {},
                }
            },
            Layout::SplitHorizontal { left, right, .. } => {
                let mut first = left.components();
                let mut second = right.components();
                out.append(&mut first);
                out.append(&mut second);
            },
            Layout::SplitVertical { top, bottom, .. } => {
                let mut first = top.components();
                let mut second = bottom.components();
                out.append(&mut first);
                out.append(&mut second);
            },
        }
        proof {
            assert(out@ =~= spec_components(*self));
        }
        out
    }
}

} // verus!
