use vstd::prelude::*;

use crate::border::Border;
use crate::common::{ComponentId, Direction};
use crate::constraint::Constraint;
use crate::layout::Layout;

verus! {

/// A structural edit request, as delivered by the canvas host: insert a
/// leaf at a path, remove the node at a path, or replace the subtree at
/// a path wholesale.
pub enum LayoutRequest {
    Add {
        at: Vec<Direction>,
        split: Direction,
        constraint_1: Constraint,
        constraint_2: Constraint,
        component: Option<ComponentId>,
        border: Option<Border>,
    },
    Remove { at: Vec<Direction> },
    SetLayout { at: Vec<Direction>, layout: Layout },
}

} // verus!
