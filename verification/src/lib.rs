//! Layout engine for a terminal-canvas compositor.
//!
//! The library owns a binary-split partition tree over the screen,
//! evaluates sizing constraints into concrete cell extents, computes the
//! rectangle of every registered component together with the border cells
//! to draw, and drives a two-phase reconciliation protocol that holds a
//! structural change open until every affected component has confirmed
//! its render.

pub mod border;
pub mod common;
pub mod constraint;
pub mod layout;
pub mod protocol;
pub mod request;

pub use border::{Border, BorderSet, BorderType};
pub use common::{Colour, ComponentId, Direction, Rect};
pub use constraint::{Constraint, ConstraintVariant};
pub use layout::{DrawCommand, Layout};
pub use protocol::{Action, HostEvent, Reconciler};
pub use request::LayoutRequest;
