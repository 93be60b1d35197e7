//! Status kinds and the icons the panels show.
use vstd::prelude::*;

verus! {

/// The kind of a status message, which decides its colours.
#[derive(Debug, Clone, Copy, PartialEq, Eq, Structural)]
pub enum StatusKind {
    Success,
    Warning,
    Error,
    Info,
}

/// The icons the terminal's panels choose between.
#[derive(Debug, Clone, Copy, PartialEq, Eq, Structural)]
pub enum IconKind {
    Info,
    CircleCheck,
    TriangleAlert,
    CircleX,
    Eye,
    EyeOff,
    ArrowUp,
    ArrowDown,
    Minus,
}

} // verus!
