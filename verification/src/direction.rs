//! Discrete input directions and key states.
//!
//! Each direction enum maps a key onto one orthogonal screen axis and a
//! forward/backward sign; `ButtonState` records whether the key went down
//! or up.

use vstd::prelude::*;

verus! {

/// State of a key or mouse button as reported by the windowing layer.
#[derive(Clone, Copy, Debug, PartialEq, Eq, Structural)]
pub enum ButtonState {
    Pressed,
    Released,
}

/// A panning direction on the two orthogonal screen axes.
#[derive(Clone, Copy, Debug, PartialEq, Eq, Structural)]
pub enum MoveDirection {
    Up,
    Down,
    Left,
    Right,
}

impl MoveDirection {
    /// Which screen axis the key drives: `false` is horizontal, `true` vertical.
    pub fn axis(self) -> (r: bool)
        ensures
            r == (self is Up || self is Down),
    {
        match self {
            Self::Up | Self::Down => true,
            Self::Left | Self::Right => false,
        }
    }

    /// Whether the key moves forward (positive) along its axis.
    pub fn forward(self) -> (r: bool)
        ensures
            r == (self is Right || self is Up),
    {
        match self {
            Self::Right | Self::Up => true,
            Self::Left | Self::Down => false,
        }
    }
}

/// A rotation direction around the view center.
#[derive(Clone, Copy, Debug, PartialEq, Eq, Structural)]
pub enum RotateDirection {
    Left,
    Right,
}

impl RotateDirection {
    /// Whether the key rotates in the forward (positive-angle) sense.
    pub fn forward(self) -> (r: bool)
        ensures
            r == (self is Right),
    {
        match self {
            Self::Right => true,
            Self::Left => false,
        }
    }
}

/// A zoom direction: into the plane or out of it.
#[derive(Clone, Copy, Debug, PartialEq, Eq, Structural)]
pub enum ZoomDirection {
    Inwards,
    Outwards,
}

impl ZoomDirection {
    /// Whether the key zooms in the forward (magnifying) sense.
    pub fn forward(self) -> (r: bool)
        ensures
            r == (self is Inwards),
    {
        match self {
            Self::Inwards => true,
            Self::Outwards => false,
        }
    }
}

} // verus!
