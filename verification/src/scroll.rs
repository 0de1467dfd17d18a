//! The directions and axes of discrete scrolling.

use crate::traits::{place_after, place_before, AsStr, Cycle, Variants};
use vstd::prelude::*;

verus! {

/// Scroll direction.
#[derive(Debug, Clone, Copy, Eq, PartialOrd, Ord, Hash)]
pub enum Direction {
    /// Forward scroll was performed.
    Forwards,
    /// Backward scroll was performed.
    Backwards,
    /// No Scroll was performed.
    Stationary,
}

/// Axis to scroll along.
#[derive(Debug, Clone, Copy, PartialEq, Eq, PartialOrd, Ord, Hash, Structural)]
pub enum Axis {
    /// Vertical top <-> bottom scroll.
    Vertical,
    /// Horizontal left <-> right scroll.
    Horizontal,
}

impl PartialEq for Direction {
    /// Directions are equal when they are the same variant.
    fn eq(&self, other: &Self) -> (same: bool) {
        match (*self, *other) {
            (Direction::Forwards, Direction::Forwards) => true,
            (Direction::Backwards, Direction::Backwards) => true,
            (Direction::Stationary, Direction::Stationary) => true,
            _ => false,
        }
    }
}

impl vstd::std_specs::cmp::PartialEqSpecImpl for Direction {
    open spec fn obeys_eq_spec() -> bool {
        true
    }

    open spec fn eq_spec(&self, other: &Self) -> bool {
        *self == *other
    }
}

impl Default for Direction {
    /// No scroll.
    fn default() -> (direction: Direction)
        ensures
            direction == Direction::Stationary,
    {
        Direction::Stationary
    }
}

impl Default for Axis {
    /// The vertical axis.
    fn default() -> (axis: Axis)
        ensures
            axis == Axis::Vertical,
    {
        Axis::Vertical
    }
}

impl Direction {
    /// Whether this is [`Direction::Forwards`].
    pub fn is_forwards(&self) -> (yes: bool)
        ensures
            yes == (*self == Direction::Forwards),
    {
        matches!(self, Direction::Forwards)
    }

    /// Whether this is [`Direction::Backwards`].
    pub fn is_backwards(&self) -> (yes: bool)
        ensures
            yes == (*self == Direction::Backwards),
    {
        matches!(self, Direction::Backwards)
    }

    /// Whether this is [`Direction::Stationary`].
    pub fn is_stationary(&self) -> (yes: bool)
        ensures
            yes == (*self == Direction::Stationary),
    {
        matches!(self, Direction::Stationary)
    }
}

/// All directions, in the order of their declaration.
pub open spec fn all_directions() -> Seq<Direction> {
    seq![Direction::Forwards, Direction::Backwards, Direction::Stationary]
}

impl Variants for Direction {
    open spec fn spec_variants() -> Seq<Direction> {
        all_directions()
    }

    open spec fn spec_index_of(&self) -> int {
        match *self {
            Direction::Forwards => 0,
            Direction::Backwards => 1,
            Direction::Stationary => 2,
        }
    }

    fn variants() -> (all: &'static [Direction]) {
        let listed: &'static [Direction; 3] = &[
            Direction::Forwards,
            Direction::Backwards,
            Direction::Stationary,
        ];
        let all = listed.as_slice();
        assert(all@ =~= all_directions());
        assert(all@ == Self::spec_variants());
        all
    }

    fn index_of(&self) -> (index: usize) {
        assert(all_directions().len() == 3);
        assert(Self::spec_variants() == all_directions());
        assert(self.spec_index_of() == match *self {
            Direction::Forwards => 0int,
            Direction::Backwards => 1int,
            Direction::Stationary => 2int,
        });
        match *self {
            Direction::Forwards => 0,
            Direction::Backwards => 1,
            Direction::Stationary => 2,
        }
    }
}

impl Cycle for Direction {
    fn cycle_next(&self) -> (next: Direction) {
        assert(all_directions().len() == 3);
        assert(Self::spec_variants() == all_directions());
        match *self {
            Direction::Forwards => Direction::Backwards,
            Direction::Backwards => Direction::Stationary,
            Direction::Stationary => Direction::Forwards,
        }
    }

    fn cycle_prev(&self) -> (prev: Direction) {
        assert(all_directions().len() == 3);
        assert(Self::spec_variants() == all_directions());
        match *self {
            Direction::Forwards => Direction::Stationary,
            Direction::Backwards => Direction::Forwards,
            Direction::Stationary => Direction::Backwards,
        }
    }
}

impl AsStr for Direction {
    open spec fn spec_as_str(&self) -> Seq<char> {
        match *self {
            Direction::Forwards => "Forwards"@,
            Direction::Backwards => "Backwards"@,
            Direction::Stationary => "Stationary"@,
        }
    }

    fn as_str<'a>(&self) -> (name: &'a str) {
        match *self {
            Direction::Forwards => "Forwards",
            Direction::Backwards => "Backwards",
            Direction::Stationary => "Stationary",
        }
    }
}

impl Axis {
    /// Whether this is [`Axis::Vertical`].
    pub fn is_vertical(&self) -> (yes: bool)
        ensures
            yes == (*self == Axis::Vertical),
    {
        matches!(self, Axis::Vertical)
    }

    /// Whether this is [`Axis::Horizontal`].
    pub fn is_horizontal(&self) -> (yes: bool)
        ensures
            yes == (*self == Axis::Horizontal),
    {
        matches!(self, Axis::Horizontal)
    }
}

} // verus!
