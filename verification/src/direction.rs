use vstd::prelude::*;

verus! {

/// Which way along an axis a direction points.
#[derive(Debug, Clone, Copy, PartialEq, Eq, Structural)]
pub enum AxisDirection {
    Positive,
    Negative,
}

impl AxisDirection {
    /// The sign of this axis direction: plus or minus one.
    pub fn sign(&self) -> (r: i8)
        ensures
            r == (match self {
                AxisDirection::Positive => 1i8,
                AxisDirection::Negative => -1i8,
            }),
    {
        match self {
            AxisDirection::Positive => 1,
            AxisDirection::Negative => -1,
        }
    }
}

/// One of the three world axes.
#[derive(Debug, Clone, Copy, PartialEq, Eq, Structural)]
pub enum Axis {
    X,
    Y,
    Z,
}

/// The plane a direction moves in.
#[derive(Debug, Clone, Copy, PartialEq, Eq, Structural)]
pub enum Plane {
    Horizontal,
    Vertical,
}

/// One of the six cardinal block directions. North is negative `z`, east is
/// positive `x`, up is positive `y`.
#[derive(Debug, Clone, Copy, PartialEq, Eq, Structural)]
pub enum Direction {
    North,
    South,
    East,
    West,
    Up,
    Down,
}

impl Direction {
    /// The direction pointing the opposite way.
    pub fn opposite(&self) -> (r: Self)
        ensures
            r == (match self {
                Direction::North => Direction::South,
                Direction::South => Direction::North,
                Direction::East => Direction::West,
                Direction::West => Direction::East,
                Direction::Up => Direction::Down,
                Direction::Down => Direction::Up,
            }),
    {
        match self {
            Self::North => Self::South,
            Self::South => Self::North,
            Self::East => Self::West,
            Self::West => Self::East,
            Self::Up => Self::Down,
            Self::Down => Self::Up,
        }
    }

    /// The axis this direction moves along.
    pub fn axis(&self) -> (r: Axis)
        ensures
            r == (match self {
                Direction::North | Direction::South => Axis::Z,
                Direction::East | Direction::West => Axis::X,
                Direction::Up | Direction::Down => Axis::Y,
            }),
    {
        match self {
            Self::North | Self::South => Axis::Z,
            Self::East | Self::West => Axis::X,
            Self::Up | Self::Down => Axis::Y,
        }
    }

    /// Which way along its axis this direction points.
    pub fn axis_direction(&self) -> (r: AxisDirection)
        ensures
            r == (match self {
                Direction::North | Direction::West | Direction::Down => AxisDirection::Negative,
                Direction::South | Direction::East | Direction::Up => AxisDirection::Positive,
            }),
    {
        match self {
            Self::North | Self::West | Self::Down => AxisDirection::Negative,
            Self::South | Self::East | Self::Up => AxisDirection::Positive,
        }
    }
}

} // verus!
