//! Classification of a 2D integer offset into one of nine compass labels.
//!
//! Screen coordinates are used: a positive `y` points south, a negative `y`
//! points north.
use vstd::prelude::*;

verus! {

/// One of the nine labels that an offset can receive.
#[derive(Clone, Copy, Debug, PartialEq, Eq, Structural)]
pub enum Direction {
    East,
    West,
    North,
    South,
    Northeast,
    Southeast,
    Northwest,
    Southwest,
    Origin,
}

/// The sign of an integer: -1, 0 or 1.
pub open spec fn sign(v: int) -> int {
    if v > 0 {
        1
    } else if v < 0 {
        -1
    } else {
        0
    }
}

/// The label of the offset `(x, y)`, decided by the signs of its two
/// coordinates alone.
pub open spec fn direction_of(x: int, y: int) -> Direction {
    let (sx, sy) = (sign(x), sign(y));
    if sx > 0 && sy == 0 {
        Direction::East
    } else if sx < 0 && sy == 0 {
        Direction::West
    } else if sx == 0 && sy < 0 {
        Direction::North
    } else if sx == 0 && sy > 0 {
        Direction::South
    } else if sx > 0 && sy < 0 {
        Direction::Northeast
    } else if sx > 0 && sy > 0 {
        Direction::Southeast
    } else if sx < 0 && sy < 0 {
        Direction::Northwest
    } else if sx < 0 && sy > 0 {
        Direction::Southwest
    } else {
        Direction::Origin
    }
}

/// The Chinese label that a direction is shown with.
pub open spec fn label_of(d: Direction) -> Seq<char> {
    match d {
        Direction::East => "东"@,
        Direction::West => "西"@,
        Direction::North => "北"@,
        Direction::South => "南"@,
        Direction::Northeast => "东北"@,
        Direction::Southeast => "东南"@,
        Direction::Northwest => "西北"@,
        Direction::Southwest => "西南"@,
        Direction::Origin => "原点"@,
    }
}

/// The English name of a direction.
pub open spec fn name_of(d: Direction) -> Seq<char> {
    match d {
        Direction::East => "East"@,
        Direction::West => "West"@,
        Direction::North => "North"@,
        Direction::South => "South"@,
        Direction::Northeast => "Northeast"@,
        Direction::Southeast => "Southeast"@,
        Direction::Northwest => "Northwest"@,
        Direction::Southwest => "Southwest"@,
        Direction::Origin => "Origin"@,
    }
}

impl Direction {
    /// The Chinese label of this direction.
    pub fn label(&self) -> (r: &'static str)
        ensures
            r@ == label_of(*self),
    {
        match self {
            Direction::East => "东",
            Direction::West => "西",
            Direction::North => "北",
            Direction::South => "南",
            Direction::Northeast => "东北",
            Direction::Southeast => "东南",
            Direction::Northwest => "西北",
            Direction::Southwest => "西南",
            Direction::Origin => "原点",
        }
    }

    /// The English name of this direction.
    pub fn name(&self) -> (r: &'static str)
        ensures
            r@ == name_of(*self),
    {
        match self {
            Direction::East => "East",
            Direction::West => "West",
            Direction::North => "North",
            Direction::South => "South",
            Direction::Northeast => "Northeast",
            Direction::Southeast => "Southeast",
            Direction::Northwest => "Northwest",
            Direction::Southwest => "Southwest",
            Direction::Origin => "Origin",
        }
    }
}

/// Classifies the offset `(x, y)` by the signs of its coordinates.
pub fn classify(x: i32, y: i32) -> (r: Direction)
    ensures
        r == direction_of(x as int, y as int),
{
    if x > 0 {
        if y < 0 {
            Direction::Northeast
        } else if y > 0 {
            Direction::Southeast
        } else {
            Direction::East
        }
    } else if x < 0 {
        if y < 0 {
            Direction::Northwest
        } else if y > 0 {
            Direction::Southwest
        } else {
            Direction::West
        }
    } else {
        if y < 0 {
            Direction::North
        } else if y > 0 {
            Direction::South
        } else {
            Direction::Origin
        }
    }
}

/// The Chinese label of the offset `(x, y)`.
pub fn get_direction(x: i32, y: i32) -> (r: String)
    ensures
        r@ == label_of(direction_of(x as int, y as int)),
{
    let d = classify(x, y);
    d.label().to_string()
}

/// The label of an offset depends on the signs of its coordinates alone:
/// two offsets whose coordinates agree in sign receive the same label.
pub proof fn lemma_direction_depends_on_signs(x1: int, y1: int, x2: int, y2: int)
    requires
        sign(x1) == sign(x2),
        sign(y1) == sign(y2),
    ensures
        direction_of(x1, y1) == direction_of(x2, y2),
{
}

/// Scaling an offset by a positive factor keeps its label.
pub proof fn lemma_direction_scale_invariant(x: int, y: int, k: int)
    requires
        k > 0,
    ensures
        direction_of(k * x, k * y) == direction_of(x, y),
{
    assert(sign(k * x) == sign(x)) by (nonlinear_arith)
        requires
            k > 0,
    ;
    assert(sign(k * y) == sign(y)) by (nonlinear_arith)
        requires
            k > 0,
    ;
}

} // verus!
