//! Math related structures and functions: world-space points, lines and
//! squares, and the exact floor division the grid geometry is built on.
//!
//! All world coordinates are fixed-point `i64` values in a caller-chosen unit,
//! so every operation here is exact integer arithmetic.

use vstd::prelude::*;
use vstd::arithmetic::div_mod::lemma_fundamental_div_mod;
use vstd::arithmetic::div_mod::lemma_fundamental_div_mod_converse_div;
use vstd::arithmetic::div_mod::lemma_mod_bound;

verus! {

/// Bound on the coordinates of free-standing world points and on grid sizes.
///
/// Keeping points and grid sizes within this bound guarantees that every
/// derived quantity (cell centers, corners, grid positions) fits in `i64`.
pub const COORD_LIMIT: i64 = 2_000_000_000;

/// Bound on the center coordinates and on the size of a `Square`.
///
/// Squares derived from a grid stay far below this bound; it only exists so
/// the corner and edge accessors are free of overflow.
pub const SQUARE_LIMIT: i64 = 4_000_000_000_000_000_000;

/// Computes the floor of `a / b`, the quotient of Euclidean division for a
/// positive divisor, matching how a real-valued quotient would be rounded
/// down.
pub fn floor_div(a: i64, b: i64) -> (q: i64)
    requires
        1 <= b <= COORD_LIMIT,
        -6_000_000_000 <= a <= 6_000_000_000,
    ensures
        q == a as int / b as int,
        -6_000_000_000 <= q <= 6_000_000_000,
{
    if a >= 0 {
        let q0: u64 = (a as u64) / (b as u64);
        proof {
            let ai = a as int;
            let bi = b as int;
            lemma_fundamental_div_mod(ai, bi);
            lemma_mod_bound(ai, bi);
            assert(0 <= ai / bi <= ai) by (nonlinear_arith)
                requires
                    ai == bi * (ai / bi) + ai % bi,
                    0 <= ai % bi < bi,
                    1 <= bi,
                    0 <= ai,
            ;
        }
        q0 as i64
    } else {
        let na: u64 = (-a) as u64;
        let bu: u64 = b as u64;
        let q0: u64 = (na + bu - 1) / bu;
        proof {
            let ai = a as int;
            let bi = b as int;
            lemma_fundamental_div_mod(ai, bi);
            lemma_mod_bound(ai, bi);
            let qi = ai / bi;
            let ri = ai % bi;
            assert(ai <= qi <= 0) by (nonlinear_arith)
                requires
                    ai == bi * qi + ri,
                    0 <= ri < bi,
                    1 <= bi,
                    ai < 0,
            ;
            // na + bu - 1 == (-qi) * b + (b - 1 - ri), with 0 <= b - 1 - ri < b,
            // so the unsigned quotient is exactly -qi.
            assert((-qi) * bi == -(bi * qi)) by (nonlinear_arith);
            assert(na as int + bi - 1 == (-qi) * bi + (bi - 1 - ri));
            lemma_fundamental_div_mod_converse_div(
                na as int + bi - 1,
                bi,
                -qi,
                bi - 1 - ri,
            );
        }
        -(q0 as i64)
    }
}

/// Represents a point on the screen using screen coordinates.
#[derive(Copy, Clone, Debug, PartialEq, Eq, Structural)]
pub struct ScreenPoint {
    /// The X coordinate of the point.
    pub x: i64,
    /// The Y coordinate of the point.
    pub y: i64,
}

impl ScreenPoint {
    /// Constructor for making a new screen point.
    pub fn new(x: i64, y: i64) -> (r: Self)
        ensures
            r == (ScreenPoint { x, y }),
    {
        Self { x, y }
    }
}

impl From<(i64, i64)> for ScreenPoint {
    /// Gets a screen point from a tuple.
    fn from(value: (i64, i64)) -> (r: Self) {
        Self { x: value.0, y: value.1 }
    }
}

impl vstd::std_specs::convert::FromSpecImpl<(i64, i64)> for ScreenPoint {
    open spec fn obeys_from_spec() -> bool {
        true
    }

    open spec fn from_spec(value: (i64, i64)) -> Self {
        ScreenPoint { x: value.0, y: value.1 }
    }
}

/// A point in world coordinates; z is used only for draw layering.
#[derive(Copy, Clone, Debug, PartialEq, Eq, Structural)]
pub struct Point3 {
    /// The X coordinate of the point.
    pub x: i64,
    /// The Y coordinate of the point.
    pub y: i64,
    /// The Z coordinate of the point.
    pub z: i64,
}

impl Point3 {
    /// All coordinates within the world-point bound.
    pub open spec fn wf(self) -> bool {
        &&& -COORD_LIMIT <= self.x <= COORD_LIMIT
        &&& -COORD_LIMIT <= self.y <= COORD_LIMIT
        &&& -COORD_LIMIT <= self.z <= COORD_LIMIT
    }

    /// Constructor for making a new point.
    pub fn new(x: i64, y: i64, z: i64) -> (r: Self)
        ensures
            r == (Point3 { x, y, z }),
    {
        Self { x, y, z }
    }
}

/// Holds a line described by its two end points.
#[derive(Copy, Clone, Debug, PartialEq, Eq, Structural)]
pub struct Line {
    /// The point the line starts at.
    pub start: Point3,
    /// The point the line ends at.
    pub end: Point3,
}

impl Line {
    /// Constructor for making a new line.
    pub fn new(start: Point3, end: Point3) -> (r: Self)
        ensures
            r == (Line { start, end }),
    {
        Self { start, end }
    }

    /// Gets the start point of the line.
    pub fn start(&self) -> (r: Point3)
        ensures
            r == self.start,
    {
        self.start
    }

    /// Gets the end point of the line.
    pub fn end(&self) -> (r: Point3)
        ensures
            r == self.end,
    {
        self.end
    }
}

/// Represents an axis aligned rectangle with equal length sides.
///
/// This is useful for representing tic-tac-toe squares.
///
/// **Note**: The square is defined using world coordinates.
#[derive(Copy, Clone, Debug, PartialEq, Eq, Structural)]
pub struct Square {
    /// The square's center point.
    pub center: Point3,
    /// Half of the square's width or height. Storing half the size makes the
    /// math for the accessor functions easier.
    pub half_size: i64,
}

impl Square {
    /// Center within the square bound and a non-negative half size small
    /// enough that every corner fits in `i64`.
    pub open spec fn wf(self) -> bool {
        &&& -SQUARE_LIMIT <= self.center.x <= SQUARE_LIMIT
        &&& -SQUARE_LIMIT <= self.center.y <= SQUARE_LIMIT
        &&& -SQUARE_LIMIT <= self.center.z <= SQUARE_LIMIT
        &&& 0 <= self.half_size <= SQUARE_LIMIT / 2
    }

    /// The square built from a center point and a full (non-negative) size.
    pub open spec fn spec_new(center: Point3, size: i64) -> Square {
        Square { center, half_size: (size as int / 2) as i64 }
    }

    /// Builds a new square from the provided center point and size.
    ///
    /// The size of the square must be zero or greater; a degenerate square of
    /// size zero is permitted.
    pub fn new(center: Point3, size: i64) -> (r: Self)
        requires
            -SQUARE_LIMIT <= center.x <= SQUARE_LIMIT,
            -SQUARE_LIMIT <= center.y <= SQUARE_LIMIT,
            -SQUARE_LIMIT <= center.z <= SQUARE_LIMIT,
            0 <= size <= SQUARE_LIMIT,
        ensures
            r == Self::spec_new(center, size),
            r.wf(),
            r.half_size == size as int / 2,
    {
        proof {
            lemma_fundamental_div_mod(size as int, 2);
        }
        Self { center, half_size: size / 2 }
    }

    /// Builds a new square, rejecting a negative size.
    ///
    /// `None` is returned exactly when the provided size is negative; a size
    /// of zero gives a degenerate point square.
    pub fn try_new(center: Point3, size: i64) -> (r: Option<Self>)
        requires
            -SQUARE_LIMIT <= center.x <= SQUARE_LIMIT,
            -SQUARE_LIMIT <= center.y <= SQUARE_LIMIT,
            -SQUARE_LIMIT <= center.z <= SQUARE_LIMIT,
            size <= SQUARE_LIMIT,
        ensures
            r is Some <==> size >= 0,
            size >= 0 ==> r == Some(Self::spec_new(center, size)),
    {
        if size < 0 {
            None
        } else {
            Some(Self::new(center, size))
        }
    }

    /// Gets the square's center point.
    pub fn center(&self) -> (r: Point3)
        ensures
            r == self.center,
    {
        self.center
    }

    /// Gets the square's size -- that is the width, or height, of the square.
    pub fn size(&self) -> (r: i64)
        requires
            self.wf(),
        ensures
            r == 2 * self.half_size,
    {
        self.half_size * 2
    }

    /// The top of the square directly above the center point.
    pub open spec fn spec_top_center(self) -> Point3 {
        Point3 {
            x: self.center.x,
            y: (self.center.y + self.half_size) as i64,
            z: self.center.z,
        }
    }

    /// Gets the top of the square directly above the center point.
    pub fn top_center(&self) -> (r: Point3)
        requires
            self.wf(),
        ensures
            r == self.spec_top_center(),
    {
        Point3::new(self.center.x, self.center.y + self.half_size, self.center.z)
    }

    /// The bottom of the square directly below the center point.
    pub open spec fn spec_bottom_center(self) -> Point3 {
        Point3 {
            x: self.center.x,
            y: (self.center.y - self.half_size) as i64,
            z: self.center.z,
        }
    }

    /// Gets the bottom of the square directly below the center point.
    pub fn bottom_center(&self) -> (r: Point3)
        requires
            self.wf(),
        ensures
            r == self.spec_bottom_center(),
    {
        Point3::new(self.center.x, self.center.y - self.half_size, self.center.z)
    }

    /// The left side of the square directly to the left of the center point.
    pub open spec fn spec_center_left(self) -> Point3 {
        Point3 {
            x: (self.center.x - self.half_size) as i64,
            y: self.center.y,
            z: self.center.z,
        }
    }

    /// Gets the left side of the square directly to the left of the center point.
    pub fn center_left(&self) -> (r: Point3)
        requires
            self.wf(),
        ensures
            r == self.spec_center_left(),
    {
        Point3::new(self.center.x - self.half_size, self.center.y, self.center.z)
    }

    /// The right side of the square directly to the right of the center point.
    pub open spec fn spec_center_right(self) -> Point3 {
        Point3 {
            x: (self.center.x + self.half_size) as i64,
            y: self.center.y,
            z: self.center.z,
        }
    }

    /// Gets the right side of the square directly to the right of the center point.
    pub fn center_right(&self) -> (r: Point3)
        requires
            self.wf(),
        ensures
            r == self.spec_center_right(),
    {
        Point3::new(self.center.x + self.half_size, self.center.y, self.center.z)
    }

    /// The top left corner of the square.
    pub open spec fn spec_top_left(self) -> Point3 {
        Point3 {
            x: (self.center.x - self.half_size) as i64,
            y: (self.center.y + self.half_size) as i64,
            z: self.center.z,
        }
    }

    /// Gets the top left corner of the square.
    pub fn top_left(&self) -> (r: Point3)
        requires
            self.wf(),
        ensures
            r == self.spec_top_left(),
    {
        Point3::new(
            self.center.x - self.half_size,
            self.center.y + self.half_size,
            self.center.z,
        )
    }

    /// The top right corner of the square.
    pub open spec fn spec_top_right(self) -> Point3 {
        Point3 {
            x: (self.center.x + self.half_size) as i64,
            y: (self.center.y + self.half_size) as i64,
            z: self.center.z,
        }
    }

    /// Gets the top right corner of the square.
    pub fn top_right(&self) -> (r: Point3)
        requires
            self.wf(),
        ensures
            r == self.spec_top_right(),
    {
        Point3::new(
            self.center.x + self.half_size,
            self.center.y + self.half_size,
            self.center.z,
        )
    }

    /// The bottom left corner of the square.
    pub open spec fn spec_bottom_left(self) -> Point3 {
        Point3 {
            x: (self.center.x - self.half_size) as i64,
            y: (self.center.y - self.half_size) as i64,
            z: self.center.z,
        }
    }

    /// Gets the bottom left corner of the square.
    pub fn bottom_left(&self) -> (r: Point3)
        requires
            self.wf(),
        ensures
            r == self.spec_bottom_left(),
    {
        Point3::new(
            self.center.x - self.half_size,
            self.center.y - self.half_size,
            self.center.z,
        )
    }

    /// The bottom right corner of the square.
    pub open spec fn spec_bottom_right(self) -> Point3 {
        Point3 {
            x: (self.center.x + self.half_size) as i64,
            y: (self.center.y - self.half_size) as i64,
            z: self.center.z,
        }
    }

    /// Gets the bottom right corner of the square.
    pub fn bottom_right(&self) -> (r: Point3)
        requires
            self.wf(),
        ensures
            r == self.spec_bottom_right(),
    {
        Point3::new(
            self.center.x + self.half_size,
            self.center.y - self.half_size,
            self.center.z,
        )
    }
}

} // verus!
