//! The game's grid: the sole authority translating between the 3x3 discrete
//! board and continuous world-space geometry, and reconstructing a drawable
//! line through a set of winning positions.

use vstd::prelude::*;
use vstd::arithmetic::div_mod::lemma_fundamental_div_mod;
use vstd::arithmetic::div_mod::lemma_fundamental_div_mod_converse_div;
use vstd::arithmetic::div_mod::lemma_fundamental_div_mod_converse_mod;
use vstd::arithmetic::div_mod::lemma_mod_bound;
use crate::math::COORD_LIMIT;
use crate::math::floor_div;
use crate::math::Line;
use crate::math::Point3;
use crate::math::Square;

verus! {

/// Bound on the coordinates of a grid's origin. A grid built from a
/// well-formed center point and size stays within it.
pub const ORIGIN_LIMIT: i64 = 3_000_000_000;

// The size of tic-tac-toe boards that the grid works with.
const TTT_BOARD_SIZE: i32 = 3;

/// Represents a specific board position denoted by row and column.
///
/// The row and column values are zero based. Row increases toward higher y
/// values, column toward higher x values. Negative values, or values at or
/// above the board size, denote cells outside the drawn grid.
#[derive(Copy, Clone, Debug, PartialEq, Eq, Hash, Structural)]
pub struct Position {
    /// The row associated with the position.
    pub row: i32,
    /// The column associated with the position.
    pub column: i32,
}

/// True when the sequence holds the given position.
pub open spec fn seq_contains_position(s: Seq<Position>, p: Position) -> bool {
    exists|i: int| 0 <= i < s.len() && s[i] == p
}

/// True when the positions cover the diagonal from the bottom left cell to
/// the top right cell (row equals column).
pub open spec fn has_main_diagonal(s: Seq<Position>) -> bool {
    &&& seq_contains_position(s, Position { row: 0, column: 0 })
    &&& seq_contains_position(s, Position { row: 1, column: 1 })
    &&& seq_contains_position(s, Position { row: 2, column: 2 })
}

/// True when the positions cover the diagonal from the top left cell to the
/// bottom right cell (row plus column equals two).
pub open spec fn has_anti_diagonal(s: Seq<Position>) -> bool {
    &&& seq_contains_position(s, Position { row: 2, column: 0 })
    &&& seq_contains_position(s, Position { row: 1, column: 1 })
    &&& seq_contains_position(s, Position { row: 0, column: 2 })
}

/// True when the positions cover all three cells of the given column.
pub open spec fn has_column(s: Seq<Position>, column: i32) -> bool {
    &&& seq_contains_position(s, Position { row: 0, column })
    &&& seq_contains_position(s, Position { row: 1, column })
    &&& seq_contains_position(s, Position { row: 2, column })
}

/// True when the positions cover all three cells of the given row.
pub open spec fn has_row(s: Seq<Position>, row: i32) -> bool {
    &&& seq_contains_position(s, Position { row, column: 0 })
    &&& seq_contains_position(s, Position { row, column: 1 })
    &&& seq_contains_position(s, Position { row, column: 2 })
}

/// The value clamped into the range of `i32`, the way a saturating
/// conversion resolves far-away points.
pub open spec fn clamp_to_i32(v: int) -> int {
    if v < i32::MIN as int {
        i32::MIN as int
    } else if v > i32::MAX as int {
        i32::MAX as int
    } else {
        v
    }
}

/// Represents the game's grid.
///
/// The grid is made up of a `#` mark. Various helper methods provide access
/// to the different points in the grid.
///
/// The grid assumes a square 3x3 game board.
#[derive(Copy, Clone, Debug, PartialEq, Eq, Structural)]
pub struct Grid {
    /// The bottom left point of the grid. It is easier to do calculations
    /// from this point than from the center point.
    pub origin: Point3,
    /// Grids are square. This is the length / width of the grid.
    pub size: i64,
}

impl Grid {
    /// A positive size within bounds, with the origin within its own bound.
    pub open spec fn wf(self) -> bool {
        &&& -ORIGIN_LIMIT <= self.origin.x <= ORIGIN_LIMIT
        &&& -ORIGIN_LIMIT <= self.origin.y <= ORIGIN_LIMIT
        &&& -ORIGIN_LIMIT <= self.origin.z <= ORIGIN_LIMIT
        &&& 0 < self.size <= COORD_LIMIT
    }

    /// The grid centered around the given point with the given size.
    pub open spec fn spec_new(center_point: Point3, size: i64) -> Grid {
        Grid {
            origin: Point3 {
                x: (center_point.x - size as int / 2) as i64,
                y: (center_point.y - size as int / 2) as i64,
                z: center_point.z,
            },
            size,
        }
    }

    /// Creates a grid centered around the indicated point and with the
    /// provided size.
    ///
    /// Grids are always square, thus the size sets the width and height of
    /// the grid. The size must be greater than zero.
    pub fn new(center_point: Point3, size: i64) -> (r: Self)
        requires
            center_point.wf(),
            0 < size <= COORD_LIMIT,
        ensures
            r == Self::spec_new(center_point, size),
            r.wf(),
    {
        proof {
            lemma_fundamental_div_mod(size as int, 2);
        }
        let offset: i64 = size / 2;
        let origin = Point3::new(
            center_point.x - offset,
            center_point.y - offset,
            center_point.z,
        );
        Self { origin, size }
    }

    /// Creates a grid, rejecting a size that is not positive.
    ///
    /// `None` is returned exactly when the provided size is zero or negative.
    pub fn try_new(center_point: Point3, size: i64) -> (r: Option<Self>)
        requires
            center_point.wf(),
            size <= COORD_LIMIT,
        ensures
            r is Some <==> size > 0,
            size > 0 ==> r == Some(Self::spec_new(center_point, size)),
    {
        if size <= 0 {
            None
        } else {
            Some(Self::new(center_point, size))
        }
    }

    /// The point at the center of the grid.
    pub open spec fn spec_center_point(self) -> Point3 {
        Point3 {
            x: (self.origin.x + self.size as int / 2) as i64,
            y: (self.origin.y + self.size as int / 2) as i64,
            z: self.origin.z,
        }
    }

    /// Gets the point at the center of the grid.
    pub fn center_point(&self) -> (r: Point3)
        requires
            self.wf(),
        ensures
            r == self.spec_center_point(),
    {
        proof {
            lemma_fundamental_div_mod(self.size as int, 2);
        }
        let offset: i64 = self.size / 2;
        Point3::new(self.origin.x + offset, self.origin.y + offset, self.origin.z)
    }

    /// Gets the size of the grid.
    pub fn size(&self) -> (r: i64)
        ensures
            r == self.size,
    {
        self.size
    }

    /// The size of an individual square of the grid.
    pub open spec fn spec_square_size(self) -> int {
        self.size as int / 3
    }

    /// Half the size of an individual square of the grid.
    pub open spec fn spec_half_square_size(self) -> int {
        self.spec_square_size() / 2
    }

    /// The square size of a well-formed grid is small: dividing the bounded
    /// size by the board size keeps every derived coordinate in range.
    proof fn lemma_square_size_bounds(self)
        requires
            self.wf(),
        ensures
            0 <= self.spec_square_size() <= 666_666_666,
            0 <= self.spec_half_square_size() <= 333_333_333,
    {
        lemma_fundamental_div_mod(self.size as int, 3);
        lemma_mod_bound(self.size as int, 3);
        lemma_fundamental_div_mod(self.spec_square_size(), 2);
        lemma_mod_bound(self.spec_square_size(), 2);
    }

    // Gets the size of an individual square.
    fn square_size(&self) -> (r: i64)
        requires
            self.wf(),
        ensures
            r == self.spec_square_size(),
            0 <= r <= 666_666_666,
    {
        proof {
            self.lemma_square_size_bounds();
        }
        self.size / 3
    }

    /// The x coordinate, before conversion, of the center of the cell in the
    /// given column.
    pub open spec fn spec_cell_center_x(self, column: int) -> int {
        self.origin.x + self.spec_square_size() * column + self.spec_half_square_size()
    }

    /// The y coordinate, before conversion, of the center of the cell in the
    /// given row.
    pub open spec fn spec_cell_center_y(self, row: int) -> int {
        self.origin.y + self.spec_square_size() * row + self.spec_half_square_size()
    }

    /// The square covering the cell at the given position.
    pub open spec fn spec_position_to_square(self, position: Position) -> Square {
        Square {
            center: Point3 {
                x: self.spec_cell_center_x(position.column as int) as i64,
                y: self.spec_cell_center_y(position.row as int) as i64,
                z: self.origin.z,
            },
            half_size: self.spec_half_square_size() as i64,
        }
    }

    /// The product of a square size with a position component stays far from
    /// the `i64` range, keeping cell centers representable.
    proof fn lemma_cell_center_bounds(self, v: int)
        requires
            self.wf(),
            i32::MIN <= v <= i32::MAX,
        ensures
            -1_500_000_000_000_000_000 <= self.spec_square_size() * v
                <= 1_500_000_000_000_000_000,
    {
        self.lemma_square_size_bounds();
        let ss = self.spec_square_size();
        assert(-1_500_000_000_000_000_000 <= ss * v <= 1_500_000_000_000_000_000)
            by (nonlinear_arith)
            requires
                0 <= ss <= 666_666_666,
                -2_147_483_648 <= v <= 2_147_483_647,
        ;
    }

    /// Gets a rectangle containing the bounds of a specific position in the
    /// grid.
    ///
    /// This method does not check to see if the provided position is actually
    /// inside the grid; a position outside the grid results in a rectangle
    /// being returned that is also outside the bounds of the grid.
    pub fn position_to_square(&self, position: Position) -> (r: Square)
        requires
            self.wf(),
        ensures
            r == self.spec_position_to_square(position),
            r.wf(),
    {
        proof {
            self.lemma_cell_center_bounds(position.column as int);
            self.lemma_cell_center_bounds(position.row as int);
        }
        let square_size = self.square_size();
        let half_square_size = square_size / 2;
        let x = self.origin.x + square_size * (position.column as i64) + half_square_size;
        let y = self.origin.y + square_size * (position.row as i64) + half_square_size;
        let square_center_point = Point3::new(x, y, self.origin.z);

        Square::new(square_center_point, square_size)
    }

    /// The board position containing the given point: the point relative to
    /// the origin, divided by the square size, rounded down, and clamped into
    /// the range of the position components.
    pub open spec fn spec_point_to_position(self, point: Point3) -> Position {
        Position {
            row: clamp_to_i32((point.y - self.origin.y) / self.spec_square_size()) as i32,
            column: clamp_to_i32((point.x - self.origin.x) / self.spec_square_size()) as i32,
        }
    }

    /// Converts the provided point to a grid position.
    ///
    /// The returned position can be outside the playable area of the board.
    /// E.g. it can have a negative row or column or a very large row or
    /// column.
    ///
    /// If a point is picked that is directly on the boundary between two
    /// squares, the position returned is the one whose cell starts there
    /// (floor semantics).
    ///
    /// The grid must be at least three units across so that each of its
    /// squares has a positive size.
    pub fn point_to_position(&self, point: Point3) -> (r: Position)
        requires
            self.wf(),
            point.wf(),
            self.size >= 3,
        ensures
            r == self.spec_point_to_position(point),
    {
        proof {
            lemma_fundamental_div_mod(self.size as int, 3);
            lemma_mod_bound(self.size as int, 3);
        }
        let square_size = self.square_size();
        let column = clamp_i64_to_i32(floor_div(point.x - self.origin.x, square_size));
        let row = clamp_i64_to_i32(floor_div(point.y - self.origin.y, square_size));
        Position { row, column }
    }

    /// Gets an iterator over all the squares in the grid.
    pub fn squares(&self) -> (r: Squares)
        requires
            self.wf(),
        ensures
            r.grid == *self,
            r.current_position == (Position { row: 0, column: 0 }),
            r.wf(),
            r.spec_index() == 0,
    {
        Squares { grid: *self, current_position: Position { row: 0, column: 0 } }
    }

    /// The squares of the grid in row-major order: the cell at row `i / 3`
    /// and column `i % 3` stands at index `i`.
    pub open spec fn spec_squares_seq(self) -> Seq<Square> {
        Seq::new(
            9,
            |i: int|
                self.spec_position_to_square(
                    Position { row: (i / 3) as i32, column: (i % 3) as i32 },
                ),
        )
    }

    /// Collects the squares of the grid, in the order the iterator yields
    /// them: nine squares, row-major, starting at row zero, column zero.
    pub fn squares_vec(&self) -> (r: Vec<Square>)
        requires
            self.wf(),
        ensures
            r@ == self.spec_squares_seq(),
            r@.len() == 9,
    {
        let mut iter = self.squares();
        let mut squares: Vec<Square> = Vec::new();
        let mut i: usize = 0;
        while i < 9
            invariant
                iter.wf(),
                iter.grid == *self,
                i <= 9,
                i == iter.spec_index(),
                squares@.len() == i,
                forall|j: int|
                    0 <= j < i ==> #[trigger] squares@[j] == self.spec_position_to_square(
                        Position { row: (j / 3) as i32, column: (j % 3) as i32 },
                    ),
            decreases 9 - i,
        {
            proof {
                lemma_fundamental_div_mod_converse_div(
                    i as int,
                    3,
                    iter.current_position.row as int,
                    iter.current_position.column as int,
                );
                lemma_fundamental_div_mod_converse_mod(
                    i as int,
                    3,
                    iter.current_position.row as int,
                    iter.current_position.column as int,
                );
            }
            let square = iter.next().unwrap();
            squares.push(square);
            i = i + 1;
        }
        proof {
            assert(squares@ =~= self.spec_squares_seq());
        }
        squares
    }

    /// The four hash-mark lines of the grid: the two vertical lines followed
    /// by the two horizontal lines, each starting at the bottom or left of
    /// the grid.
    pub open spec fn spec_lines(self) -> Seq<Line> {
        let ss = self.spec_square_size();
        let ox = self.origin.x;
        let oy = self.origin.y;
        let oz = self.origin.z;
        seq![
            Line {
                start: Point3 { x: (ox + ss) as i64, y: oy, z: oz },
                end: Point3 { x: (ox + ss) as i64, y: (oy + self.size) as i64, z: oz },
            },
            Line {
                start: Point3 { x: (ox + ss * 2) as i64, y: oy, z: oz },
                end: Point3 { x: (ox + ss * 2) as i64, y: (oy + self.size) as i64, z: oz },
            },
            Line {
                start: Point3 { x: ox, y: (oy + ss) as i64, z: oz },
                end: Point3 { x: (ox + self.size) as i64, y: (oy + ss) as i64, z: oz },
            },
            Line {
                start: Point3 { x: ox, y: (oy + ss * 2) as i64, z: oz },
                end: Point3 { x: (ox + self.size) as i64, y: (oy + ss * 2) as i64, z: oz },
            },
        ]
    }

    /// Gets the lines that make up the grid's hash marks.
    ///
    /// The vertical lines are first in the vector followed by the horizontal
    /// lines. The points in the lines start at the bottom or left of the grid
    /// and end at the top or right of the grid.
    pub fn lines(&self) -> (r: Vec<Line>)
        requires
            self.wf(),
        ensures
            r@ == self.spec_lines(),
            r@.len() == 4,
    {
        let square_size = self.square_size();
        let a = Point3::new(self.origin.x + square_size, self.origin.y, self.origin.z);
        let b = Point3::new(
            self.origin.x + square_size,
            self.origin.y + self.size,
            self.origin.z,
        );
        let c = Point3::new(
            self.origin.x + square_size * 2,
            self.origin.y,
            self.origin.z,
        );
        let d = Point3::new(
            self.origin.x + square_size * 2,
            self.origin.y + self.size,
            self.origin.z,
        );
        let e = Point3::new(self.origin.x, self.origin.y + square_size, self.origin.z);
        let f = Point3::new(
            self.origin.x + self.size,
            self.origin.y + square_size,
            self.origin.z,
        );
        let g = Point3::new(
            self.origin.x,
            self.origin.y + square_size * 2,
            self.origin.z,
        );
        let h = Point3::new(
            self.origin.x + self.size,
            self.origin.y + square_size * 2,
            self.origin.z,
        );

        let mut lines: Vec<Line> = Vec::new();
        lines.push(Line::new(a, b));
        lines.push(Line::new(c, d));
        lines.push(Line::new(e, f));
        lines.push(Line::new(g, h));
        proof {
            assert(lines@ =~= self.spec_lines());
        }
        lines
    }

    /// The line drawn through the main diagonal, from the bottom left corner
    /// of the bottom left cell to the top right corner of the top right cell.
    pub open spec fn spec_main_diagonal_line(self) -> Line {
        Line {
            start: self.spec_position_to_square(
                Position { row: 0, column: 0 },
            ).spec_bottom_left(),
            end: self.spec_position_to_square(
                Position { row: 2, column: 2 },
            ).spec_top_right(),
        }
    }

    /// The line drawn through the anti diagonal, from the top left corner of
    /// the top left cell to the bottom right corner of the bottom right cell.
    pub open spec fn spec_anti_diagonal_line(self) -> Line {
        Line {
            start: self.spec_position_to_square(
                Position { row: 2, column: 0 },
            ).spec_top_left(),
            end: self.spec_position_to_square(
                Position { row: 0, column: 2 },
            ).spec_bottom_right(),
        }
    }

    /// The vertical line drawn through the given column, from the bottom of
    /// its bottom cell to the top of its top cell.
    pub open spec fn spec_column_line(self, column: i32) -> Line {
        Line {
            start: self.spec_position_to_square(
                Position { row: 0, column },
            ).spec_bottom_center(),
            end: self.spec_position_to_square(
                Position { row: 2, column },
            ).spec_top_center(),
        }
    }

    /// The horizontal line drawn through the given row, from the left of its
    /// left cell to the right of its right cell.
    pub open spec fn spec_row_line(self, row: i32) -> Line {
        Line {
            start: self.spec_position_to_square(
                Position { row, column: 0 },
            ).spec_center_left(),
            end: self.spec_position_to_square(
                Position { row, column: 2 },
            ).spec_center_right(),
        }
    }

    /// The line drawn through a set of winning positions, if the positions
    /// cover one of the eight canonical win patterns. The patterns are tried
    /// in a fixed order: the main diagonal, the anti diagonal, the columns
    /// from left to right, then the rows from bottom to top; the first match
    /// decides, so at most one line is ever produced.
    pub open spec fn spec_wining_line(self, s: Seq<Position>) -> Option<Line> {
        if has_main_diagonal(s) {
            Some(self.spec_main_diagonal_line())
        } else if has_anti_diagonal(s) {
            Some(self.spec_anti_diagonal_line())
        } else if has_column(s, 0) {
            Some(self.spec_column_line(0))
        } else if has_column(s, 1) {
            Some(self.spec_column_line(1))
        } else if has_column(s, 2) {
            Some(self.spec_column_line(2))
        } else if has_row(s, 0) {
            Some(self.spec_row_line(0))
        } else if has_row(s, 1) {
            Some(self.spec_row_line(1))
        } else if has_row(s, 2) {
            Some(self.spec_row_line(2))
        } else {
            None
        }
    }

    /// Returns a line that can be drawn through the provided winning
    /// positions.
    ///
    /// If multiple lines can be drawn through the positions, only one line is
    /// selected. The endpoints of the line are along the grid's edges. Lines
    /// start left or bottom of the grid. The top-left to bottom-right
    /// diagonal starts at the top left.
    ///
    /// `None` is returned if the winning positions are empty or a line cannot
    /// be drawn through them.
    pub fn wining_line(&self, winning_positions: &Vec<Position>) -> (r: Option<Line>)
        requires
            self.wf(),
        ensures
            r == self.spec_wining_line(winning_positions@),
    {
        if let Some(line) = self.bottom_left_to_top_right_winning_line(winning_positions) {
            Some(line)
        } else if let Some(line) = self.top_left_to_bottom_right_winning_line(
            winning_positions,
        ) {
            Some(line)
        } else if let Some(line) = self.vertical_or_horizontal_winning_line(
            winning_positions,
        ) {
            Some(line)
        } else {
            None
        }
    }

    // Gets the bottom-left to top-right line.
    fn bottom_left_to_top_right_winning_line(
        &self,
        winning_positions: &Vec<Position>,
    ) -> (r: Option<Line>)
        requires
            self.wf(),
        ensures
            has_main_diagonal(winning_positions@) ==> r == Some(
                self.spec_main_diagonal_line(),
            ),
            !has_main_diagonal(winning_positions@) ==> r is None,
    {
        let mut index: i32 = 0;
        while index < TTT_BOARD_SIZE
            invariant
                0 <= index <= 3,
                index >= 1 ==> seq_contains_position(
                    winning_positions@,
                    Position { row: 0, column: 0 },
                ),
                index >= 2 ==> seq_contains_position(
                    winning_positions@,
                    Position { row: 1, column: 1 },
                ),
                index >= 3 ==> seq_contains_position(
                    winning_positions@,
                    Position { row: 2, column: 2 },
                ),
            decreases 3 - index,
        {
            let position = Position { row: index, column: index };
            if !contains_position(winning_positions, position) {
                return None;
            }
            index = index + 1;
        }
        let start_square = self.position_to_square(Position { row: 0, column: 0 });
        let end_square = self.position_to_square(
            Position { row: TTT_BOARD_SIZE - 1, column: TTT_BOARD_SIZE - 1 },
        );
        Some(Line::new(start_square.bottom_left(), end_square.top_right()))
    }

    // Gets the top-left to bottom-right line.
    fn top_left_to_bottom_right_winning_line(
        &self,
        winning_positions: &Vec<Position>,
    ) -> (r: Option<Line>)
        requires
            self.wf(),
        ensures
            has_anti_diagonal(winning_positions@) ==> r == Some(
                self.spec_anti_diagonal_line(),
            ),
            !has_anti_diagonal(winning_positions@) ==> r is None,
    {
        let mut index: i32 = 0;
        while index < TTT_BOARD_SIZE
            invariant
                0 <= index <= 3,
                index >= 1 ==> seq_contains_position(
                    winning_positions@,
                    Position { row: 2, column: 0 },
                ),
                index >= 2 ==> seq_contains_position(
                    winning_positions@,
                    Position { row: 1, column: 1 },
                ),
                index >= 3 ==> seq_contains_position(
                    winning_positions@,
                    Position { row: 0, column: 2 },
                ),
            decreases 3 - index,
        {
            let position = Position { row: TTT_BOARD_SIZE - index - 1, column: index };
            if !contains_position(winning_positions, position) {
                return None;
            }
            index = index + 1;
        }
        let start_square = self.position_to_square(
            Position { row: TTT_BOARD_SIZE - 1, column: 0 },
        );
        let end_square = self.position_to_square(
            Position { row: 0, column: TTT_BOARD_SIZE - 1 },
        );
        Some(Line::new(start_square.top_left(), end_square.bottom_right()))
    }

    // Gets a vertical or horizontal line, checking the columns from left to
    // right and then the rows from bottom to top.
    fn vertical_or_horizontal_winning_line(
        &self,
        winning_positions: &Vec<Position>,
    ) -> (r: Option<Line>)
        requires
            self.wf(),
        ensures
            r == self.spec_vertical_or_horizontal_line(winning_positions@),
    {
        let mut column: i32 = 0;
        while column < TTT_BOARD_SIZE
            invariant
                0 <= column <= 3,
                self.wf(),
                forall|c: i32| 0 <= c < column ==> !has_column(winning_positions@, c),
            decreases 3 - column,
        {
            if contains_position(winning_positions, Position { row: 0, column })
                && contains_position(winning_positions, Position { row: 1, column })
                && contains_position(winning_positions, Position { row: 2, column }) {
                let start_square = self.position_to_square(Position { row: 0, column });
                let end_square = self.position_to_square(
                    Position { row: TTT_BOARD_SIZE - 1, column },
                );
                return Some(Line::new(
                    start_square.bottom_center(),
                    end_square.top_center(),
                ));
            }
            column = column + 1;
        }

        let mut row: i32 = 0;
        while row < TTT_BOARD_SIZE
            invariant
                0 <= row <= 3,
                self.wf(),
                forall|c: i32| 0 <= c < 3 ==> !has_column(winning_positions@, c),
                forall|w: i32| 0 <= w < row ==> !has_row(winning_positions@, w),
            decreases 3 - row,
        {
            if contains_position(winning_positions, Position { row, column: 0 })
                && contains_position(winning_positions, Position { row, column: 1 })
                && contains_position(winning_positions, Position { row, column: 2 }) {
                let start_square = self.position_to_square(Position { row, column: 0 });
                let end_square = self.position_to_square(
                    Position { row, column: TTT_BOARD_SIZE - 1 },
                );
                return Some(Line::new(
                    start_square.center_left(),
                    end_square.center_right(),
                ));
            }
            row = row + 1;
        }

        None
    }

    /// The vertical or horizontal part of the win-line search: the first full
    /// column from the left, else the first full row from the bottom.
    pub open spec fn spec_vertical_or_horizontal_line(self, s: Seq<Position>) -> Option<
        Line,
    > {
        if has_column(s, 0) {
            Some(self.spec_column_line(0))
        } else if has_column(s, 1) {
            Some(self.spec_column_line(1))
        } else if has_column(s, 2) {
            Some(self.spec_column_line(2))
        } else if has_row(s, 0) {
            Some(self.spec_row_line(0))
        } else if has_row(s, 1) {
            Some(self.spec_row_line(1))
        } else if has_row(s, 2) {
            Some(self.spec_row_line(2))
        } else {
            None
        }
    }
}

impl Default for Grid {
    /// A unit-size grid centered at the world origin.
    fn default() -> (r: Self)
        ensures
            r == Grid::spec_new(Point3 { x: 0, y: 0, z: 0 }, 1),
            r.wf(),
    {
        Grid::new(Point3::new(0, 0, 0), 1)
    }
}

// Indicates if the vector holds the given position.
fn contains_position(positions: &Vec<Position>, position: Position) -> (r: bool)
    ensures
        r == seq_contains_position(positions@, position),
{
    let mut i: usize = 0;
    while i < positions.len()
        invariant
            i <= positions@.len(),
            forall|j: int| 0 <= j < i ==> positions@[j] != position,
        decreases positions@.len() - i,
    {
        if positions[i] == position {
            return true;
        }
        i = i + 1;
    }
    false
}

// Clamps a value into the range of `i32`.
fn clamp_i64_to_i32(v: i64) -> (r: i32)
    ensures
        r as int == clamp_to_i32(v as int),
{
    if v < i32::MIN as i64 {
        i32::MIN
    } else if v > i32::MAX as i64 {
        i32::MAX
    } else {
        v as i32
    }
}

/// An iterator over the squares that are inside the `Grid`.
///
/// Squares always start at position (0, 0) then increase first by columns
/// then by rows until the end of the grid is reached.
#[derive(Copy, Clone, Debug, PartialEq, Eq, Structural)]
pub struct Squares {
    /// The grid whose squares are yielded.
    pub grid: Grid,
    /// The position of the next square to yield.
    pub current_position: Position,
}

impl Squares {
    /// A well-formed cursor: the column stays inside the board and the row
    /// runs one past it when the iterator is exhausted.
    pub open spec fn wf(self) -> bool {
        &&& self.grid.wf()
        &&& 0 <= self.current_position.row <= 3
        &&& 0 <= self.current_position.column < 3
        &&& self.current_position.row == 3 ==> self.current_position.column == 0
    }

    /// How many squares have been yielded so far.
    pub open spec fn spec_index(self) -> int {
        3 * self.current_position.row + self.current_position.column
    }

    /// Yields the square at the current position and advances, column first,
    /// wrapping to the next row when the column reaches the board width.
    /// Returns `None` once all nine squares have been yielded.
    pub fn next(&mut self) -> (r: Option<Square>)
        requires
            old(self).wf(),
        ensures
            final(self).wf(),
            final(self).grid == old(self).grid,
            old(self).current_position.row >= 3 ==> r is None,
            old(self).current_position.row >= 3 ==> *final(self) == *old(self),
            old(self).current_position.row < 3 ==> r == Some(
                old(self).grid.spec_position_to_square(old(self).current_position),
            ),
            old(self).current_position.row < 3 ==> final(self).spec_index() == old(
                self,
            ).spec_index() + 1,
    {
        // Check to see if the iterator has already been exhausted.
        if self.current_position.row >= TTT_BOARD_SIZE {
            None
        } else {
            let position = self.current_position;
            // Advance the position checking to see if the column needs to
            // wrap around.
            self.current_position.column = self.current_position.column + 1;
            if self.current_position.column >= TTT_BOARD_SIZE {
                self.current_position.row = self.current_position.row + 1;
                self.current_position.column = 0;
            }

            let square = self.grid.position_to_square(position);
            Some(square)
        }
    }
}

/// Law: building a grid and reading back its center point and size returns
/// exactly the values it was built from.
pub proof fn lemma_grid_new_round_trip(center_point: Point3, size: i64)
    requires
        center_point.wf(),
        0 < size <= COORD_LIMIT,
    ensures
        Grid::spec_new(center_point, size).spec_center_point() == center_point,
        Grid::spec_new(center_point, size).size == size,
{
    lemma_fundamental_div_mod(size as int, 2);
    lemma_mod_bound(size as int, 2);
}

/// Law: the first two hash-mark lines are vertical, the last two are
/// horizontal, and each spans exactly the grid's size.
pub proof fn lemma_lines_span_grid(grid: Grid)
    requires
        grid.wf(),
    ensures
        grid.spec_lines().len() == 4,
        grid.spec_lines()[0].start.x == grid.spec_lines()[0].end.x,
        grid.spec_lines()[1].start.x == grid.spec_lines()[1].end.x,
        grid.spec_lines()[2].start.y == grid.spec_lines()[2].end.y,
        grid.spec_lines()[3].start.y == grid.spec_lines()[3].end.y,
        grid.spec_lines()[0].end.y - grid.spec_lines()[0].start.y == grid.size,
        grid.spec_lines()[1].end.y - grid.spec_lines()[1].start.y == grid.size,
        grid.spec_lines()[2].end.x - grid.spec_lines()[2].start.x == grid.size,
        grid.spec_lines()[3].end.x - grid.spec_lines()[3].start.x == grid.size,
{
    grid.lemma_square_size_bounds();
}

/// Law: a winning line exists exactly for the eight canonical win patterns
/// of the 3x3 board: the two diagonals, the three columns and the three
/// rows. In particular an empty set of positions never yields a line.
pub proof fn lemma_wining_line_needs_canonical_pattern(grid: Grid, s: Seq<Position>)
    ensures
        (grid.spec_wining_line(s) is Some) <==> (has_main_diagonal(s) || has_anti_diagonal(s)
            || has_column(s, 0) || has_column(s, 1) || has_column(s, 2) || has_row(s, 0)
            || has_row(s, 1) || has_row(s, 2)),
        s.len() == 0 ==> grid.spec_wining_line(s) is None,
{
}

/// Law: the squares sequence has exactly nine entries in row-major order:
/// the first is the cell at row zero, column zero; the second is the cell at
/// row zero, column one; the last is the cell at row two, column two.
pub proof fn lemma_squares_row_major(grid: Grid)
    requires
        grid.wf(),
    ensures
        grid.spec_squares_seq().len() == 9,
        grid.spec_squares_seq()[0] == grid.spec_position_to_square(
            Position { row: 0, column: 0 },
        ),
        grid.spec_squares_seq()[1] == grid.spec_position_to_square(
            Position { row: 0, column: 1 },
        ),
        grid.spec_squares_seq()[8] == grid.spec_position_to_square(
            Position { row: 2, column: 2 },
        ),
{
}

} // verus!
