//! Grid coordinates: the mathematical plane the contracts speak of, the
//! machine cells the game stores, and the arithmetic between them.

use vstd::prelude::*;

verus! {

/// A position, or a displacement, on the unbounded integer plane.
pub struct Point {
    pub x: int,
    pub y: int,
}

/// Where a coordinate lands on an axis of `dimension` cells when the walls
/// teleport: a negative coordinate is first raised by one dimension, and the
/// result is then reduced by the truncating remainder.
pub open spec fn wrap_coordinate(value: int, dimension: int) -> int {
    let raised = if value < 0 { value + dimension } else { value };
    if raised >= 0 {
        raised % dimension
    } else {
        -((-raised) % dimension)
    }
}

impl Point {
    pub open spec fn plus(self, by: Point) -> Point {
        Point { x: self.x + by.x, y: self.y + by.y }
    }

    pub open spec fn minus(self, by: Point) -> Point {
        Point { x: self.x - by.x, y: self.y - by.y }
    }

    pub open spec fn times(self, factor: int) -> Point {
        Point { x: self.x * factor, y: self.y * factor }
    }

    /// The point lies on a grid of `width` by `height` cells.
    pub open spec fn on_grid(self, width: int, height: int) -> bool {
        0 <= self.x < width && 0 <= self.y < height
    }

    /// Both coordinates fit the machine's cells.
    pub open spec fn fits(self) -> bool {
        i32::MIN <= self.x <= i32::MAX && i32::MIN <= self.y <= i32::MAX
    }

    /// Every neighbour of the point, one unit step away, still fits the
    /// machine's cells.
    pub open spec fn has_room(self) -> bool {
        i32::MIN < self.x < i32::MAX && i32::MIN < self.y < i32::MAX
    }

    /// The point after both coordinates went through a teleporting wall.
    pub open spec fn wrapped(self, width: int, height: int) -> Point {
        Point { x: wrap_coordinate(self.x, width), y: wrap_coordinate(self.y, height) }
    }
}

/// A cell of the grid, by column and row.
#[derive(Clone, Copy, Debug, PartialEq, Eq, Structural)]
pub struct Cell {
    pub x: i32,
    pub y: i32,
}

impl View for Cell {
    type V = Point;

    open spec fn view(&self) -> Point {
        Point { x: self.x as int, y: self.y as int }
    }
}

/// A displacement between two cells.
#[derive(Clone, Copy, Debug, PartialEq, Eq, Structural)]
pub struct Offset {
    pub x: i32,
    pub y: i32,
}

impl View for Offset {
    type V = Point;

    open spec fn view(&self) -> Point {
        Point { x: self.x as int, y: self.y as int }
    }
}

/// Moves a cell forward by a displacement with cgmath's `Point2 += Vector2`,
/// which adds the displacement to the point one coordinate at a time, with
/// the machine's own addition: the sums have to fit a cell.
#[verifier::external_body]
pub(crate) fn advance_cell(cell: Cell, by: Offset) -> (moved: Cell)
    requires
        cell@.plus(by@).fits(),
    ensures
        moved@ == cell@.plus(by@),
{
    let mut point = cgmath::Point2::new(cell.x, cell.y);
    point += cgmath::Vector2::new(by.x, by.y);
    Cell { x: point.x, y: point.y }
}

/// Moves a cell back by a displacement with cgmath's `Point2 - Vector2`,
/// which subtracts the displacement from the point one coordinate at a time,
/// with the machine's own subtraction: the differences have to fit a cell.
#[verifier::external_body]
pub(crate) fn retreat_cell(cell: Cell, by: Offset) -> (moved: Cell)
    requires
        cell@.minus(by@).fits(),
    ensures
        moved@ == cell@.minus(by@),
{
    let point = cgmath::Point2::new(cell.x, cell.y) - cgmath::Vector2::new(by.x, by.y);
    Cell { x: point.x, y: point.y }
}

/// Scales a displacement with cgmath's `Vector2 * scalar`, which multiplies
/// each coordinate by the scalar, with the machine's own multiplication: the
/// products have to fit a displacement.
#[verifier::external_body]
pub(crate) fn scale_offset(offset: Offset, factor: i32) -> (scaled: Offset)
    requires
        offset@.times(factor as int).fits(),
    ensures
        scaled@ == offset@.times(factor as int),
{
    let vector = cgmath::Vector2::new(offset.x, offset.y) * factor;
    Offset { x: vector.x, y: vector.y }
}

/// Sends one coordinate through a teleporting wall of an axis of
/// `dimension` cells.
pub fn wrap_axis(value: i32, dimension: i32) -> (wrapped: i32)
    requires
        dimension > 0,
    ensures
        wrapped == wrap_coordinate(value as int, dimension as int),
{
    let raised: i32 = if value < 0 { value + dimension } else { value };
    raised % dimension
}

} // verus!
