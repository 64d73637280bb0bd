//! The map from cells of the grid to rectangles of the screen.
//!
//! The grid is scaled by one factor in both directions, the largest at which
//! it still fits the screen, and centred. Nothing is rounded: a screen
//! coordinate is an exact fraction of a pixel, written as a count of units
//! together with the number of units that make up one pixel.

use vstd::prelude::*;
use crate::cell::{Cell, Point};
use crate::engine::{Color, Extent, Mesh, Object, ObjectView, RectView, ScreenRect};

verus! {

/// The parts in which size multipliers are counted: thousandths of a cell's
/// side.
pub const FULL_SIZE: i32 = 1000;

/// The colour of the grid's background.
pub open spec fn grid_color() -> Color {
    Color { red: 950, green: 950, blue: 950, alpha: 900 }
}

/// What a grid transform is to the contracts.
pub struct GridView {
    /// Pixels that `scale_denominator` cells take up.
    pub scale_numerator: int,
    /// Cells that take up `scale_numerator` pixels.
    pub scale_denominator: int,
    /// From the screen's left edge to the grid's, in pixels times twice the
    /// scale's denominator.
    pub offset_x: int,
    /// From the screen's upper edge to the grid's, in pixels times twice the
    /// scale's denominator.
    pub offset_y: int,
    /// What the renderer is to draw for the grid's background.
    pub object: ObjectView,
}

impl GridView {
    /// The transform that fits a grid of the given size to a screen of the
    /// given size. The scale is the smaller of width over width and height
    /// over height. The offsets are half of what the scaled grid leaves of
    /// the screen.
    pub open spec fn fitted(screen: Extent, grid: Extent) -> GridView {
        let by_width = screen.width * grid.height < screen.height * grid.width;
        let numerator: int = if by_width {
            screen.width as int
        } else {
            screen.height as int
        };
        let denominator: int = if by_width {
            grid.width as int
        } else {
            grid.height as int
        };
        let offset_x = screen.width * denominator - grid.width * numerator;
        let offset_y = screen.height * denominator - grid.height * numerator;
        GridView {
            scale_numerator: numerator,
            scale_denominator: denominator,
            offset_x,
            offset_y,
            object: ObjectView::resting(
                RectView {
                    x: 1000 * offset_x,
                    y: 1000 * offset_y,
                    width: 2000 * (grid.width * numerator),
                    height: 2000 * (grid.height * numerator),
                    unit: 2000 * denominator,
                },
                grid_color(),
                Mesh::Rectangle,
            ),
        }
    }

    /// The square that an entity of the given size, in thousandths of a
    /// cell's side, takes up on the given cell. Its side is the scale times
    /// the size, and it is centred in the cell, whose side is the scale.
    pub open spec fn to_screen(self, cell: Point, size: int) -> RectView {
        let inset = self.scale_numerator * (1000 - size);
        RectView {
            x: 2000 * (cell.x * self.scale_numerator) + 1000 * self.offset_x + inset,
            y: 2000 * (cell.y * self.scale_numerator) + 1000 * self.offset_y + inset,
            width: 2 * (self.scale_numerator * size),
            height: 2 * (self.scale_numerator * size),
            unit: 2000 * self.scale_denominator,
        }
    }
}

/// The transform between a grid and the screen it is drawn on.
#[derive(Clone, Copy, Debug, PartialEq, Eq)]
pub struct Grid {
    pub scale_numerator: i32,
    pub scale_denominator: i32,
    pub offset_x: i64,
    pub offset_y: i64,
    pub object: Object,
}

impl View for Grid {
    type V = GridView;

    open spec fn view(&self) -> GridView {
        GridView {
            scale_numerator: self.scale_numerator as int,
            scale_denominator: self.scale_denominator as int,
            offset_x: self.offset_x as int,
            offset_y: self.offset_y as int,
            object: self.object@,
        }
    }
}

/// The product of two numbers lies within the product of their bounds.
proof fn lemma_product_bound(a: int, b: int, bound_a: int, bound_b: int)
    requires
        -bound_a <= a <= bound_a,
        -bound_b <= b <= bound_b,
    ensures
        -(bound_a * bound_b) <= a * b <= bound_a * bound_b,
{
    assert(-(bound_a * bound_b) <= a * b <= bound_a * bound_b) by (nonlinear_arith)
        requires
            -bound_a <= a <= bound_a,
            -bound_b <= b <= bound_b,
    ;
}

impl Grid {
    /// Fits a grid of the given size to a screen of the given size.
    pub fn new(screen_size: Extent, grid_size: Extent) -> (grid: Grid)
        requires
            grid_size.width > 0,
            grid_size.height > 0,
        ensures
            grid@ == GridView::fitted(screen_size, grid_size),
    {
        let screen_width = screen_size.width as i64;
        let screen_height = screen_size.height as i64;
        let grid_width = grid_size.width as i64;
        let grid_height = grid_size.height as i64;
        proof {
            lemma_product_bound(screen_width as int, grid_height as int, 0x8000_0000, 0x8000_0000);
            lemma_product_bound(screen_height as int, grid_width as int, 0x8000_0000, 0x8000_0000);
            lemma_product_bound(screen_width as int, grid_width as int, 0x8000_0000, 0x8000_0000);
            lemma_product_bound(screen_height as int, grid_height as int, 0x8000_0000, 0x8000_0000);
        }
        let by_width = screen_width * grid_height < screen_height * grid_width;
        let scale_numerator = if by_width {
            screen_size.width
        } else {
            screen_size.height
        };
        let scale_denominator = if by_width {
            grid_size.width
        } else {
            grid_size.height
        };
        let numerator = scale_numerator as i64;
        let denominator = scale_denominator as i64;
        proof {
            lemma_product_bound(screen_width as int, denominator as int, 0x8000_0000, 0x7fff_ffff);
            lemma_product_bound(screen_height as int, denominator as int, 0x8000_0000, 0x7fff_ffff);
            lemma_product_bound(grid_width as int, numerator as int, 0x7fff_ffff, 0x8000_0000);
            lemma_product_bound(grid_height as int, numerator as int, 0x7fff_ffff, 0x8000_0000);
        }
        let offset_x: i64 = screen_width * denominator - grid_width * numerator;
        let offset_y: i64 = screen_height * denominator - grid_height * numerator;
        let board_width: i128 = grid_width as i128 * numerator as i128;
        let board_height: i128 = grid_height as i128 * numerator as i128;
        let board = ScreenRect {
            x: 1000 * offset_x as i128,
            y: 1000 * offset_y as i128,
            width: 2000 * board_width,
            height: 2000 * board_height,
            unit: 2000 * denominator as i128,
        };
        let object = Object {
            rect: board,
            slide_from: board,
            transition: None,
            color: Color { red: 950, green: 950, blue: 950, alpha: 900 },
            mesh: Mesh::Rectangle,
        };
        Grid { scale_numerator, scale_denominator, offset_x, offset_y, object }
    }

    /// The square on the screen that an entity takes up on the given cell.
    /// The entity's size is counted in thousandths of the cell's side, and
    /// the square is centred in the cell whatever its size.
    pub fn to_screen(&self, grid_position: Cell, object_size: i32) -> (rect: ScreenRect)
        ensures
            rect@ == self@.to_screen(grid_position@, object_size as int),
    {
        let numerator = self.scale_numerator as i128;
        proof {
            lemma_product_bound(grid_position.x as int, numerator as int, 0x8000_0000, 0x8000_0000);
            lemma_product_bound(grid_position.y as int, numerator as int, 0x8000_0000, 0x8000_0000);
            lemma_product_bound(numerator as int, object_size as int, 0x8000_0000, 0x8000_0000);
            lemma_product_bound(
                numerator as int,
                1000 - object_size,
                0x8000_0000,
                0x1_0000_0000,
            );
        }
        let inset: i128 = numerator * (1000 - object_size as i128);
        let side: i128 = 2 * (numerator * object_size as i128);
        let across: i128 = grid_position.x as i128 * numerator;
        let down: i128 = grid_position.y as i128 * numerator;
        ScreenRect {
            x: 2000 * across + 1000 * self.offset_x as i128 + inset,
            y: 2000 * down + 1000 * self.offset_y as i128 + inset,
            width: side,
            height: side,
            unit: 2000 * self.scale_denominator as i128,
        }
    }
}

/// The scale is the smaller of the two ratios of screen to grid: it is one
/// of them, and it does not exceed either.
pub proof fn lemma_scale_is_smaller_ratio(screen: Extent, grid: Extent)
    requires
        grid.width > 0,
        grid.height > 0,
    ensures
        ({
            let fitted = GridView::fitted(screen, grid);
            &&& fitted.scale_denominator > 0
            &&& (fitted.scale_numerator == screen.width && fitted.scale_denominator == grid.width)
                || (fitted.scale_numerator == screen.height && fitted.scale_denominator
                == grid.height)
            &&& fitted.scale_numerator * grid.width <= screen.width * fitted.scale_denominator
            &&& fitted.scale_numerator * grid.height <= screen.height * fitted.scale_denominator
        }),
{
    let fitted = GridView::fitted(screen, grid);
    assert(screen.width * grid.height == grid.height * screen.width) by (nonlinear_arith);
    assert(screen.height * grid.width == grid.width * screen.height) by (nonlinear_arith);
    assert(screen.width * grid.width == grid.width * screen.width) by (nonlinear_arith);
    assert(screen.height * grid.height == grid.height * screen.height) by (nonlinear_arith);
}

/// The grid is centred: what it leaves of the screen is split evenly
/// between left and right, and between above and below, and it leaves
/// nothing in the direction that set the scale.
pub proof fn lemma_grid_is_centred(screen: Extent, grid: Extent)
    requires
        grid.width > 0,
        grid.height > 0,
    ensures
        ({
            let board = GridView::fitted(screen, grid).object.rect;
            &&& board.x + board.width + board.x == screen.width * board.unit
            &&& board.y + board.height + board.y == screen.height * board.unit
            &&& board.x == 0 || board.y == 0
            &&& screen.width >= 0 && screen.height >= 0 ==> board.within(screen)
        }),
{
    let fitted = GridView::fitted(screen, grid);
    let n = fitted.scale_numerator;
    let d = fitted.scale_denominator;
    lemma_scale_is_smaller_ratio(screen, grid);
    assert(screen.width * (2000 * d) == 2000 * (screen.width * d)) by (nonlinear_arith);
    assert(screen.height * (2000 * d) == 2000 * (screen.height * d)) by (nonlinear_arith);
    assert(n * grid.width == grid.width * n) by (nonlinear_arith);
    assert(n * grid.height == grid.height * n) by (nonlinear_arith);
    if screen.width >= 0 && screen.height >= 0 {
        assert(0 <= grid.width * n) by (nonlinear_arith)
            requires
                n >= 0,
                grid.width > 0,
        ;
        assert(0 <= grid.height * n) by (nonlinear_arith)
            requires
                n >= 0,
                grid.height > 0,
        ;
    }
}

/// On a screen that is not of negative size, an entity no larger than a
/// cell, on a cell of the grid, is drawn within the screen.
pub proof fn lemma_cell_lies_on_screen(screen: Extent, grid: Extent, cell: Point, size: int)
    requires
        grid.width > 0,
        grid.height > 0,
        screen.width >= 0,
        screen.height >= 0,
        cell.on_grid(grid.width as int, grid.height as int),
        0 <= size <= FULL_SIZE,
    ensures
        GridView::fitted(screen, grid).to_screen(cell, size).within(screen),
{
    let fitted = GridView::fitted(screen, grid);
    let n = fitted.scale_numerator;
    let d = fitted.scale_denominator;
    let rect = fitted.to_screen(cell, size);
    lemma_scale_is_smaller_ratio(screen, grid);
    assert(n >= 0 && d > 0);
    lemma_axis_within(screen.width as int, grid.width as int, n, d, cell.x, size);
    lemma_axis_within(screen.height as int, grid.height as int, n, d, cell.y, size);
}

/// One axis of `lemma_cell_lies_on_screen`.
proof fn lemma_axis_within(screen: int, grid: int, n: int, d: int, cell: int, size: int)
    requires
        0 <= cell < grid,
        0 <= size <= 1000,
        n >= 0,
        d > 0,
        n * grid <= screen * d,
    ensures
        0 <= 2000 * (cell * n) + 1000 * (screen * d - grid * n) + n * (1000 - size),
        0 <= 2 * (n * size),
        2000 * (cell * n) + 1000 * (screen * d - grid * n) + n * (1000 - size) + 2 * (n * size)
            <= screen * (2000 * d),
{
    assert(grid * n == n * grid) by (nonlinear_arith);
    assert(0 <= cell * n) by (nonlinear_arith)
        requires
            0 <= cell,
            0 <= n,
    ;
    assert(0 <= n * (1000 - size)) by (nonlinear_arith)
        requires
            0 <= n,
            size <= 1000,
    ;
    assert(0 <= n * size && n * size <= n * 1000) by (nonlinear_arith)
        requires
            0 <= n,
            0 <= size <= 1000,
    ;
    assert(n * (1000 - size) == n * 1000 - n * size) by (nonlinear_arith);
    assert(cell * n <= (grid - 1) * n) by (nonlinear_arith)
        requires
            cell <= grid - 1,
            0 <= n,
    ;
    assert((grid - 1) * n == grid * n - n) by (nonlinear_arith);
    assert(screen * (2000 * d) == 2000 * (screen * d)) by (nonlinear_arith);
}

/// Entities of full size do not overlap: of two cells, the square of the
/// one further left ends where the other's begins or before it, and so it
/// is downwards. (The screen must not be of negative size.)
pub proof fn lemma_cells_do_not_overlap(screen: Extent, grid: Extent, first: Point, second: Point)
    requires
        grid.width > 0,
        grid.height > 0,
        screen.width >= 0,
        screen.height >= 0,
    ensures
        ({
            let fitted = GridView::fitted(screen, grid);
            let one = fitted.to_screen(first, FULL_SIZE as int);
            let other = fitted.to_screen(second, FULL_SIZE as int);
            &&& first.x < second.x ==> one.left_of(other)
            &&& first.y < second.y ==> one.above(other)
            &&& first.x + 1 == second.x ==> one.x + one.width == other.x
            &&& first.y + 1 == second.y ==> one.y + one.height == other.y
        }),
{
    let fitted = GridView::fitted(screen, grid);
    let n = fitted.scale_numerator;
    lemma_scale_is_smaller_ratio(screen, grid);
    assert(n >= 0);
    lemma_axis_apart(n, first.x, second.x);
    lemma_axis_apart(n, first.y, second.y);
}

/// One axis of `lemma_cells_do_not_overlap`.
proof fn lemma_axis_apart(n: int, first: int, second: int)
    requires
        n >= 0,
    ensures
        first < second ==> 2000 * (first * n) + 2 * (n * 1000) <= 2000 * (second * n),
        first + 1 == second ==> 2000 * (first * n) + 2 * (n * 1000) == 2000 * (second * n),
{
    let step = first * n + n;
    assert(step == (first + 1) * n) by (nonlinear_arith)
        requires
            step == first * n + n,
    ;
    if first < second {
        assert(step <= second * n) by (nonlinear_arith)
            requires
                step == (first + 1) * n,
                first + 1 <= second,
                n >= 0,
        ;
    }
}

} // verus!
