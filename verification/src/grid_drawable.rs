//! An entity that sits on a cell of the grid, with what it looks like.

use vstd::prelude::*;
use crate::cell::{retreat_cell, Cell, Offset, Point};
use crate::engine::{Color, Mesh, Object, ObjectView};
use crate::grid::{Grid, GridView};

verus! {

/// What a grid entity is to the contracts: its look and its place on the plane.
pub struct DrawableView {
    pub color: Color,
    pub mesh: Mesh,
    pub position: Point,
    pub size_multiplier: i32,
}

impl DrawableView {
    /// The entity slides: it has been given both a direction and a measure
    /// of how far the tick under way has come.
    pub open spec fn slides(direction: Option<Point>, transition: Option<(u64, u64)>) -> bool {
        direction is Some && transition is Some
    }

    /// The point an entity is drawn coming from: one step behind its cell
    /// when it slides, its own cell when it does not.
    pub open spec fn slide_origin(
        self,
        direction: Option<Point>,
        transition: Option<(u64, u64)>,
    ) -> Point {
        if Self::slides(direction, transition) {
            self.position.minus(direction->0)
        } else {
            self.position
        }
    }

    /// What the renderer is to draw for the entity on the given grid: the
    /// square of its cell in its size, colour and shape, and, where the
    /// entity slides, the square one step behind as the start of the slide.
    pub open spec fn drawn(
        self,
        grid: GridView,
        direction: Option<Point>,
        transition: Option<(u64, u64)>,
    ) -> ObjectView {
        ObjectView {
            rect: grid.to_screen(self.position, self.size_multiplier as int),
            slide_from: grid.to_screen(
                self.slide_origin(direction, transition),
                self.size_multiplier as int,
            ),
            transition: if Self::slides(direction, transition) {
                transition
            } else {
                None
            },
            color: self.color,
            mesh: self.mesh,
        }
    }
}

/// The displacement that the contracts see in a displacement that may be
/// missing.
pub open spec fn step_of(direction: Option<Offset>) -> Option<Point> {
    match direction {
        Some(step) => Some(step@),
        None => None,
    }
}

/// The points on which the given entities lie.
pub open spec fn cells_of(objects: Seq<&GridDrawable>) -> Set<Point> {
    Set::new(
        |position: Point|
            exists|i: int| 0 <= i < objects.len() && (#[trigger] objects[i])@.position == position,
    )
}

/// An entity on the grid. The size multiplier is counted in thousandths of a
/// cell's side.
#[derive(Clone, Copy, Debug, PartialEq, Eq)]
pub struct GridDrawable {
    pub color: Color,
    pub mesh: Mesh,
    pub position: Cell,
    pub size_multiplier: i32,
}

impl View for GridDrawable {
    type V = DrawableView;

    open spec fn view(&self) -> DrawableView {
        DrawableView {
            color: self.color,
            mesh: self.mesh,
            position: self.position@,
            size_multiplier: self.size_multiplier,
        }
    }
}

impl GridDrawable {
    /// An entity of the given look on the given cell.
    pub fn new(color: Color, mesh: Mesh, position: Cell, size_multiplier: i32) -> (drawable:
        GridDrawable)
        ensures
            drawable == (GridDrawable { color, mesh, position, size_multiplier }),
    {
        GridDrawable { color, mesh, position, size_multiplier }
    }

    /// What the renderer is to draw for the entity on the given grid. The
    /// entity is drawn in the square of its cell, in its size, colour and
    /// shape. Given both a direction and a measure of how far the tick under
    /// way has come, it slides there from the cell one step behind, and the
    /// measure is passed on. Given only one of them or neither, it rests.
    pub fn update_object(
        &self,
        grid: &Grid,
        direction: Option<Offset>,
        transition: Option<(u64, u64)>,
    ) -> (object: Object)
        requires
            DrawableView::slides(step_of(direction), transition) ==> self.position@.minus(
                direction->0@,
            ).fits(),
        ensures
            object@ == self@.drawn(grid@, step_of(direction), transition),
    {
        let rect = grid.to_screen(self.position, self.size_multiplier);
        match (direction, transition) {
            (Some(step), Some(progress)) => {
                let behind = retreat_cell(self.position, step);
                Object {
                    rect,
                    slide_from: grid.to_screen(behind, self.size_multiplier),
                    transition: Some(progress),
                    color: self.color,
                    mesh: self.mesh,
                }
            },
            _ => Object {
                rect,
                slide_from: rect,
                transition: None,
                color: self.color,
                mesh: self.mesh,
            },
        }
    }
}

} // verus!
