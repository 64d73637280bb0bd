//! What the renderer is told: shapes, colours, and rectangles of the screen
//! in exact fractions of a pixel.

use vstd::prelude::*;

verus! {

/// The outline an entity is drawn with.
#[derive(Clone, Copy, Debug, PartialEq, Eq, Structural)]
pub enum Mesh {
    Rectangle,
    Circle,
    RoundedRectangle,
}

/// A fill colour. Each channel is counted in thousandths of its full value.
#[derive(Clone, Copy, Debug, PartialEq, Eq, Structural)]
pub struct Color {
    pub red: i32,
    pub green: i32,
    pub blue: i32,
    pub alpha: i32,
}

impl Color {
    /// The same colour with another opacity.
    pub open spec fn with_alpha(self, alpha: i32) -> Color {
        Color { red: self.red, green: self.green, blue: self.blue, alpha }
    }

    /// Every channel lies in the band of the given width centred on the
    /// same channel of `base`; the band's upper end is left out.
    pub open spec fn varies_from(self, base: Color, band: int) -> bool {
        &&& base.red - band / 2 <= self.red < base.red - band / 2 + band
        &&& base.green - band / 2 <= self.green < base.green - band / 2 + band
        &&& base.blue - band / 2 <= self.blue < base.blue - band / 2 + band
        &&& base.alpha - band / 2 <= self.alpha < base.alpha - band / 2 + band
    }
}

/// A width and a height: of the screen in pixels, of the grid in cells.
#[derive(Clone, Copy, Debug, PartialEq, Eq, Structural)]
pub struct Extent {
    pub width: i32,
    pub height: i32,
}

/// What a screen rectangle is to the contracts. Corner and sides are counted
/// in units, of which `unit` make up one pixel.
pub struct RectView {
    pub x: int,
    pub y: int,
    pub width: int,
    pub height: int,
    pub unit: int,
}

impl RectView {
    /// The rectangle lies within a screen of the given size, its edges
    /// included.
    pub open spec fn within(self, screen: Extent) -> bool {
        &&& 0 <= self.x
        &&& 0 <= self.y
        &&& 0 <= self.width
        &&& 0 <= self.height
        &&& self.x + self.width <= screen.width * self.unit
        &&& self.y + self.height <= screen.height * self.unit
    }

    /// The rectangle ends, to the right, where `other` begins or before it.
    pub open spec fn left_of(self, other: RectView) -> bool {
        self.unit == other.unit && self.x + self.width <= other.x
    }

    /// The rectangle ends, downwards, where `other` begins or before it.
    pub open spec fn above(self, other: RectView) -> bool {
        self.unit == other.unit && self.y + self.height <= other.y
    }

    /// The rectangle on the way from `from` to itself, after `elapsed` of
    /// the `interval` that the way takes: the corner has gone that part of
    /// the way, the size is its own. The result counts in units of which
    /// `interval` times `unit` make up one pixel.
    pub open spec fn slid(self, from: RectView, elapsed: int, interval: int) -> RectView {
        RectView {
            x: from.x * interval + (self.x - from.x) * elapsed,
            y: from.y * interval + (self.y - from.y) * elapsed,
            width: self.width * interval,
            height: self.height * interval,
            unit: self.unit * interval,
        }
    }
}

/// A rectangle on the screen. Corner and sides are counted in units, of
/// which `unit` make up one pixel.
#[derive(Clone, Copy, Debug, PartialEq, Eq)]
pub struct ScreenRect {
    pub x: i128,
    pub y: i128,
    pub width: i128,
    pub height: i128,
    pub unit: i128,
}

impl View for ScreenRect {
    type V = RectView;

    open spec fn view(&self) -> RectView {
        RectView {
            x: self.x as int,
            y: self.y as int,
            width: self.width as int,
            height: self.height as int,
            unit: self.unit as int,
        }
    }
}

/// One entity as the renderer is to draw it.
///
/// An entity at rest is drawn in `rect`. An entity that slides is on its way
/// from `slide_from` to `rect`, and `transition` says how far it has come:
/// the time gone by and the time that the whole way takes.
#[derive(Clone, Copy, Debug, PartialEq, Eq)]
pub struct Object {
    pub rect: ScreenRect,
    pub slide_from: ScreenRect,
    pub transition: Option<(u64, u64)>,
    pub color: Color,
    pub mesh: Mesh,
}

/// What an entity as the renderer is to draw it is to the contracts.
pub struct ObjectView {
    pub rect: RectView,
    pub slide_from: RectView,
    pub transition: Option<(u64, u64)>,
    pub color: Color,
    pub mesh: Mesh,
}

impl ObjectView {
    /// An entity at rest in the given rectangle.
    pub open spec fn resting(rect: RectView, color: Color, mesh: Mesh) -> ObjectView {
        ObjectView { rect, slide_from: rect, transition: None, color, mesh }
    }

    /// The rectangle in which the entity is to be drawn at this moment.
    pub open spec fn shown(self) -> RectView {
        match self.transition {
            Some((elapsed, interval)) => self.rect.slid(
                self.slide_from,
                elapsed as int,
                interval as int,
            ),
            None => self.rect,
        }
    }
}

impl View for Object {
    type V = ObjectView;

    open spec fn view(&self) -> ObjectView {
        ObjectView {
            rect: self.rect@,
            slide_from: self.slide_from@,
            transition: self.transition,
            color: self.color,
            mesh: self.mesh,
        }
    }
}

/// A slide begins at the rectangle it comes from and ends at the rectangle
/// it goes to.
pub proof fn lemma_slide_ends(to: RectView, from: RectView, interval: int)
    requires
        from.unit == to.unit,
        from.width == to.width,
        from.height == to.height,
    ensures
        to.slid(from, 0, interval) == (RectView {
            x: from.x * interval,
            y: from.y * interval,
            width: from.width * interval,
            height: from.height * interval,
            unit: from.unit * interval,
        }),
        to.slid(from, interval, interval) == (RectView {
            x: to.x * interval,
            y: to.y * interval,
            width: to.width * interval,
            height: to.height * interval,
            unit: to.unit * interval,
        }),
{
    assert(from.x * interval + (to.x - from.x) * interval == to.x * interval)
        by (nonlinear_arith);
    assert(from.y * interval + (to.y - from.y) * interval == to.y * interval)
        by (nonlinear_arith);
    assert((to.x - from.x) * 0 == 0) by (nonlinear_arith);
    assert((to.y - from.y) * 0 == 0) by (nonlinear_arith);
}

} // verus!
