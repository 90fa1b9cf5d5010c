//! Descriptions of the primitives that a tessellator turns into triangles.
//!
//! Extents are never checked: a rectangle of negative width or a circle of
//! radius zero is as good a description as any other.

use vstd::prelude::*;
use crate::units::{Color, Point, Rect};

verus! {

/// Whether a figure is filled or only its outline is stroked.
#[derive(Clone, Copy, Debug, PartialEq, Eq, Structural)]
pub enum DrawMode {
    Fill,
    Stroke { width: i64 },
}

/// A closed figure.
#[derive(Clone, Copy, Debug, PartialEq, Eq, Structural)]
pub enum Figure {
    Rectangle { mode: DrawMode, bounds: Rect, color: Color },
    Ellipse {
        mode: DrawMode,
        center: Point,
        radius_x: i64,
        radius_y: i64,
        tolerance: i64,
        color: Color,
    },
    Circle { mode: DrawMode, center: Point, radius: i64, tolerance: i64, color: Color },
}

impl Figure {
    /// Whether a tessellator can work from this description: a curve needs
    /// a positive tolerance, the greatest distance allowed between the curve
    /// and the polygon that stands for it.
    pub open spec fn well_formed(self) -> bool {
        match self {
            Figure::Rectangle { .. } => true,
            Figure::Ellipse { tolerance, .. } => tolerance > 0,
            Figure::Circle { tolerance, .. } => tolerance > 0,
        }
    }

    /// A rectangle. Any extents will do.
    pub fn rectangle(mode: DrawMode, bounds: Rect, color: Color) -> (figure: Figure)
        ensures
            figure == (Figure::Rectangle { mode, bounds, color }),
            figure.well_formed(),
    {
        Figure::Rectangle { mode, bounds, color }
    }

    /// An ellipse about `center`. Any radii will do.
    pub fn ellipse(
        mode: DrawMode,
        center: Point,
        radius_x: i64,
        radius_y: i64,
        tolerance: i64,
        color: Color,
    ) -> (figure: Figure)
        requires
            tolerance > 0,
        ensures
            figure == (Figure::Ellipse { mode, center, radius_x, radius_y, tolerance, color }),
            figure.well_formed(),
    {
        Figure::Ellipse { mode, center, radius_x, radius_y, tolerance, color }
    }

    /// A circle about `center`. Any radius will do.
    pub fn circle(
        mode: DrawMode,
        center: Point,
        radius: i64,
        tolerance: i64,
        color: Color,
    ) -> (figure: Figure)
        requires
            tolerance > 0,
        ensures
            figure == (Figure::Circle { mode, center, radius, tolerance, color }),
            figure.well_formed(),
    {
        Figure::Circle { mode, center, radius, tolerance, color }
    }
}

/// A stroked line through two or more points.
#[derive(Debug)]
pub struct Polyline {
    pub points: Vec<Point>,
    pub width: i64,
    pub color: Color,
}

impl Polyline {
    /// Whether a tessellator can work from this description.
    pub open spec fn well_formed(&self) -> bool {
        self.points@.len() >= 2 && self.width > 0
    }

    /// The line through `points`, in their order, `width` wide.
    pub fn new(points: Vec<Point>, width: i64, color: Color) -> (line: Polyline)
        requires
            points@.len() >= 2,
            width > 0,
        ensures
            line.points@ == points@,
            line.width == width,
            line.color == color,
            line.well_formed(),
    {
        Polyline { points, width, color }
    }
}

/// One primitive of a mesh, before tessellation.
#[derive(Debug)]
pub enum Primitive {
    Line(Polyline),
    Figure(Figure),
}

impl Primitive {
    /// Whether a tessellator can work from this description.
    pub open spec fn well_formed(&self) -> bool {
        match self {
            Primitive::Line(line) => line.well_formed(),
            Primitive::Figure(figure) => figure.well_formed(),
        }
    }
}

} // verus!
