//! The outlines of objects.

use crate::error::Error;
use crate::error::ErrorView;
use crate::point::points_of;
use crate::point::Point;
use crate::text::same_text;
use vstd::prelude::*;

verus! {

/// The outline of an object. An object without one is a plain rectangle.
#[derive(Debug, PartialEq, Eq)]
pub enum Shape {
    /// An ellipse within the object's bounds.
    Ellipse,
    /// A closed outline through the points, in order.
    Polygon(Vec<Point>),
    /// An open line through the points, in order.
    Polyline(Vec<Point>),
}

/// The mathematical value of a [`Shape`].
pub enum ShapeView {
    Ellipse,
    Polygon(Seq<Point>),
    Polyline(Seq<Point>),
}

impl View for Shape {
    type V = ShapeView;

    open spec fn view(&self) -> ShapeView {
        match self {
            Shape::Ellipse => ShapeView::Ellipse,
            Shape::Polygon(points) => ShapeView::Polygon(points@),
            Shape::Polyline(points) => ShapeView::Polyline(points@),
        }
    }
}

impl ShapeView {
    /// Whether `name` is an attribute that the element of this shape
    /// defines: `points` for a polygon and a polyline, none for an ellipse.
    pub open spec fn recognizes(self, name: Seq<char>) -> bool {
        !(self is Ellipse) && name == "points"@
    }

    /// The value after one more attribute is read. The points of a polygon
    /// or polyline take the place of those read before.
    pub open spec fn with_attribute(self, name: Seq<char>, value: Seq<char>) -> Result<
        ShapeView,
        ErrorView,
    > {
        if self.recognizes(name) {
            match points_of(value) {
                Ok(points) => Ok(
                    if self is Polygon {
                        ShapeView::Polygon(points)
                    } else {
                        ShapeView::Polyline(points)
                    },
                ),
                Err(e) => Err(e),
            }
        } else {
            Err(ErrorView::UnknownAttribute(name))
        }
    }
}

impl Shape {
    /// Reads one attribute into the shape, as [`ShapeView::with_attribute`]
    /// says.
    pub(crate) fn read_attribute(self, name: &str, value: &str) -> (result: Result<Shape, Error>)
        ensures
            match self@.with_attribute(name@, value@) {
                Ok(next) => result is Ok && result->Ok_0@ == next,
                Err(e) => result is Err && result->Err_0@ == e,
            },
    {
        let is_points = same_text(name, "points");
        match self {
            Shape::Polygon(_) if is_points => match Point::parse_list(value) {
                Ok(points) => Ok(Shape::Polygon(points)),
                Err(e) => Err(e),
            },
            Shape::Polyline(_) if is_points => match Point::parse_list(value) {
                Ok(points) => Ok(Shape::Polyline(points)),
                Err(e) => Err(e),
            },
            _ => Err(Error::UnknownAttribute(String::from_str(name))),
        }
    }
}

} // verus!
