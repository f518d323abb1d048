//! Points and lists of points.

use crate::error::Error;
use crate::error::ErrorView;
use crate::number::i32_of;
use crate::number::read_i32;
use crate::text::split;
use crate::text::split_spec;
use crate::text::views;
use vstd::prelude::*;

verus! {

/// A point of the integer plane.
#[derive(Debug, Clone, Copy, PartialEq, Eq, Structural)]
pub struct Point {
    pub x: i32,
    pub y: i32,
}

/// What reading `s` as a point gives: exactly two integers with one comma
/// between them. The number of components is judged first, then the first
/// component, then the second.
pub open spec fn point_of(s: Seq<char>) -> Result<Point, ErrorView> {
    let parts = split_spec(s, ',');
    if parts.len() != 2 {
        Err(ErrorView::InvalidPoint(s))
    } else {
        match i32_of(parts[0]) {
            Err(e) => Err(e),
            Ok(x) => match i32_of(parts[1]) {
                Err(e) => Err(e),
                Ok(y) => Ok(Point { x, y }),
            },
        }
    }
}

/// What reading the pieces of a list of points gives, piece by piece from
/// `from` on: empty pieces count for nothing, and the first piece that is
/// no point decides the error.
pub open spec fn points_from(parts: Seq<Seq<char>>, from: int) -> Result<Seq<Point>, ErrorView>
    decreases parts.len() - from,
{
    if from < 0 || from >= parts.len() {
        Ok(Seq::empty())
    } else if parts[from].len() == 0 {
        points_from(parts, from + 1)
    } else {
        match point_of(parts[from]) {
            Err(e) => Err(e),
            Ok(point) => match points_from(parts, from + 1) {
                Err(e) => Err(e),
                Ok(rest) => Ok(seq![point] + rest),
            },
        }
    }
}

/// What reading `s` as a list of points gives: points separated by spaces.
pub open spec fn points_of(s: Seq<char>) -> Result<Seq<Point>, ErrorView> {
    points_from(split_spec(s, ' '), 0)
}

/// The pieces of a list of points that are not empty, from `from` on.
pub open spec fn written_points(parts: Seq<Seq<char>>, from: int) -> Seq<Seq<char>>
    decreases parts.len() - from,
{
    if from < 0 || from >= parts.len() {
        Seq::empty()
    } else if parts[from].len() == 0 {
        written_points(parts, from + 1)
    } else {
        seq![parts[from]] + written_points(parts, from + 1)
    }
}

/// A list of points keeps the order in which it was written: where it can
/// be read, it holds one point for each piece that is not empty, the point
/// that the piece writes, in the order of the pieces.
pub proof fn lemma_points_in_written_order(parts: Seq<Seq<char>>, from: int)
    ensures
        match points_from(parts, from) {
            Ok(points) => points.len() == written_points(parts, from).len() && forall|k: int|
                0 <= k < points.len() ==> point_of(#[trigger] written_points(parts, from)[k])
                    == Ok::<Point, ErrorView>(points[k]),
            Err(_) => true,
        },
    decreases parts.len() - from,
{
    if 0 <= from < parts.len() {
        lemma_points_in_written_order(parts, from + 1);
    }
}

impl Point {
    /// Reads a point from the form `x,y`. A text with another number of
    /// components is an invalid point, reported with the text; a component
    /// that is no `i32` is an invalid number, reported with the component.
    pub fn parse(text: &str) -> (result: Result<Point, Error>)
        ensures
            match point_of(text@) {
                Ok(point) => result == Ok::<Point, Error>(point),
                Err(e) => result is Err && result->Err_0@ == e,
            },
    {
        let parts = split(text, ',');
        if parts.len() != 2 {
            return Err(Error::InvalidPoint(String::from_str(text)));
        }
        assert(views(parts@)[0] == parts@[0]@);
        assert(views(parts@)[1] == parts@[1]@);
        let x = match read_i32(parts[0].as_str()) {
            Ok(x) => x,
            Err(e) => {
                return Err(e);
            },
        };
        let y = match read_i32(parts[1].as_str()) {
            Ok(y) => y,
            Err(e) => {
                return Err(e);
            },
        };
        Ok(Point { x, y })
    }

    /// Reads a list of points separated by spaces, in the order written.
    /// Runs of spaces count as one; the first text between spaces that is
    /// no point decides the error.
    pub fn parse_list(text: &str) -> (result: Result<Vec<Point>, Error>)
        ensures
            match points_of(text@) {
                Ok(points) => result is Ok && result->Ok_0@ == points,
                Err(e) => result is Err && result->Err_0@ == e,
            },
    {
        let parts = split(text, ' ');
        let ghost pieces = views(parts@);
        let mut points: Vec<Point> = Vec::new();
        let mut i: usize = 0;
        while i < parts.len()
            invariant
                i <= parts.len(),
                pieces == views(parts@),
                pieces == split_spec(text@, ' '),
                match points_from(pieces, i as int) {
                    Ok(rest) => points_of(text@) == Ok::<Seq<Point>, ErrorView>(points@ + rest),
                    Err(e) => points_of(text@) == Err::<Seq<Point>, ErrorView>(e),
                },
            decreases parts.len() - i,
        {
            assert(pieces[i as int] == parts@[i as int]@);
            if parts[i].as_str().unicode_len() > 0 {
                match Point::parse(parts[i].as_str()) {
                    Ok(point) => {
                        proof {
                            match points_from(pieces, i + 1) {
                                Ok(rest) => {
                                    assert(points@.push(point) + rest =~= points@ + (seq![point]
                                        + rest));
                                },
                                Err(e) => {},
                            }
                        }
                        points.push(point);
                    },
                    Err(e) => {
                        return Err(e);
                    },
                }
            }
            i += 1;
        }
        assert(points@ + Seq::<Point>::empty() =~= points@);
        Ok(points)
    }

    /// The horizontal coordinate.
    pub fn x(&self) -> (x: i32)
        ensures
            x == self.x,
    {
        self.x
    }

    /// The vertical coordinate.
    pub fn y(&self) -> (y: i32)
        ensures
            y == self.y,
    {
        self.y
    }
}

} // verus!
