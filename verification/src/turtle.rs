//! The turtle and the lines it draws.

use vstd::prelude::*;
use crate::color::Color;
use crate::number::{Number, is_finite, is_half_of, pixel};
use crate::variables::Variables;

verus! {

/// The state of the turtle: where it is, where it looks, its pen, and the
/// variables that the commands have set.
///
/// The heading is in degrees. Heading 0 points up the image, toward
/// smaller `y`, and the degrees count clockwise. The heading is never
/// brought into a range: after a full turn it is 360 more or less than
/// before.
#[derive(Debug)]
pub struct Turtle {
    pub x: Number,
    pub y: Number,
    pub heading: Number,
    pub pen_down: bool,
    pub pen_color: Color,
    pub variables: Variables,
}

/// The state of the turtle, with each number as its bit pattern and the
/// variables as a map.
pub struct TurtleView {
    pub x: u32,
    pub y: u32,
    pub heading: u32,
    pub pen_down: bool,
    pub pen_color: Color,
    pub variables: Map<Seq<char>, Seq<char>>,
}

impl TurtleView {
    /// The place and the heading are finite numbers. This holds of every
    /// turtle, at every time.
    pub open spec fn finite(self) -> bool {
        is_finite(self.x) && is_finite(self.y) && is_finite(self.heading)
    }
}

impl View for Turtle {
    type V = TurtleView;

    open spec fn view(&self) -> TurtleView {
        TurtleView {
            x: self.x@,
            y: self.y@,
            heading: self.heading@,
            pen_down: self.pen_down,
            pen_color: self.pen_color,
            variables: self.variables@,
        }
    }
}

/// A straight line on the canvas, in whole pixels.
#[derive(Clone, Copy, Debug, PartialEq, Eq, Structural)]
pub struct Segment {
    pub x0: i32,
    pub y0: i32,
    pub x1: i32,
    pub y1: i32,
    pub color: Color,
}

/// The turtle before the first command: at the given place, heading 0, pen
/// up and black, no variable set.
pub open spec fn initial(x: u32, y: u32) -> TurtleView {
    TurtleView {
        x,
        y,
        heading: 0,
        pen_down: false,
        pen_color: Color::Black,
        variables: Map::empty(),
    }
}

/// The line that a move to `(x, y)` draws: none with the pen up; with the
/// pen down the line from where the turtle was to where it is now, each
/// coordinate cut down to whole pixels, in the color of the pen.
pub open spec fn stroke(turtle: TurtleView, x: u32, y: u32) -> Option<Segment> {
    if turtle.pen_down {
        Some(
            Segment {
                x0: pixel(turtle.x),
                y0: pixel(turtle.y),
                x1: pixel(x),
                y1: pixel(y),
                color: turtle.pen_color,
            },
        )
    } else {
        None
    }
}

/// The turtle after a move to `(x, y)`: there, and otherwise as before.
pub open spec fn moved(turtle: TurtleView, x: u32, y: u32) -> TurtleView {
    TurtleView { x, y, ..turtle }
}

impl Turtle {
    /// The turtle before the first command, in the middle of an image that
    /// is `width` pixels wide and `height` pixels high.
    pub fn centered(width: u32, height: u32) -> (r: Turtle)
        ensures
            r@ == initial(r@.x, r@.y),
            is_half_of(r@.x, width as nat),
            is_half_of(r@.y, height as nat),
            r@.finite(),
    {
        Turtle::new(Number::half_of(width), Number::half_of(height))
    }

    /// The turtle before the first command, at `(x, y)`.
    pub fn new(x: Number, y: Number) -> (r: Turtle)
        ensures
            r@ == initial(x@, y@),
            r@.finite(),
    {
        proof {
            use_type_invariant(&x);
            use_type_invariant(&y);
        }
        Turtle {
            x,
            y,
            heading: Number::zero(),
            pen_down: false,
            pen_color: Color::Black,
            variables: Variables::new(),
        }
    }
}

/// Moves the turtle to `(x, y)` and returns the line to draw, if the pen is
/// down. The turtle keeps the numbers as they are; only the line is in whole
/// pixels.
pub fn move_turtle(turtle: &mut Turtle, x: Number, y: Number) -> (r: Option<Segment>)
    ensures
        r == stroke(old(turtle)@, x@, y@),
        final(turtle)@ == moved(old(turtle)@, x@, y@),
        final(turtle)@.finite(),
{
    let segment = if turtle.pen_down {
        Some(
            Segment {
                x0: turtle.x.truncated(),
                y0: turtle.y.truncated(),
                x1: x.truncated(),
                y1: y.truncated(),
                color: turtle.pen_color,
            },
        )
    } else {
        None
    };
    turtle.x = x;
    turtle.y = y;
    proof {
        use_type_invariant(&x);
        use_type_invariant(&y);
        use_type_invariant(&turtle.heading);
    }
    segment
}

} // verus!
