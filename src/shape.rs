//! Shape descriptors: what can be drawn.
use vstd::prelude::*;

verus! {

/// A circle, given as the text of its centre and radius exactly as it is
/// written into the drawing; nothing is parsed or checked.
#[derive(Clone, Copy)]
pub struct Circle {
    cx: &'static str,
    cy: &'static str,
    r: &'static str,
}

impl View for Circle {
    /// Centre x, centre y and radius.
    type V = (Seq<char>, Seq<char>, Seq<char>);

    closed spec fn view(&self) -> (Seq<char>, Seq<char>, Seq<char>) {
        (self.cx@, self.cy@, self.r@)
    }
}

impl Circle {
    /// Stores the three fields verbatim.
    pub fn new(cx: &'static str, cy: &'static str, r: &'static str) -> (c: Circle)
        ensures
            c@ == (cx@, cy@, r@),
    {
        Circle { cx, cy, r }
    }

    /// Text of the centre's x coordinate.
    pub fn cx(&self) -> (s: &'static str)
        ensures
            s@ == self@.0,
    {
        self.cx
    }

    /// Text of the centre's y coordinate.
    pub fn cy(&self) -> (s: &'static str)
        ensures
            s@ == self@.1,
    {
        self.cy
    }

    /// Text of the radius.
    pub fn r(&self) -> (s: &'static str)
        ensures
            s@ == self@.2,
    {
        self.r
    }
}

/// A drawable primitive. Circles are the only kind so far.
pub enum Shape {
    Circle(Circle),
}

} // verus!
