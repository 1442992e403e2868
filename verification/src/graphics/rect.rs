//! Axis-aligned rectangles.

use vstd::prelude::*;
use crate::text::{decimal, push_decimal, push_signed, push_text, signed_decimal};

verus! {

/// A number type that rectangle coordinates can have.
pub trait Coordinate: Copy {
    /// The number as a mathematical integer.
    spec fn value(self) -> int;

    /// Whether the type can hold the integer.
    spec fn representable(v: int) -> bool;

    /// The number as text.
    spec fn text(self) -> Seq<char>;

    /// The sum of two numbers, where the type can hold it.
    fn plus(self, rhs: Self) -> (sum: Self)
        requires
            Self::representable(self.value() + rhs.value()),
        ensures
            sum.value() == self.value() + rhs.value(),
    ;

    /// Whether `self` is less than or equal to `rhs`.
    fn at_most(self, rhs: Self) -> (r: bool)
        ensures
            r == (self.value() <= rhs.value()),
    ;

    /// Whether `a + b` is less than or equal to `c + d`, with the sums taken
    /// in the integers.
    fn sum_at_most(a: Self, b: Self, c: Self, d: Self) -> (r: bool)
        ensures
            r == (a.value() + b.value() <= c.value() + d.value()),
    ;

    /// Appends the number's text.
    fn render(self, out: &mut String)
        ensures
            final(out)@ == old(out)@ + self.text(),
    ;
}

impl Coordinate for u32 {
    open spec fn value(self) -> int {
        self as int
    }

    open spec fn representable(v: int) -> bool {
        0 <= v <= u32::MAX
    }

    open spec fn text(self) -> Seq<char> {
        decimal(self as nat)
    }

    fn plus(self, rhs: Self) -> (sum: Self) {
        self + rhs
    }

    fn at_most(self, rhs: Self) -> (r: bool) {
        self <= rhs
    }

    fn sum_at_most(a: Self, b: Self, c: Self, d: Self) -> (r: bool) {
        a as u64 + b as u64 <= c as u64 + d as u64
    }

    fn render(self, out: &mut String) {
        push_decimal(out, self as u64);
    }
}

impl Coordinate for i32 {
    open spec fn value(self) -> int {
        self as int
    }

    open spec fn representable(v: int) -> bool {
        i32::MIN <= v <= i32::MAX
    }

    open spec fn text(self) -> Seq<char> {
        signed_decimal(self as int)
    }

    fn plus(self, rhs: Self) -> (sum: Self) {
        self + rhs
    }

    fn at_most(self, rhs: Self) -> (r: bool) {
        self <= rhs
    }

    fn sum_at_most(a: Self, b: Self, c: Self, d: Self) -> (r: bool) {
        a as i64 + b as i64 <= c as i64 + d as i64
    }

    fn render(self, out: &mut String) {
        push_signed(out, self as i64);
    }
}

/// General purpose 2D rectangle: a position and a size.
#[derive(Debug, Clone, Copy, PartialEq, Eq)]
pub struct Rect<N: Copy> {
    pub pos: [N; 2],
    pub size: [N; 2],
}

impl<N: Coordinate> Rect<N> {
    /// The horizontal position of the minimum corner.
    pub open spec fn left(self) -> int {
        self.pos[0].value()
    }

    /// The vertical position of the minimum corner.
    pub open spec fn top(self) -> int {
        self.pos[1].value()
    }

    /// The horizontal position of the maximum corner.
    pub open spec fn right(self) -> int {
        self.pos[0].value() + self.size[0].value()
    }

    /// The vertical position of the maximum corner.
    pub open spec fn bottom(self) -> int {
        self.pos[1].value() + self.size[1].value()
    }

    /// Whether `other` lies inside `self`: its minimum corner is not before
    /// that of `self` and its maximum corner not past that of `self`.
    pub open spec fn contains(self, other: Rect<N>) -> bool {
        &&& self.left() <= other.left()
        &&& self.top() <= other.top()
        &&& self.right() >= other.right()
        &&& self.bottom() >= other.bottom()
    }

    /// The text form: position and size between square brackets.
    pub open spec fn text(self) -> Seq<char> {
        "["@ + self.pos[0].text() + ", "@ + self.pos[1].text() + ", "@ + self.size[0].text() + ", "@
            + self.size[1].text() + "]"@
    }

    pub fn new(pos: [N; 2], size: [N; 2]) -> (rect: Self)
        ensures
            rect.pos == pos,
            rect.size == size,
    {
        Self { pos, size }
    }

    /// Calculate the bounding box of the rectangle, as the minimum and maximum corners.
    pub fn as_bounds(&self) -> (bounds: [N; 4])
        requires
            N::representable(self.right()),
            N::representable(self.bottom()),
        ensures
            bounds[0] == self.pos[0],
            bounds[1] == self.pos[1],
            bounds[2].value() == self.right(),
            bounds[3].value() == self.bottom(),
    {
        [
            self.pos[0],
            self.pos[1],
            self.pos[0].plus(self.size[0]),
            self.pos[1].plus(self.size[1]),
        ]
    }

    /// Checks whether `other` can fit inside this rectangle.
    pub fn can_fit(&self, other: &Rect<N>) -> (r: bool)
        ensures
            r == self.contains(*other),
    {
        self.pos[0].at_most(other.pos[0]) && self.pos[1].at_most(other.pos[1]) && N::sum_at_most(
            other.pos[0],
            other.size[0],
            self.pos[0],
            self.size[0],
        ) && N::sum_at_most(other.pos[1], other.size[1], self.pos[1], self.size[1])
    }

    /// The rectangle as text, such as `[0, 0, 10, 10]`.
    pub fn to_string(&self) -> (s: String)
        ensures
            s@ == self.text(),
    {
        let mut s = String::new();
        push_text(&mut s, "[");
        self.pos[0].render(&mut s);
        push_text(&mut s, ", ");
        self.pos[1].render(&mut s);
        push_text(&mut s, ", ");
        self.size[0].render(&mut s);
        push_text(&mut s, ", ");
        self.size[1].render(&mut s);
        push_text(&mut s, "]");
        assert(s@ =~= self.text());
        s
    }
}

} // verus!
