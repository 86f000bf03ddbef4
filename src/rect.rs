use vstd::prelude::*;

use crate::coord::Coord;

verus! {

/// An axis-aligned rectangle as four integers: origin `(x, y)` at the top-left
/// corner (y grows downward), width `w` and height `h`. Negative sizes are allowed.
pub struct RectModel {
    pub x: int,
    pub y: int,
    pub w: int,
    pub h: int,
}

impl RectModel {
    pub open spec fn left(self) -> int {
        self.x
    }

    pub open spec fn top(self) -> int {
        self.y
    }

    pub open spec fn right(self) -> int {
        self.x + self.w
    }

    pub open spec fn bottom(self) -> int {
        self.y + self.h
    }

    /// The rectangle with origin `(x1, y1)` whose far corner is `(x2, y2)`.
    pub open spec fn from_corners(x1: int, y1: int, x2: int, y2: int) -> RectModel {
        RectModel { x: x1, y: y1, w: x2 - x1, h: y2 - y1 }
    }

    /// The two rectangles are not separated on either axis; touching edges do
    /// not count as overlap.
    pub open spec fn overlaps(self, o: RectModel) -> bool {
        !(self.right() <= o.left() || self.left() >= o.right() || self.top() >= o.bottom()
            || self.bottom() <= o.top())
    }

    /// The rectangle moved by `(dx, dy)`, its size unchanged.
    pub open spec fn translated(self, dx: int, dy: int) -> RectModel {
        RectModel { x: self.x + dx, y: self.y + dy, w: self.w, h: self.h }
    }
}

/// An axis-aligned rectangle over a coordinate type.
#[derive(Debug, Clone, Copy, PartialEq, Eq, Structural)]
pub struct Rectangle<T> {
    pub x: T,
    pub y: T,
    pub w: T,
    pub h: T,
}

/// A displacement in the plane.
#[derive(Debug, Clone, Copy, PartialEq, Eq, Structural)]
pub struct Offset<T> {
    pub x: T,
    pub y: T,
}

impl<T: Coord> View for Rectangle<T> {
    type V = RectModel;

    open spec fn view(&self) -> RectModel {
        RectModel { x: self.x.val(), y: self.y.val(), w: self.w.val(), h: self.h.val() }
    }
}

impl<T: Coord> Rectangle<T> {
    /// Whether the right and bottom edges can be computed in `T`.
    pub open spec fn edges_fit(self) -> bool {
        T::fits(self@.right()) && T::fits(self@.bottom())
    }

    pub fn right(&self) -> (r: T)
        requires
            T::fits(self@.right()),
        ensures
            r.val() == self@.right(),
    {
        self.x.plus(self.w)
    }

    pub fn top(&self) -> (r: T)
        ensures
            r == self.y,
            r.val() == self@.top(),
    {
        self.y
    }

    pub fn left(&self) -> (r: T)
        ensures
            r == self.x,
            r.val() == self@.left(),
    {
        self.x
    }

    pub fn bottom(&self) -> (r: T)
        requires
            T::fits(self@.bottom()),
        ensures
            r.val() == self@.bottom(),
    {
        self.y.plus(self.h)
    }

    /// The rectangle with origin `(x1, y1)` and far corner `(x2, y2)`; the size
    /// is not normalised, so it is negative where `x2 < x1` or `y2 < y1`.
    pub fn from_pos(x1: T, y1: T, x2: T, y2: T) -> (r: Self)
        requires
            T::fits(x2.val() - x1.val()),
            T::fits(y2.val() - y1.val()),
        ensures
            r.x == x1,
            r.y == y1,
            r@ == RectModel::from_corners(x1.val(), y1.val(), x2.val(), y2.val()),
    {
        Rectangle { x: x1, y: y1, w: x2.minus(x1), h: y2.minus(y1) }
    }

    /// Whether the two rectangles overlap (despite the name, this is an
    /// intersection test, not containment). Touching edges do not overlap.
    pub fn contains(&self, other: &Self) -> (r: bool)
        requires
            self.edges_fit(),
            other.edges_fit(),
        ensures
            r == self@.overlaps(other@),
    {
        !(self.right().le(&other.left()) || other.right().le(&self.left()) || other.bottom().le(
            &self.top(),
        ) || self.bottom().le(&other.top()))
    }

    /// The rectangle moved by `offset`, its size unchanged.
    pub fn translate(&self, offset: Offset<T>) -> (r: Self)
        requires
            T::fits(self.x.val() + offset.x.val()),
            T::fits(self.y.val() + offset.y.val()),
        ensures
            r.w == self.w,
            r.h == self.h,
            r@ == self@.translated(offset.x.val(), offset.y.val()),
    {
        Rectangle { x: self.x.plus(offset.x), y: self.y.plus(offset.y), w: self.w, h: self.h }
    }

    /// The rectangle moved horizontally by `offset`.
    pub fn translate_x(&self, offset: T) -> (r: Self)
        requires
            T::fits(self.x.val() + offset.val()),
        ensures
            r.y == self.y,
            r.w == self.w,
            r.h == self.h,
            r@ == self@.translated(offset.val(), 0),
    {
        Rectangle { x: self.x.plus(offset), y: self.y, w: self.w, h: self.h }
    }

    /// The rectangle moved vertically by `offset`.
    pub fn translate_y(&self, offset: T) -> (r: Self)
        requires
            T::fits(self.y.val() + offset.val()),
        ensures
            r.x == self.x,
            r.w == self.w,
            r.h == self.h,
            r@ == self@.translated(0, offset.val()),
    {
        Rectangle { x: self.x, y: self.y.plus(offset), w: self.w, h: self.h }
    }
}

} // verus!
