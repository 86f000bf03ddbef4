use vstd::prelude::*;

use crate::extent::{planar_size, Extent3d};
use crate::coord::Coord;
use crate::rect::{RectModel, Rectangle};

verus! {

/// Two rectangles with the same four integers are the same rectangle.
pub proof fn lemma_view_injective<T: Coord>(a: Rectangle<T>, b: Rectangle<T>)
    requires
        a@ == b@,
    ensures
        a == b,
{
    T::lemma_val_injective(a.x, b.x);
    T::lemma_val_injective(a.y, b.y);
    T::lemma_val_injective(a.w, b.w);
    T::lemma_val_injective(a.h, b.h);
}

/// A rectangle built from two corners has its right edge at `x2` and its
/// bottom edge at `y2`, whichever way round the corners are given.
pub proof fn lemma_from_pos_far_corner(x1: int, y1: int, x2: int, y2: int)
    ensures
        RectModel::from_corners(x1, y1, x2, y2).left() == x1,
        RectModel::from_corners(x1, y1, x2, y2).top() == y1,
        RectModel::from_corners(x1, y1, x2, y2).right() == x2,
        RectModel::from_corners(x1, y1, x2, y2).bottom() == y2,
{
}

/// Overlap is symmetric.
pub proof fn lemma_overlaps_symmetric(a: RectModel, b: RectModel)
    ensures
        a.overlaps(b) == b.overlaps(a),
{
}

/// Rectangles that share only an edge do not overlap.
pub proof fn lemma_touching_edges_do_not_overlap(a: RectModel, b: RectModel)
    requires
        a.right() == b.left() || a.bottom() == b.top(),
    ensures
        !a.overlaps(b),
{
}

/// Translating by one offset and then another is translating by their sum.
pub proof fn lemma_translate_compose(r: RectModel, dx1: int, dy1: int, dx2: int, dy2: int)
    ensures
        r.translated(dx1, dy1).translated(dx2, dy2) == r.translated(dx1 + dx2, dy1 + dy2),
{
}

/// Moving horizontally and then vertically is one translation by both offsets.
pub proof fn lemma_translate_axes(r: RectModel, dx: int, dy: int)
    ensures
        r.translated(dx, 0).translated(0, dy) == r.translated(dx, dy),
{
}

/// The depth of an extent never affects its planar size.
pub proof fn lemma_planar_size_ignores_depth(a: Extent3d, b: Extent3d)
    requires
        a.width == b.width,
        a.height == b.height,
    ensures
        planar_size(a) == planar_size(b),
        planar_size(a).x == a.width,
        planar_size(a).y == a.height,
{
}

} // verus!
