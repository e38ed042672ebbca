//! Update regions of the framebuffer: axis-aligned rectangles in pixels.
//!
//! A rectangle covers the pixels from its top-left corner `(left, top)` to
//! its far corner `(left + width, top + height)`, both edges included.
use vstd::prelude::*;
use vstd::math::{max, min};
use crate::geometry::{Point2, Vector2};

verus! {

/// A region of the screen: its top and left edges and its width and height,
/// in pixels, in the order the EPDC driver's `struct mxcfb_rect` names them.
#[derive(Clone, Copy, Debug, PartialEq, Eq, Structural)]
pub struct mxcfb_rect {
    pub top: u32,
    pub left: u32,
    pub width: u32,
    pub height: u32,
}

impl Default for mxcfb_rect {
    /// The all-zero rectangle.
    fn default() -> (r: Self)
        ensures
            r == (mxcfb_rect { top: 0, left: 0, width: 0, height: 0 }),
    {
        mxcfb_rect { top: 0, left: 0, width: 0, height: 0 }
    }
}

impl mxcfb_rect {
    /// The column of the right edge.
    pub open spec fn right(self) -> int {
        self.left + self.width
    }

    /// The row of the bottom edge.
    pub open spec fn bottom(self) -> int {
        self.top + self.height
    }

    /// Both far edges can be computed in 32 bits.
    pub open spec fn edges_fit(self) -> bool {
        self.right() <= u32::MAX && self.bottom() <= u32::MAX
    }

    /// Testing the point `(x, y)` computes no far edge that overflows 32 bits:
    /// the right edge is computed once `x` is not left of the rectangle, the
    /// bottom edge once `x` lies within its columns and `y` is not above it.
    pub open spec fn point_test_fits(self, x: int, y: int) -> bool {
        &&& x >= self.left ==> self.right() <= u32::MAX
        &&& (self.left <= x <= self.right() && y >= self.top) ==> self.bottom() <= u32::MAX
    }

    /// The rectangle covers no area.
    pub open spec fn is_empty(self) -> bool {
        self.width == 0 || self.height == 0
    }

    /// The point `(x, y)` lies in the rectangle, edges included.
    pub open spec fn holds_point(self, x: int, y: int) -> bool {
        self.left <= x <= self.right() && self.top <= y <= self.bottom()
    }

    /// Both corners of `other` lie in this rectangle.
    pub open spec fn encloses(self, other: mxcfb_rect) -> bool {
        self.holds_point(other.left as int, other.top as int) && self.holds_point(
            other.right(),
            other.bottom(),
        )
    }

    /// The top-left corner.
    pub open spec fn corner(self) -> Point2<u32> {
        Point2 { x: self.left, y: self.top }
    }

    /// The width and the height.
    pub open spec fn extent(self) -> Vector2<u32> {
        Vector2 { x: self.width, y: self.height }
    }

    /// The rectangle with top-left corner `pos` and extent `size`.
    pub open spec fn from_parts(pos: Point2<u32>, size: Vector2<u32>) -> mxcfb_rect {
        mxcfb_rect { top: pos.y, left: pos.x, width: size.x, height: size.y }
    }

    /// The placeholder region that marks "nothing to update yet".
    pub open spec fn invalid_rect() -> mxcfb_rect {
        mxcfb_rect { top: 9999, left: 9999, width: 0, height: 0 }
    }

    /// The smallest rectangle from `(left, top)` to `(right, bottom)`.
    pub open spec fn spanning(left: int, top: int, right: int, bottom: int) -> mxcfb_rect {
        mxcfb_rect {
            top: top as u32,
            left: left as u32,
            width: (right - left) as u32,
            height: (bottom - top) as u32,
        }
    }

    /// This rectangle grown to take in the point `(x, y)`.
    pub open spec fn with_pixel(self, x: int, y: int) -> mxcfb_rect {
        mxcfb_rect::spanning(
            min(self.left as int, x),
            min(self.top as int, y),
            max(self.right(), x),
            max(self.bottom(), y),
        )
    }

    /// The region that covers this one and `other`: an empty rectangle adds
    /// nothing, and two empty ones give the placeholder region.
    pub open spec fn union(self, other: mxcfb_rect) -> mxcfb_rect {
        if self.is_empty() && other.is_empty() {
            mxcfb_rect::invalid_rect()
        } else if self.is_empty() {
            other
        } else if other.is_empty() {
            self
        } else {
            mxcfb_rect::spanning(
                min(self.left as int, other.left as int),
                min(self.top as int, other.top as int),
                max(self.right(), other.right()),
                max(self.bottom(), other.bottom()),
            )
        }
    }

    /// This rectangle with `margin` more pixels on every side, its corner
    /// stopping at the edge of the screen.
    pub open spec fn grown(self, margin: int) -> mxcfb_rect {
        mxcfb_rect {
            left: if self.left > margin { (self.left - margin) as u32 } else { 0 },
            top: if self.top > margin { (self.top - margin) as u32 } else { 0 },
            width: (self.width + 2 * margin) as u32,
            height: (self.height + 2 * margin) as u32,
        }
    }

    pub fn top_left(&self) -> (p: Point2<u32>)
        ensures
            p == self.corner(),
    {
        Point2 { x: self.left, y: self.top }
    }

    pub fn size(&self) -> (v: Vector2<u32>)
        ensures
            v == self.extent(),
    {
        Vector2 { x: self.width, y: self.height }
    }

    pub fn from(pos: Point2<u32>, size: Vector2<u32>) -> (r: mxcfb_rect)
        ensures
            r == mxcfb_rect::from_parts(pos, size),
    {
        mxcfb_rect { top: pos.y, left: pos.x, height: size.y, width: size.x }
    }

    pub fn invalid() -> (r: Self)
        ensures
            r == mxcfb_rect::invalid_rect(),
    {
        mxcfb_rect { top: 9999, left: 9999, height: 0, width: 0 }
    }

    pub fn contains_point(&self, p: &Point2<u32>) -> (res: bool)
        requires
            self.point_test_fits(p.x as int, p.y as int),
        ensures
            res == self.holds_point(p.x as int, p.y as int),
    {
        !(p.x < self.left || p.x > (self.left + self.width) || p.y < self.top || p.y > (self.top
            + self.height))
    }

    pub fn contains_rect(&self, rect: &mxcfb_rect) -> (res: bool)
        requires
            self.point_test_fits(rect.left as int, rect.top as int),
            self.holds_point(rect.left as int, rect.top as int) ==> rect.edges_fit(),
        ensures
            res == self.encloses(*rect),
    {
        self.contains_point(&Point2 { x: rect.left, y: rect.top }) && self.contains_point(
            &Point2 { x: rect.left + rect.width, y: rect.top + rect.height },
        )
    }

    pub fn merge_pixel(&self, p: &Point2<u32>) -> (r: mxcfb_rect)
        requires
            self.edges_fit(),
        ensures
            r == self.with_pixel(p.x as int, p.y as int),
    {
        let top = if self.top <= p.y { self.top } else { p.y };
        let left = if self.left <= p.x { self.left } else { p.x };
        let bottom = if self.top + self.height >= p.y { self.top + self.height } else { p.y };
        let right = if self.left + self.width >= p.x { self.left + self.width } else { p.x };
        mxcfb_rect { left, top, width: right - left, height: bottom - top }
    }

    pub fn merge_rect(&self, rect: &mxcfb_rect) -> (r: mxcfb_rect)
        requires
            !self.is_empty() && !rect.is_empty() ==> self.edges_fit() && rect.edges_fit(),
        ensures
            r == self.union(*rect),
    {
        let self_is_empty = self.height == 0 || self.width == 0;
        let rect_is_empty = rect.height == 0 || rect.width == 0;
        if self_is_empty && rect_is_empty {
            mxcfb_rect::invalid()
        } else if self_is_empty {
            *rect
        } else if rect_is_empty {
            *self
        } else {
            let top = if self.top <= rect.top { self.top } else { rect.top };
            let left = if self.left <= rect.left { self.left } else { rect.left };
            let self_bottom = self.top + self.height;
            let rect_bottom = rect.top + rect.height;
            let bottom = if self_bottom >= rect_bottom { self_bottom } else { rect_bottom };
            let self_right = self.left + self.width;
            let rect_right = rect.left + rect.width;
            let right = if self_right >= rect_right { self_right } else { rect_right };
            mxcfb_rect { left, top, width: right - left, height: bottom - top }
        }
    }

    pub fn expand(&self, margin: u32) -> (r: mxcfb_rect)
        requires
            self.width + 2 * margin <= u32::MAX,
            self.height + 2 * margin <= u32::MAX,
        ensures
            r == self.grown(margin as int),
    {
        mxcfb_rect {
            left: if self.left > margin {
                self.left - margin
            } else {
                0
            },
            top: if self.top > margin {
                self.top - margin
            } else {
                0
            },
            width: self.width + (2 * margin),
            height: self.height + (2 * margin),
        }
    }
}

/// Merging two regions does not depend on their order.
pub proof fn lemma_merge_rect_commutes(a: mxcfb_rect, b: mxcfb_rect)
    ensures
        a.union(b) == b.union(a),
{
}

/// The merge of two regions covers each of them that is not empty, and its
/// edges still fit in 32 bits.
pub proof fn lemma_merge_rect_encloses(a: mxcfb_rect, b: mxcfb_rect)
    requires
        a.edges_fit(),
        b.edges_fit(),
    ensures
        a.union(b).edges_fit(),
        !a.is_empty() ==> a.union(b).encloses(a),
        !b.is_empty() ==> a.union(b).encloses(b),
{
}

/// The merge of two non-empty regions is the smallest rectangle that covers
/// both: any rectangle that covers them covers their merge.
pub proof fn lemma_merge_rect_is_smallest(a: mxcfb_rect, b: mxcfb_rect, c: mxcfb_rect)
    requires
        a.edges_fit(),
        b.edges_fit(),
        !a.is_empty(),
        !b.is_empty(),
        c.encloses(a),
        c.encloses(b),
    ensures
        c.encloses(a.union(b)),
{
}

/// The placeholder region is empty, it is what two empty regions merge to,
/// and merging it with a non-empty region gives that region back.
pub proof fn lemma_invalid_is_merge_identity(r: mxcfb_rect)
    ensures
        mxcfb_rect::invalid_rect().is_empty(),
        !r.is_empty() ==> mxcfb_rect::invalid_rect().union(r) == r,
        !r.is_empty() ==> r.union(mxcfb_rect::invalid_rect()) == r,
        r.is_empty() ==> r.union(mxcfb_rect::invalid_rect()) == mxcfb_rect::invalid_rect(),
{
}

/// Merging a pixel into a region gives a region that holds the pixel and
/// covers the old region.
pub proof fn lemma_merge_pixel_encloses(r: mxcfb_rect, x: u32, y: u32)
    requires
        r.edges_fit(),
    ensures
        r.with_pixel(x as int, y as int).edges_fit(),
        r.with_pixel(x as int, y as int).holds_point(x as int, y as int),
        r.with_pixel(x as int, y as int).encloses(r),
{
}

/// A region grown by a margin covers the region.
pub proof fn lemma_expand_encloses(r: mxcfb_rect, margin: u32)
    requires
        r.width + 2 * margin <= u32::MAX,
        r.height + 2 * margin <= u32::MAX,
    ensures
        r.grown(margin as int).encloses(r),
{
}

/// Every region covers itself.
pub proof fn lemma_encloses_itself(r: mxcfb_rect)
    ensures
        r.encloses(r),
{
}

/// A region is rebuilt from its top-left corner and its size, and a region
/// built from a corner and a size gives them back.
pub proof fn lemma_corner_size_round_trip(r: mxcfb_rect, pos: Point2<u32>, size: Vector2<u32>)
    ensures
        mxcfb_rect::from_parts(r.corner(), r.extent()) == r,
        mxcfb_rect::from_parts(pos, size).corner() == pos,
        mxcfb_rect::from_parts(pos, size).extent() == size,
{
}

/// `contains_rect` asks whether a region lies wholly inside another: one
/// region encloses another exactly when every point of the other is a point
/// of it.
pub proof fn lemma_encloses_means_every_point(a: mxcfb_rect, b: mxcfb_rect)
    ensures
        a.encloses(b) <==> (forall|x: int, y: int| #[trigger]
            b.holds_point(x, y) ==> a.holds_point(x, y)),
{
    if forall|x: int, y: int| #[trigger] b.holds_point(x, y) ==> a.holds_point(x, y) {
        assert(b.holds_point(b.left as int, b.top as int));
        assert(b.holds_point(b.right(), b.bottom()));
    }
}

} // verus!
