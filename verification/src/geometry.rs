//! Points, sizes and axis-aligned rectangles on the integer grid.

use vstd::prelude::*;

verus! {

/// A position in grid units. The x axis points right, the y axis points down.
#[derive(Clone, Copy, Debug, PartialEq, Eq, Structural)]
pub struct Point {
    pub x: i64,
    pub y: i64,
}

/// The extent of a rectangle in grid units.
#[derive(Clone, Copy, Debug, PartialEq, Eq, Structural)]
pub struct Size {
    pub width: u32,
    pub height: u32,
}

/// An axis-aligned rectangle given by its top-left corner and its size.
///
/// It covers the unit cells from `pos.x` up to, but not including,
/// `pos.x + size.width`, and likewise in y.
#[derive(Clone, Copy, Debug, PartialEq, Eq, Structural)]
pub struct Rect {
    pub pos: Point,
    pub size: Size,
}

/// The coordinate nearest to `v` that an `i64` can hold.
pub open spec fn saturate(v: int) -> int {
    if v < i64::MIN {
        i64::MIN as int
    } else if v > i64::MAX {
        i64::MAX as int
    } else {
        v
    }
}

/// Brings a wide intermediate result back into the coordinate range: values
/// beyond either end of the range stick to that end.
pub fn clamp_coordinate(v: i128) -> (r: i64)
    ensures
        r == saturate(v as int),
{
    if v < i64::MIN as i128 {
        i64::MIN
    } else if v > i64::MAX as i128 {
        i64::MAX
    } else {
        v as i64
    }
}

impl Point {
    /// This point displaced by `(dx, dy)`, each coordinate saturating at the
    /// ends of the coordinate range.
    pub open spec fn shifted(self, dx: int, dy: int) -> Point {
        Point { x: saturate(self.x + dx) as i64, y: saturate(self.y + dy) as i64 }
    }
}

impl Rect {
    /// One past the rightmost column the rectangle covers.
    pub open spec fn right(self) -> int {
        self.pos.x + self.size.width
    }

    /// One past the lowest row the rectangle covers.
    pub open spec fn bottom(self) -> int {
        self.pos.y + self.size.height
    }

    /// Whether the unit cell whose top-left corner is `(cx, cy)` lies inside
    /// the rectangle.
    pub open spec fn covers(self, cx: int, cy: int) -> bool {
        &&& self.pos.x <= cx < self.right()
        &&& self.pos.y <= cy < self.bottom()
    }

    /// Whether the two rectangles share any area: both are non-empty, and each
    /// starts before the other ends, on both axes.
    pub open spec fn overlaps(self, other: Rect) -> bool {
        &&& self.size.width > 0 && self.size.height > 0
        &&& other.size.width > 0 && other.size.height > 0
        &&& self.pos.x < other.right() && other.pos.x < self.right()
        &&& self.pos.y < other.bottom() && other.pos.y < self.bottom()
    }

    /// The rectangle of the given size whose centre is `(cx, cy)`: its corner
    /// lies half the size, rounded down, left of and above the centre. With
    /// an odd width or height the exact middle of the rectangle is therefore
    /// half a unit right of, or below, what counts as its centre.
    pub open spec fn centered_at(cx: int, cy: int, size: Size) -> Rect {
        Rect {
            pos: Point {
                x: saturate(cx - size.width / 2) as i64,
                y: saturate(cy - size.height / 2) as i64,
            },
            size,
        }
    }

    /// The centre of the rectangle, saturating at the ends of the coordinate
    /// range.
    pub open spec fn center_point(self) -> Point {
        Point {
            x: saturate(self.pos.x + self.size.width / 2) as i64,
            y: saturate(self.pos.y + self.size.height / 2) as i64,
        }
    }

    /// This rectangle displaced by `(dx, dy)`; the size stays as it is.
    pub open spec fn shifted(self, dx: int, dy: int) -> Rect {
        Rect { pos: self.pos.shifted(dx, dy), size: self.size }
    }

    /// Builds the rectangle of the given size around the centre `(cx, cy)`.
    pub fn around(cx: i64, cy: i64, size: Size) -> (r: Rect)
        ensures
            r == Rect::centered_at(cx as int, cy as int, size),
    {
        Rect {
            pos: Point {
                x: clamp_coordinate(cx as i128 - (size.width / 2) as i128),
                y: clamp_coordinate(cy as i128 - (size.height / 2) as i128),
            },
            size,
        }
    }

    /// The centre of the rectangle.
    pub fn center(&self) -> (c: Point)
        ensures
            c == self.center_point(),
    {
        Point {
            x: clamp_coordinate(self.pos.x as i128 + (self.size.width / 2) as i128),
            y: clamp_coordinate(self.pos.y as i128 + (self.size.height / 2) as i128),
        }
    }

    /// Tests whether the two rectangles share any area. Rectangles that only
    /// touch along an edge or at a corner do not overlap, and an empty
    /// rectangle overlaps nothing.
    pub fn overlaps_rect(&self, other: &Rect) -> (hit: bool)
        ensures
            hit == self.overlaps(*other),
    {
        let left: i128 = self.pos.x as i128;
        let top: i128 = self.pos.y as i128;
        let right: i128 = left + self.size.width as i128;
        let bottom: i128 = top + self.size.height as i128;
        let other_left: i128 = other.pos.x as i128;
        let other_top: i128 = other.pos.y as i128;
        let other_right: i128 = other_left + other.size.width as i128;
        let other_bottom: i128 = other_top + other.size.height as i128;
        let both_have_area = self.size.width > 0 && self.size.height > 0 && other.size.width > 0
            && other.size.height > 0;
        let meet_in_x = left < other_right && other_left < right;
        let meet_in_y = top < other_bottom && other_top < bottom;
        both_have_area && meet_in_x && meet_in_y
    }
}

/// Two rectangles overlap exactly when some unit cell lies inside both.
pub proof fn lemma_overlap_is_shared_cell(a: Rect, b: Rect)
    ensures
        a.overlaps(b) <==> exists|cx: int, cy: int| a.covers(cx, cy) && #[trigger] b.covers(cx, cy),
{
    if a.overlaps(b) {
        let cx = if a.pos.x >= b.pos.x {
            a.pos.x as int
        } else {
            b.pos.x as int
        };
        let cy = if a.pos.y >= b.pos.y {
            a.pos.y as int
        } else {
            b.pos.y as int
        };
        assert(a.covers(cx, cy) && b.covers(cx, cy));
    }
}

/// Rectangles with no cell in common do not overlap.
pub proof fn lemma_disjoint_rects_do_not_overlap(a: Rect, b: Rect)
    requires
        forall|cx: int, cy: int| !(a.covers(cx, cy) && #[trigger] b.covers(cx, cy)),
    ensures
        !a.overlaps(b),
{
    lemma_overlap_is_shared_cell(a, b);
}

/// Rectangles with a cell in common overlap.
pub proof fn lemma_shared_cell_overlaps(a: Rect, b: Rect, cx: int, cy: int)
    requires
        a.covers(cx, cy),
        b.covers(cx, cy),
    ensures
        a.overlaps(b),
{
}

/// Rectangles that meet along an edge, one ending where the other begins, do
/// not overlap.
pub proof fn lemma_touching_rects_do_not_overlap(a: Rect, b: Rect)
    requires
        a.right() == b.pos.x || b.right() == a.pos.x || a.bottom() == b.pos.y || b.bottom()
            == a.pos.y,
    ensures
        !a.overlaps(b),
{
}

/// The overlap test does not depend on the order of its arguments.
pub proof fn lemma_overlap_symmetric(a: Rect, b: Rect)
    ensures
        a.overlaps(b) == b.overlaps(a),
{
}

/// A rectangle built around a centre has that centre, as long as the
/// rectangle's top-left corner fits in the coordinate range.
pub proof fn lemma_center_of_centered(cx: i64, cy: i64, size: Size)
    requires
        cx - size.width / 2 >= i64::MIN,
        cy - size.height / 2 >= i64::MIN,
    ensures
        Rect::centered_at(cx as int, cy as int, size).center_point() == (Point { x: cx, y: cy }),
{
}

} // verus!
