//! Axis-aligned rectangle overlap testing with side classification.
//!
//! Two rectangles overlap iff both axis projections strictly intersect.
//! When they do, the reported side is the side of the second rectangle that
//! the first rectangle contacted, derived from the axis with the smaller
//! penetration depth (the minimum-translation-vector heuristic); an axis on
//! which the first rectangle does not straddle exactly one edge of the second
//! contributes no side, and if neither axis does, the contact is `Inside`.

use vstd::prelude::*;

use crate::COORD_LIMIT;

verus! {

/// An axis-aligned rectangle, given by its corners, in fixed-point
/// coordinates (hundredths of one world unit).
#[derive(Clone, Copy, PartialEq, Eq, Structural, Debug)]
pub struct Rect {
    pub min_x: i64,
    pub min_y: i64,
    pub max_x: i64,
    pub max_y: i64,
}

/// The side of the second rectangle that the first rectangle contacted.
/// `Inside` reports contact without directional information.
#[derive(Clone, Copy, PartialEq, Eq, Structural, Debug)]
pub enum Side {
    Left,
    Right,
    Top,
    Bottom,
    Inside,
}

impl Rect {
    /// Corners are ordered and all coordinates stay within the fixed-point
    /// range, so that penetration depths never overflow.
    pub open spec fn wf(self) -> bool {
        &&& -COORD_LIMIT <= self.min_x <= self.max_x <= COORD_LIMIT
        &&& -COORD_LIMIT <= self.min_y <= self.max_y <= COORD_LIMIT
    }

    /// Builds the rectangle centered at `(cx, cy)` with the given
    /// half-extents.
    pub fn from_center(cx: i64, cy: i64, half_w: i64, half_h: i64) -> (r: Rect)
        requires
            0 <= half_w,
            0 <= half_h,
            -COORD_LIMIT <= cx - half_w,
            cx + half_w <= COORD_LIMIT,
            -COORD_LIMIT <= cy - half_h,
            cy + half_h <= COORD_LIMIT,
        ensures
            r == (Rect {
                min_x: (cx - half_w) as i64,
                min_y: (cy - half_h) as i64,
                max_x: (cx + half_w) as i64,
                max_y: (cy + half_h) as i64,
            }),
            r.wf(),
    {
        Rect {
            min_x: cx - half_w,
            min_y: cy - half_h,
            max_x: cx + half_w,
            max_y: cy + half_h,
        }
    }

    /// Grows the rectangle by `margin` on every side, used for wall-contact
    /// queries so that blocking is detected slightly before visual overlap.
    pub fn inflated(&self, margin: i64) -> (r: Rect)
        requires
            0 <= margin,
            -COORD_LIMIT <= self.min_x - margin,
            self.max_x + margin <= COORD_LIMIT,
            -COORD_LIMIT <= self.min_y - margin,
            self.max_y + margin <= COORD_LIMIT,
            self.wf(),
        ensures
            r == inflated_rect(*self, margin as int),
            r.wf(),
    {
        Rect {
            min_x: self.min_x - margin,
            min_y: self.min_y - margin,
            max_x: self.max_x + margin,
            max_y: self.max_y + margin,
        }
    }
}

/// Horizontal center of a rectangle, rounded towards its left edge.
pub open spec fn rect_center_x(r: Rect) -> int {
    r.min_x + (r.max_x - r.min_x) / 2
}

/// Vertical center of a rectangle, rounded towards its bottom edge.
pub open spec fn rect_center_y(r: Rect) -> int {
    r.min_y + (r.max_y - r.min_y) / 2
}

impl Rect {
    /// The center point of the rectangle.
    pub fn center(&self) -> (c: (i64, i64))
        requires
            self.wf(),
        ensures
            c.0 == rect_center_x(*self),
            c.1 == rect_center_y(*self),
            self.min_x <= c.0 <= self.max_x,
            self.min_y <= c.1 <= self.max_y,
    {
        let w = (self.max_x - self.min_x) as u64;
        let h = (self.max_y - self.min_y) as u64;
        let half_w = (w / 2) as i64;
        let half_h = (h / 2) as i64;
        (self.min_x + half_w, self.min_y + half_h)
    }
}

/// The rectangle grown by `margin` on every side.
pub open spec fn inflated_rect(r: Rect, margin: int) -> Rect {
    Rect {
        min_x: (r.min_x - margin) as i64,
        min_y: (r.min_y - margin) as i64,
        max_x: (r.max_x + margin) as i64,
        max_y: (r.max_y + margin) as i64,
    }
}

/// Both axis projections strictly intersect.
pub open spec fn overlaps(a: Rect, b: Rect) -> bool {
    &&& a.min_x < b.max_x
    &&& a.max_x > b.min_x
    &&& a.min_y < b.max_y
    &&& a.max_y > b.min_y
}

/// On the horizontal axis, `a` straddles exactly the left edge of `b`.
pub open spec fn x_hits_left(a: Rect, b: Rect) -> bool {
    a.min_x < b.min_x && a.max_x > b.min_x && a.max_x < b.max_x
}

/// On the horizontal axis, `a` straddles exactly the right edge of `b`.
pub open spec fn x_hits_right(a: Rect, b: Rect) -> bool {
    a.min_x > b.min_x && a.min_x < b.max_x && a.max_x > b.max_x
}

/// On the vertical axis, `a` straddles exactly the bottom edge of `b`.
pub open spec fn y_hits_bottom(a: Rect, b: Rect) -> bool {
    a.min_y < b.min_y && a.max_y > b.min_y && a.max_y < b.max_y
}

/// On the vertical axis, `a` straddles exactly the top edge of `b`.
pub open spec fn y_hits_top(a: Rect, b: Rect) -> bool {
    a.min_y > b.min_y && a.min_y < b.max_y && a.max_y > b.max_y
}

/// The horizontal axis yields directional information.
pub open spec fn x_directional(a: Rect, b: Rect) -> bool {
    x_hits_left(a, b) || x_hits_right(a, b)
}

/// The vertical axis yields directional information.
pub open spec fn y_directional(a: Rect, b: Rect) -> bool {
    y_hits_bottom(a, b) || y_hits_top(a, b)
}

/// Penetration depth on the horizontal axis; meaningful only when
/// `x_directional` holds.
pub open spec fn x_depth(a: Rect, b: Rect) -> int {
    if x_hits_left(a, b) {
        a.max_x - b.min_x
    } else {
        b.max_x - a.min_x
    }
}

/// Penetration depth on the vertical axis; meaningful only when
/// `y_directional` holds.
pub open spec fn y_depth(a: Rect, b: Rect) -> int {
    if y_hits_bottom(a, b) {
        a.max_y - b.min_y
    } else {
        b.max_y - a.min_y
    }
}

/// The side the horizontal axis alone would report.
pub open spec fn x_side(a: Rect, b: Rect) -> Side {
    if x_hits_left(a, b) {
        Side::Left
    } else if x_hits_right(a, b) {
        Side::Right
    } else {
        Side::Inside
    }
}

/// The side the vertical axis alone would report.
pub open spec fn y_side(a: Rect, b: Rect) -> Side {
    if y_hits_bottom(a, b) {
        Side::Bottom
    } else if y_hits_top(a, b) {
        Side::Top
    } else {
        Side::Inside
    }
}

/// The side of `b` contacted by `a`, assuming `overlaps(a, b)`: the axis with
/// the smaller penetration depth decides; an axis without directional
/// information loses to one with it, and ties go to the horizontal axis.
pub open spec fn contact_side(a: Rect, b: Rect) -> Side {
    if y_directional(a, b) && (!x_directional(a, b) || y_depth(a, b) < x_depth(a, b)) {
        y_side(a, b)
    } else {
        x_side(a, b)
    }
}

/// Overlap test with side classification: returns the side of `b` that `a`
/// contacted, or no side when the rectangles do not overlap.
pub fn overlap(a: &Rect, b: &Rect) -> (r: Option<Side>)
    requires
        a.wf(),
        b.wf(),
    ensures
        r.is_some() <==> overlaps(*a, *b),
        r.is_some() ==> r == Some(contact_side(*a, *b)),
{
    if a.min_x < b.max_x && a.max_x > b.min_x && a.min_y < b.max_y && a.max_y > b.min_y {
        let x_left = a.min_x < b.min_x && a.max_x > b.min_x && a.max_x < b.max_x;
        let x_right = a.min_x > b.min_x && a.min_x < b.max_x && a.max_x > b.max_x;
        let y_bottom = a.min_y < b.min_y && a.max_y > b.min_y && a.max_y < b.max_y;
        let y_top = a.min_y > b.min_y && a.min_y < b.max_y && a.max_y > b.max_y;
        let side: Side = if y_bottom || y_top {
            let yd = if y_bottom {
                a.max_y - b.min_y
            } else {
                b.max_y - a.min_y
            };
            if x_left || x_right {
                let xd = if x_left {
                    a.max_x - b.min_x
                } else {
                    b.max_x - a.min_x
                };
                if yd < xd {
                    if y_bottom {
                        Side::Bottom
                    } else {
                        Side::Top
                    }
                } else {
                    if x_left {
                        Side::Left
                    } else {
                        Side::Right
                    }
                }
            } else {
                if y_bottom {
                    Side::Bottom
                } else {
                    Side::Top
                }
            }
        } else {
            if x_left {
                Side::Left
            } else if x_right {
                Side::Right
            } else {
                Side::Inside
            }
        };
        Some(side)
    } else {
        None
    }
}

/// Two rectangles fail to overlap exactly when they are separated by an axis:
/// one lies entirely at or beyond an edge of the other.
pub proof fn lemma_separated_iff_no_overlap(a: Rect, b: Rect)
    ensures
        !overlaps(a, b) <==> (a.max_x <= b.min_x || b.max_x <= a.min_x || a.max_y <= b.min_y
            || b.max_y <= a.min_y),
{
}

/// When both axes yield directional information, the reported side belongs to
/// the axis with the strictly smaller penetration depth, with ties going to
/// the horizontal axis.
pub proof fn lemma_side_of_lesser_penetration(a: Rect, b: Rect)
    requires
        overlaps(a, b),
        x_directional(a, b),
        y_directional(a, b),
    ensures
        y_depth(a, b) < x_depth(a, b) ==> contact_side(a, b) == y_side(a, b),
        x_depth(a, b) <= y_depth(a, b) ==> contact_side(a, b) == x_side(a, b),
{
}

} // verus!
