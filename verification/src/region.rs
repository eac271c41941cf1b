//! Integer rectangles in device pixels.

use vstd::prelude::*;

verus! {

/// An integer rectangle in device pixels, held by its edges: it covers the
/// columns from `x0` up to, not including, `x1`, and the rows from `y0` up to,
/// not including, `y1`. With `x1 <= x0` or `y1 <= y0` it covers nothing.
#[derive(Clone, Copy, Debug, PartialEq, Eq, Structural)]
pub struct Region {
    pub x0: i32,
    pub y0: i32,
    pub x1: i32,
    pub y1: i32,
}

impl Region {
    /// Whether the pixel in column `x` and row `y` lies in the region.
    pub open spec fn contains(self, x: int, y: int) -> bool {
        self.x0 <= x < self.x1 && self.y0 <= y < self.y1
    }

    /// Whether the region covers no pixel.
    pub open spec fn spec_is_empty(self) -> bool {
        self.x1 <= self.x0 || self.y1 <= self.y0
    }

    /// The number of columns that the region covers, as an integer.
    pub open spec fn spec_width(self) -> int {
        if self.x1 > self.x0 {
            self.x1 - self.x0
        } else {
            0
        }
    }

    /// The number of rows that the region covers, as an integer.
    pub open spec fn spec_height(self) -> int {
        if self.y1 > self.y0 {
            self.y1 - self.y0
        } else {
            0
        }
    }

    /// The region between the given edges.
    pub fn new(x0: i32, y0: i32, x1: i32, y1: i32) -> (r: Region)
        ensures
            r == (Region { x0, y0, x1, y1 }),
    {
        Region { x0, y0, x1, y1 }
    }

    /// The region with its corner at (`x`, `y`) and the given size, or `None`
    /// where its far edges are beyond the largest coordinate.
    pub fn from_size(x: i32, y: i32, width: u32, height: u32) -> (r: Option<Region>)
        ensures
            r is Some <==> x + width <= i32::MAX && y + height <= i32::MAX,
            r matches Some(region) ==> region.x0 == x && region.y0 == y && region.x1 == x + width
                && region.y1 == y + height,
    {
        let x1: i64 = x as i64 + width as i64;
        let y1: i64 = y as i64 + height as i64;
        if x1 <= i32::MAX as i64 && y1 <= i32::MAX as i64 {
            Some(Region { x0: x, y0: y, x1: x1 as i32, y1: y1 as i32 })
        } else {
            None
        }
    }

    /// The column of the left edge.
    pub fn x(self) -> (x: i32)
        ensures
            x == self.x0,
    {
        self.x0
    }

    /// The row of the top edge.
    pub fn y(self) -> (y: i32)
        ensures
            y == self.y0,
    {
        self.y0
    }

    /// The number of columns that the region covers.
    pub fn width(self) -> (w: u32)
        ensures
            w == self.spec_width(),
    {
        if self.x1 > self.x0 {
            (self.x1 as i64 - self.x0 as i64) as u32
        } else {
            0
        }
    }

    /// The number of rows that the region covers.
    pub fn height(self) -> (h: u32)
        ensures
            h == self.spec_height(),
    {
        if self.y1 > self.y0 {
            (self.y1 as i64 - self.y0 as i64) as u32
        } else {
            0
        }
    }

    #[verifier::when_used_as_spec(spec_is_empty)]
    pub fn is_empty(self) -> (empty: bool)
        ensures
            empty == self.spec_is_empty(),
            empty <==> forall|x: int, y: int| !self.contains(x, y),
    {
        proof {
            if !self.spec_is_empty() {
                assert(self.contains(self.x0 as int, self.y0 as int));
            }
        }
        self.x1 <= self.x0 || self.y1 <= self.y0
    }

    /// The smallest rectangle between the outermost edges of the two.
    pub open spec fn spec_union(self, other: Region) -> Region {
        Region {
            x0: if self.x0 <= other.x0 { self.x0 } else { other.x0 },
            y0: if self.y0 <= other.y0 { self.y0 } else { other.y0 },
            x1: if self.x1 >= other.x1 { self.x1 } else { other.x1 },
            y1: if self.y1 >= other.y1 { self.y1 } else { other.y1 },
        }
    }

    /// The rectangle between the innermost edges of the two.
    pub open spec fn spec_intersection(self, other: Region) -> Region {
        Region {
            x0: if self.x0 >= other.x0 { self.x0 } else { other.x0 },
            y0: if self.y0 >= other.y0 { self.y0 } else { other.y0 },
            x1: if self.x1 <= other.x1 { self.x1 } else { other.x1 },
            y1: if self.y1 <= other.y1 { self.y1 } else { other.y1 },
        }
    }

    /// The bounding rectangle of the two regions: it reaches from the lesser
    /// of the near edges to the greater of the far edges, and so covers every
    /// pixel of either.
    #[verifier::when_used_as_spec(spec_union)]
    pub fn union(self, other: Region) -> (u: Region)
        ensures
            u == self.spec_union(other),
            forall|x: int, y: int|
                self.contains(x, y) || other.contains(x, y) ==> #[trigger] u.contains(x, y),
    {
        Region {
            x0: if self.x0 <= other.x0 { self.x0 } else { other.x0 },
            y0: if self.y0 <= other.y0 { self.y0 } else { other.y0 },
            x1: if self.x1 >= other.x1 { self.x1 } else { other.x1 },
            y1: if self.y1 >= other.y1 { self.y1 } else { other.y1 },
        }
    }

    /// The part that the two regions have in common: it covers exactly the
    /// pixels that lie in both.
    #[verifier::when_used_as_spec(spec_intersection)]
    pub fn intersection(self, other: Region) -> (i: Region)
        ensures
            i == self.spec_intersection(other),
            forall|x: int, y: int|
                #[trigger] i.contains(x, y) <==> self.contains(x, y) && other.contains(x, y),
    {
        Region {
            x0: if self.x0 >= other.x0 { self.x0 } else { other.x0 },
            y0: if self.y0 >= other.y0 { self.y0 } else { other.y0 },
            x1: if self.x1 <= other.x1 { self.x1 } else { other.x1 },
            y1: if self.y1 <= other.y1 { self.y1 } else { other.y1 },
        }
    }
}

} // verus!
