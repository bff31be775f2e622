use vstd::prelude::*;

verus! {

/// A pixel position on the screen or in a frame.
#[derive(Clone, Copy, Debug, PartialEq, Eq, Structural)]
pub struct Point {
    pub x: u32,
    pub y: u32,
}

/// An axis-aligned rectangle covering the pixels `min.x <= x < max.x`,
/// `min.y <= y < max.y`.
#[derive(Clone, Copy, Debug, PartialEq, Eq, Structural)]
pub struct Rect {
    pub min: Point,
    pub max: Point,
}

pub open spec fn min_int(a: int, b: int) -> int {
    if a <= b { a } else { b }
}

pub open spec fn max_int(a: int, b: int) -> int {
    if a <= b { b } else { a }
}

/// The rectangle spanned by two corners, ordered so that `min <= max` on both axes.
pub open spec fn normalized(a: Point, b: Point) -> Rect {
    Rect {
        min: Point { x: min_int(a.x as int, b.x as int) as u32, y: min_int(a.y as int, b.y as int) as u32 },
        max: Point { x: max_int(a.x as int, b.x as int) as u32, y: max_int(a.y as int, b.y as int) as u32 },
    }
}

impl Point {
    pub fn new(x: u32, y: u32) -> (r: Point)
        ensures
            r.x == x,
            r.y == y,
    {
        Point { x, y }
    }
}

impl Rect {
    /// The corners are ordered on both axes.
    pub open spec fn is_ordered(self) -> bool {
        self.min.x <= self.max.x && self.min.y <= self.max.y
    }

    /// The pixel `(x, y)` lies in the rectangle.
    pub open spec fn contains(self, x: int, y: int) -> bool {
        self.min.x <= x < self.max.x && self.min.y <= y < self.max.y
    }

    /// `inner` lies within `self`.
    pub open spec fn encloses(self, inner: Rect) -> bool {
        self.min.x <= inner.min.x && inner.max.x <= self.max.x && self.min.y <= inner.min.y
            && inner.max.y <= self.max.y
    }

    pub open spec fn width_spec(self) -> int {
        self.max.x - self.min.x
    }

    pub open spec fn height_spec(self) -> int {
        self.max.y - self.min.y
    }

    /// The rectangle spanned by two corners given in any order.
    pub fn from_two_pos(a: Point, b: Point) -> (r: Rect)
        ensures
            r == normalized(a, b),
            r.is_ordered(),
    {
        let min = Point { x: min_u32(a.x, b.x), y: min_u32(a.y, b.y) };
        let max = Point { x: max_u32(a.x, b.x), y: max_u32(a.y, b.y) };
        Rect { min, max }
    }

    /// The left-top corner.
    pub fn left_top(&self) -> (r: Point)
        ensures
            r == self.min,
    {
        self.min
    }

    /// The width; zero for a rectangle whose corners are not ordered.
    pub fn width(&self) -> (r: u32)
        ensures
            r == if self.min.x <= self.max.x { self.width_spec() } else { 0 },
    {
        if self.min.x <= self.max.x {
            self.max.x - self.min.x
        } else {
            0
        }
    }

    /// The height; zero for a rectangle whose corners are not ordered.
    pub fn height(&self) -> (r: u32)
        ensures
            r == if self.min.y <= self.max.y { self.height_spec() } else { 0 },
    {
        if self.min.y <= self.max.y {
            self.max.y - self.min.y
        } else {
            0
        }
    }
}

/// The smaller of two coordinates.
pub fn min_u32(a: u32, b: u32) -> (r: u32)
    ensures
        r == min_int(a as int, b as int),
{
    if a <= b {
        a
    } else {
        b
    }
}

/// The larger of two coordinates.
pub fn max_u32(a: u32, b: u32) -> (r: u32)
    ensures
        r == max_int(a as int, b as int),
{
    if a <= b {
        b
    } else {
        a
    }
}

/// The four dimming tiles around the selection `sel` on `screen`, in painting
/// order: the left column, the top row, the bottom-left block and the
/// bottom-right block.
pub open spec fn shadow_tiles(screen: Rect, sel: Rect) -> Seq<Rect> {
    seq![
        normalized(screen.min, Point { x: sel.min.x, y: sel.max.y }),
        normalized(Point { x: sel.min.x, y: screen.min.y }, Point { x: screen.max.x, y: sel.min.y }),
        normalized(Point { x: screen.min.x, y: sel.max.y }, Point { x: sel.max.x, y: screen.max.y }),
        normalized(Point { x: sel.max.x, y: sel.min.y }, screen.max),
    ]
}

/// Computes the four dimming tiles that cover `screen` outside the selection `sel`.
pub fn shadow_rects(screen: Rect, sel: Rect) -> (r: Vec<Rect>)
    ensures
        r@ == shadow_tiles(screen, sel),
{
    let mut r: Vec<Rect> = Vec::new();
    r.push(Rect::from_two_pos(screen.min, Point { x: sel.min.x, y: sel.max.y }));
    r.push(
        Rect::from_two_pos(
            Point { x: sel.min.x, y: screen.min.y },
            Point { x: screen.max.x, y: sel.min.y },
        ),
    );
    r.push(
        Rect::from_two_pos(
            Point { x: screen.min.x, y: sel.max.y },
            Point { x: sel.max.x, y: screen.max.y },
        ),
    );
    r.push(Rect::from_two_pos(Point { x: sel.max.x, y: sel.min.y }, screen.max));
    assert(r@ =~= shadow_tiles(screen, sel));
    r
}

/// For an ordered selection inside the screen, the four shadow tiles and the
/// selection tile the screen: every pixel of the screen lies in exactly one of
/// them, and no two of them share a pixel.
pub proof fn lemma_shadow_partition(screen: Rect, sel: Rect, x: int, y: int)
    requires
        sel.is_ordered(),
        screen.encloses(sel),
    ensures
        screen.contains(x, y) ==> (sel.contains(x, y) || exists|i: int|
            0 <= i < 4 && #[trigger] shadow_tiles(screen, sel)[i].contains(x, y)),
        forall|i: int|
            0 <= i < 4 && #[trigger] shadow_tiles(screen, sel)[i].contains(x, y) ==> screen.contains(x, y)
                && !sel.contains(x, y),
        forall|i: int, j: int|
            0 <= i < 4 && 0 <= j < 4 && i != j && #[trigger] shadow_tiles(screen, sel)[i].contains(x, y)
                ==> !#[trigger] shadow_tiles(screen, sel)[j].contains(x, y),
{
    let t = shadow_tiles(screen, sel);
    if screen.contains(x, y) && !sel.contains(x, y) {
        if x < sel.min.x && y < sel.max.y {
            assert(t[0].contains(x, y));
        } else if x < sel.min.x {
            assert(t[2].contains(x, y));
        } else if y < sel.min.y {
            assert(t[1].contains(x, y));
        } else if x >= sel.max.x {
            assert(t[3].contains(x, y));
        } else {
            assert(t[2].contains(x, y));
        }
    }
}

} // verus!
