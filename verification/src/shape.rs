//! Shapes.

use vstd::prelude::*;
use crate::dimen::Vector2;

verus! {

/// A rectangle with sides parallel to the axes, given by its top left and
/// bottom right corners. The y axis points down.
#[derive(Clone, Copy, Debug, PartialEq, Eq)]
pub struct Rectangle<T> {
    pub top_left: Vector2<T>,
    pub bottom_right: Vector2<T>,
}

/// A rectangle in whole pixels.
pub type Rect = Rectangle<i32>;

impl<T: Copy> Rectangle<T> {
    pub open spec fn spec_top_left(&self) -> Vector2<T> {
        self.top_left
    }

    pub open spec fn spec_bottom_right(&self) -> Vector2<T> {
        self.bottom_right
    }

    /// The corner that shares its row with the top left and its column with
    /// the bottom right corner.
    pub open spec fn spec_top_right(&self) -> Vector2<T> {
        Vector2 { x: self.spec_bottom_right().x, y: self.spec_top_left().y }
    }

    /// The corner that shares its column with the top left and its row with
    /// the bottom right corner.
    pub open spec fn spec_bottom_left(&self) -> Vector2<T> {
        Vector2 { x: self.spec_top_left().x, y: self.spec_bottom_right().y }
    }

    /// The four corners, clockwise from the top left.
    pub open spec fn spec_corners(&self) -> [Vector2<T>; 4] {
        [
            self.spec_top_left(),
            self.spec_top_right(),
            self.spec_bottom_right(),
            self.spec_bottom_left(),
        ]
    }

    /// The rectangle between the two corners.
    pub fn new(top_left: Vector2<T>, bottom_right: Vector2<T>) -> (r: Self)
        ensures
            r.spec_top_left() == top_left,
            r.spec_bottom_right() == bottom_right,
    {
        Rectangle { top_left, bottom_right }
    }

    /// The rectangle from `(left, top)` to `(right, bottom)`.
    pub fn from_tuples(top_left: (T, T), bottom_right: (T, T)) -> (r: Self)
        ensures
            r.spec_top_left() == (Vector2 { x: top_left.0, y: top_left.1 }),
            r.spec_bottom_right() == (Vector2 { x: bottom_right.0, y: bottom_right.1 }),
    {
        Rectangle {
            top_left: Vector2 { x: top_left.0, y: top_left.1 },
            bottom_right: Vector2 { x: bottom_right.0, y: bottom_right.1 },
        }
    }

    pub fn top_left(&self) -> (v: Vector2<T>)
        ensures
            v == self.spec_top_left(),
    {
        self.top_left
    }

    pub fn bottom_right(&self) -> (v: Vector2<T>)
        ensures
            v == self.spec_bottom_right(),
    {
        self.bottom_right
    }

    pub fn top_right(&self) -> (v: Vector2<T>)
        ensures
            v == self.spec_top_right(),
    {
        Vector2 { x: self.bottom_right.x, y: self.top_left.y }
    }

    pub fn bottom_left(&self) -> (v: Vector2<T>)
        ensures
            v == self.spec_bottom_left(),
    {
        Vector2 { x: self.top_left.x, y: self.bottom_right.y }
    }

    /// The x coordinate of the left side.
    pub fn left(&self) -> (v: T)
        ensures
            v == self.spec_top_left().x,
    {
        self.top_left.x
    }

    /// The y coordinate of the top side.
    pub fn top(&self) -> (v: T)
        ensures
            v == self.spec_top_left().y,
    {
        self.top_left.y
    }

    /// The x coordinate of the right side.
    pub fn right(&self) -> (v: T)
        ensures
            v == self.spec_bottom_right().x,
    {
        self.bottom_right.x
    }

    /// The y coordinate of the bottom side.
    pub fn bottom(&self) -> (v: T)
        ensures
            v == self.spec_bottom_right().y,
    {
        self.bottom_right.y
    }

    /// The four corners, clockwise from the top left.
    pub fn corners(&self) -> (c: [Vector2<T>; 4])
        ensures
            c == self.spec_corners(),
    {
        [self.top_left(), self.top_right(), self.bottom_right(), self.bottom_left()]
    }
}

/// A filled polygon, cut into triangles whose corners go clockwise.
#[derive(Clone, Debug)]
pub struct Polygon<T> {
    triangles: Vec<[Vector2<T>; 3]>,
}

impl<T> View for Polygon<T> {
    type V = Seq<[Vector2<T>; 3]>;

    closed spec fn view(&self) -> Seq<[Vector2<T>; 3]> {
        self.triangles@
    }
}

impl<T: Copy> Polygon<T> {
    /// The polygon that the triangles make up.
    pub fn new(triangles: Vec<[Vector2<T>; 3]>) -> (polygon: Self)
        ensures
            polygon@ == triangles@,
    {
        Polygon { triangles }
    }

    /// How many triangles the polygon is cut into.
    pub fn len(&self) -> (n: usize)
        ensures
            n == self@.len(),
    {
        self.triangles.len()
    }

    /// The triangle at `index`.
    pub fn triangle(&self, index: usize) -> (t: Option<[Vector2<T>; 3]>)
        ensures
            t.is_some() <==> index < self@.len(),
            t matches Some(corners) ==> corners == self@[index as int],
    {
        if index < self.triangles.len() {
            Some(self.triangles[index])
        } else {
            None
        }
    }
}

/// Whether two pixel rectangles have the same corners.
pub fn same_rect(a: &Rect, b: &Rect) -> (same: bool)
    ensures
        same == (*a == *b),
{
    a.top_left.x == b.top_left.x && a.top_left.y == b.top_left.y && a.bottom_right.x
        == b.bottom_right.x && a.bottom_right.y == b.bottom_right.y
}

/// The larger of two numbers.
pub open spec fn max_of(a: int, b: int) -> int {
    if a >= b {
        a
    } else {
        b
    }
}

/// The smaller of two numbers.
pub open spec fn min_of(a: int, b: int) -> int {
    if a <= b {
        a
    } else {
        b
    }
}

/// What two pixel rectangles have in common: the rectangle from the larger
/// of the left and top sides to the smaller of the right and bottom sides.
/// Where the two do not meet, its right side is left of its left side or its
/// bottom above its top, and it holds no pixel.
pub open spec fn spec_intersection(a: Rect, b: Rect) -> Rect {
    Rectangle {
        top_left: Vector2 {
            x: max_of(a.top_left.x as int, b.top_left.x as int) as i32,
            y: max_of(a.top_left.y as int, b.top_left.y as int) as i32,
        },
        bottom_right: Vector2 {
            x: min_of(a.bottom_right.x as int, b.bottom_right.x as int) as i32,
            y: min_of(a.bottom_right.y as int, b.bottom_right.y as int) as i32,
        },
    }
}

/// What two pixel rectangles have in common.
pub fn intersection(a: &Rect, b: &Rect) -> (r: Rect)
    ensures
        r == spec_intersection(*a, *b),
{
    Rectangle {
        top_left: Vector2 {
            x: if a.top_left.x >= b.top_left.x {
                a.top_left.x
            } else {
                b.top_left.x
            },
            y: if a.top_left.y >= b.top_left.y {
                a.top_left.y
            } else {
                b.top_left.y
            },
        },
        bottom_right: Vector2 {
            x: if a.bottom_right.x <= b.bottom_right.x {
                a.bottom_right.x
            } else {
                b.bottom_right.x
            },
            y: if a.bottom_right.y <= b.bottom_right.y {
                a.bottom_right.y
            } else {
                b.bottom_right.y
            },
        },
    }
}

/// The clip under which something confined to `window` is drawn while `clip`
/// is active: what the two have in common, or the window alone where no clip
/// is active.
pub open spec fn spec_narrowed(clip: Option<Rect>, window: Rect) -> Rect {
    match clip {
        Some(c) => spec_intersection(c, window),
        None => window,
    }
}

/// The clip under which something confined to `window` is drawn while `clip`
/// is active.
pub fn narrowed(clip: &Option<Rect>, window: &Rect) -> (r: Rect)
    ensures
        r == spec_narrowed(*clip, *window),
{
    match clip {
        Some(c) => intersection(c, window),
        None => *window,
    }
}

} // verus!
