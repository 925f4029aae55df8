use vstd::prelude::*;
use vstd::std_specs::convert::FromSpec;

verus! {

/// Whether a mathematical integer can be held by an `i32`.
pub open spec fn fits_i32(v: int) -> bool {
    i32::MIN <= v <= i32::MAX
}

pub open spec fn min_int(a: int, b: int) -> int {
    if a < b {
        a
    } else {
        b
    }
}

pub open spec fn max_int(a: int, b: int) -> int {
    if a > b {
        a
    } else {
        b
    }
}

/// A two-dimensional vector.
#[derive(Debug, Clone, Copy, PartialEq, Eq, Hash, Default)]
pub struct Vec2<T> {
    pub x: T,
    pub y: T,
}

impl<T> Vec2<T> {
    /// Create a new vector.
    pub fn new(x: T, y: T) -> (r: Self)
        ensures
            r.x == x,
            r.y == y,
    {
        Vec2 { x, y }
    }

    /// Set all components of the vector to the same value.
    pub fn splat(v: T) -> (r: Self)
        where
            T: Copy,
        ensures
            r.x == v,
            r.y == v,
    {
        Vec2 { x: v, y: v }
    }

    /// Type conversion, component by component.
    pub fn cast<U: From<T>>(self) -> (r: Vec2<U>)
        ensures
            U::obeys_from_spec() ==> r.x == U::from_spec(self.x) && r.y == U::from_spec(self.y),
    {
        Vec2::new(U::from(self.x), U::from(self.y))
    }

    /// Swap x and y.
    pub fn yx(self) -> (r: Self)
        ensures
            r.x == self.y,
            r.y == self.x,
    {
        Vec2::new(self.y, self.x)
    }
}

impl Vec2<i32> {
    pub open spec fn dot_spec(self, other: Self) -> int {
        self.x * other.x + self.y * other.y
    }

    pub open spec fn cross_spec(self, other: Self) -> int {
        self.x * other.y - self.y * other.x
    }

    /// Vector dot product.
    pub fn dot(self, other: Self) -> (r: i32)
        requires
            fits_i32(self.x * other.x),
            fits_i32(self.y * other.y),
            fits_i32(self.dot_spec(other)),
        ensures
            r == self.dot_spec(other),
    {
        self.x * other.x + self.y * other.y
    }

    /// Cross product (the z component of the three-dimensional one).
    pub fn cross(self, other: Self) -> (r: i32)
        requires
            fits_i32(self.x * other.y),
            fits_i32(self.y * other.x),
            fits_i32(self.cross_spec(other)),
        ensures
            r == self.cross_spec(other),
    {
        self.x * other.y - self.y * other.x
    }

    /// The square of the vector length.
    pub fn square_length(self) -> (r: i32)
        requires
            fits_i32(self.x * self.x),
            fits_i32(self.y * self.y),
            fits_i32(self.dot_spec(self)),
        ensures
            r == self.dot_spec(self),
    {
        self.x * self.x + self.y * self.y
    }

    /// The vector with the absolute value of each component.
    pub fn abs(self) -> (r: Self)
        requires
            self.x != i32::MIN,
            self.y != i32::MIN,
        ensures
            r.x == (if self.x < 0 {
                -self.x
            } else {
                self.x as int
            }),
            r.y == (if self.y < 0 {
                -self.y
            } else {
                self.y as int
            }),
    {
        Vec2::new(
            if self.x < 0 {
                -self.x
            } else {
                self.x
            },
            if self.y < 0 {
                -self.y
            } else {
                self.y
            },
        )
    }

    /// Scale the vector by another vector, component by component.
    pub fn scale(self, other: Self) -> (r: Self)
        requires
            fits_i32(self.x * other.x),
            fits_i32(self.y * other.y),
        ensures
            r.x == self.x * other.x,
            r.y == self.y * other.y,
    {
        Vec2::new(self.x * other.x, self.y * other.y)
    }

    /// Translate the vector by another vector.
    pub fn translate(self, other: Self) -> (r: Self)
        requires
            fits_i32(self.x + other.x),
            fits_i32(self.y + other.y),
        ensures
            r.x == self.x + other.x,
            r.y == self.y + other.y,
    {
        Vec2::new(self.x + other.x, self.y + other.y)
    }
}

/// A width and a height.
#[derive(Debug, Clone, Copy, PartialEq, Eq, Hash, Default)]
pub struct Size<T> {
    pub width: T,
    pub height: T,
}

impl<T> Size<T> {
    /// Create a new size.
    pub fn new(width: T, height: T) -> (r: Self)
        ensures
            r.width == width,
            r.height == height,
    {
        Size { width, height }
    }

    /// Set both components of the size to the same value.
    pub fn splat(v: T) -> (r: Self)
        where
            T: Copy,
        ensures
            r.width == v,
            r.height == v,
    {
        Size { width: v, height: v }
    }

    /// Type conversion, component by component.
    pub fn cast<U: From<T>>(self) -> (r: Size<U>)
        ensures
            U::obeys_from_spec() ==> r.width == U::from_spec(self.width) && r.height
                == U::from_spec(self.height),
    {
        Size::new(U::from(self.width), U::from(self.height))
    }
}

impl Size<i32> {
    /// The area covered by the size.
    pub fn area(self) -> (r: i32)
        requires
            fits_i32(self.width * self.height),
        ensures
            r == self.width * self.height,
    {
        self.width * self.height
    }
}

/// An axis-aligned rectangle: its top-left corner and its size.
#[derive(Debug, Clone, Copy, PartialEq, Eq, Hash, Default)]
pub struct Rect<T> {
    pub x: T,
    pub y: T,
    pub width: T,
    pub height: T,
}

impl<T> Rect<T> {
    /// Create a new rectangle.
    pub fn new(x: T, y: T, width: T, height: T) -> (r: Self)
        ensures
            r.x == x,
            r.y == y,
            r.width == width,
            r.height == height,
    {
        Rect { x, y, width, height }
    }

    /// Create a new rectangle from a position and a size.
    pub fn from_pos_and_size(pos: Vec2<T>, size: Size<T>) -> (r: Self)
        ensures
            r.x == pos.x,
            r.y == pos.y,
            r.width == size.width,
            r.height == size.height,
    {
        Rect { x: pos.x, y: pos.y, width: size.width, height: size.height }
    }

    /// The top-left corner of the rectangle.
    pub fn pos(&self) -> (r: Vec2<T>)
        where
            T: Copy,
        ensures
            r.x == self.x,
            r.y == self.y,
    {
        Vec2::new(self.x, self.y)
    }

    /// The size of the rectangle.
    pub fn size(&self) -> (r: Size<T>)
        where
            T: Copy,
        ensures
            r.width == self.width,
            r.height == self.height,
    {
        Size::new(self.width, self.height)
    }

    /// Type conversion, component by component.
    pub fn cast<U: From<T>>(self) -> (r: Rect<U>)
        ensures
            U::obeys_from_spec() ==> {
                &&& r.x == U::from_spec(self.x)
                &&& r.y == U::from_spec(self.y)
                &&& r.width == U::from_spec(self.width)
                &&& r.height == U::from_spec(self.height)
            },
    {
        Rect::new(U::from(self.x), U::from(self.y), U::from(self.width), U::from(self.height))
    }
}

impl Rect<i32> {
    pub open spec fn right(self) -> int {
        self.x + self.width
    }

    pub open spec fn bottom(self) -> int {
        self.y + self.height
    }

    /// The overlap of two rectangles: from the larger
    /// of the two left edges to the smaller of the two right edges, and the same
    /// vertically; nothing where either extent is not positive.
    pub open spec fn intersection_spec(self, other: Self) -> Option<Rect<int>> {
        let x = max_int(self.x as int, other.x as int);
        let y = max_int(self.y as int, other.y as int);
        let w = min_int(self.right(), other.right()) - x;
        let h = min_int(self.bottom(), other.bottom()) - y;
        if w <= 0 || h <= 0 {
            None
        } else {
            Some(Rect { x, y, width: w, height: h })
        }
    }

    pub open spec fn as_int(self) -> Rect<int> {
        Rect { x: self.x as int, y: self.y as int, width: self.width as int, height: self.height as int }
    }

    /// The area of the rectangle.
    pub fn area(&self) -> (r: i32)
        requires
            fits_i32(self.width * self.height),
        ensures
            r == self.width * self.height,
    {
        self.width * self.height
    }

    /// The intersection of two rectangles, if it is not empty.
    pub fn intersection(&self, other: &Self) -> (r: Option<Self>)
        ensures
            match self.intersection_spec(*other) {
                None => r is None,
                Some(s) => r is Some && r->0.as_int() == s,
            },
    {
        let x: i32 = if self.x > other.x {
            self.x
        } else {
            other.x
        };
        let y: i32 = if self.y > other.y {
            self.y
        } else {
            other.y
        };
        let r1 = self.x as i64 + self.width as i64;
        let r2 = other.x as i64 + other.width as i64;
        let b1 = self.y as i64 + self.height as i64;
        let b2 = other.y as i64 + other.height as i64;
        let right = if r1 < r2 {
            r1
        } else {
            r2
        };
        let bottom = if b1 < b2 {
            b1
        } else {
            b2
        };
        let width = right - x as i64;
        let height = bottom - y as i64;
        if width <= 0 || height <= 0 {
            None
        } else {
            Some(Rect::new(x, y, width as i32, height as i32))
        }
    }

    /// Whether the two rectangles overlap in an area of positive size.
    pub fn intersects(&self, other: &Self) -> (r: bool)
        ensures
            r == (self.x < other.right() && self.right() > other.x && self.y < other.bottom()
                && self.bottom() > other.y),
    {
        let sx = self.x as i64;
        let sy = self.y as i64;
        let ox = other.x as i64;
        let oy = other.y as i64;
        sx < ox + other.width as i64 && sx + self.width as i64 > ox && sy < oy
            + other.height as i64 && sy + self.height as i64 > oy
    }

    /// Whether the rectangle covers all of another one.
    pub fn contains_rect(&self, other: &Self) -> (r: bool)
        ensures
            r == (self.x <= other.x && self.right() >= other.right() && self.y <= other.y
                && self.bottom() >= other.bottom()),
    {
        let sx = self.x as i64;
        let sy = self.y as i64;
        let ox = other.x as i64;
        let oy = other.y as i64;
        sx <= ox && sx + self.width as i64 >= ox + other.width as i64 && sy <= oy && sy
            + self.height as i64 >= oy + other.height as i64
    }
}

/// Distances from the four sides of a rectangle.
pub struct SideOffsets<T> {
    pub left: T,
    pub right: T,
    pub top: T,
    pub bottom: T,
}

impl<T> SideOffsets<T> {
    pub fn new(left: T, right: T, top: T, bottom: T) -> (r: Self)
        ensures
            r.left == left,
            r.right == right,
            r.top == top,
            r.bottom == bottom,
    {
        SideOffsets { left, right, top, bottom }
    }

    pub fn splat(v: T) -> (r: Self)
        where
            T: Copy,
        ensures
            r.left == v,
            r.right == v,
            r.top == v,
            r.bottom == v,
    {
        SideOffsets { left: v, right: v, top: v, bottom: v }
    }
}

} // verus!
