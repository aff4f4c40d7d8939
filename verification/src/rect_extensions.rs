//! Rectangle geometry: a single rectangle value type together with the
//! capability traits that expose its edges, dimensions and corners.
use vstd::prelude::*;

verus! {

/// An axis-aligned rectangle in virtual-desktop coordinates.
/// The `right` and `bottom` edges are exclusive.
#[derive(Clone, Copy, PartialEq, Eq, Structural, Debug)]
pub struct Rect {
    pub left: i32,
    pub top: i32,
    pub right: i32,
    pub bottom: i32,
}

pub trait HasLeft {
    spec fn spec_left(&self) -> int;

    fn left(&self) -> (r: i32)
        ensures
            r as int == self.spec_left(),
    ;
}

pub trait HasRight {
    spec fn spec_right(&self) -> int;

    fn right(&self) -> (r: i32)
        ensures
            r as int == self.spec_right(),
    ;
}

pub trait HasTop {
    spec fn spec_top(&self) -> int;

    fn top(&self) -> (r: i32)
        ensures
            r as int == self.spec_top(),
    ;
}

pub trait HasBottom {
    spec fn spec_bottom(&self) -> int;

    fn bottom(&self) -> (r: i32)
        ensures
            r as int == self.spec_bottom(),
    ;
}

impl HasLeft for Rect {
    open spec fn spec_left(&self) -> int {
        self.left as int
    }

    fn left(&self) -> i32 {
        self.left
    }
}

impl HasRight for Rect {
    open spec fn spec_right(&self) -> int {
        self.right as int
    }

    fn right(&self) -> i32 {
        self.right
    }
}

impl HasTop for Rect {
    open spec fn spec_top(&self) -> int {
        self.top as int
    }

    fn top(&self) -> i32 {
        self.top
    }
}

impl HasBottom for Rect {
    open spec fn spec_bottom(&self) -> int {
        self.bottom as int
    }

    fn bottom(&self) -> i32 {
        self.bottom
    }
}

pub trait HasWidth {
    spec fn spec_width(&self) -> int;

    spec fn width_fits(&self) -> bool;

    fn width(&self) -> (r: i32)
        requires
            self.width_fits(),
        ensures
            r as int == self.spec_width(),
    ;
}

pub trait HasHeight {
    spec fn spec_height(&self) -> int;

    spec fn height_fits(&self) -> bool;

    fn height(&self) -> (r: i32)
        requires
            self.height_fits(),
        ensures
            r as int == self.spec_height(),
    ;
}

impl<T: HasRight + HasLeft> HasWidth for T {
    open spec fn spec_width(&self) -> int {
        self.spec_right() - self.spec_left()
    }

    open spec fn width_fits(&self) -> bool {
        i32::MIN <= self.spec_right() - self.spec_left() <= i32::MAX
    }

    fn width(&self) -> i32 {
        self.right() - self.left()
    }
}

impl<T: HasBottom + HasTop> HasHeight for T {
    open spec fn spec_height(&self) -> int {
        self.spec_bottom() - self.spec_top()
    }

    open spec fn height_fits(&self) -> bool {
        i32::MIN <= self.spec_bottom() - self.spec_top() <= i32::MAX
    }

    fn height(&self) -> i32 {
        self.bottom() - self.top()
    }
}

pub trait HasTopLeft {
    spec fn spec_top_left(&self) -> (int, int);

    fn top_left(&self) -> (r: (i32, i32))
        ensures
            (r.0 as int, r.1 as int) == self.spec_top_left(),
    ;
}

pub trait HasTopRight {
    spec fn spec_top_right(&self) -> (int, int);

    fn top_right(&self) -> (r: (i32, i32))
        ensures
            (r.0 as int, r.1 as int) == self.spec_top_right(),
    ;
}

pub trait HasBottomLeft {
    spec fn spec_bottom_left(&self) -> (int, int);

    fn bottom_left(&self) -> (r: (i32, i32))
        ensures
            (r.0 as int, r.1 as int) == self.spec_bottom_left(),
    ;
}

pub trait HasBottomRight {
    spec fn spec_bottom_right(&self) -> (int, int);

    fn bottom_right(&self) -> (r: (i32, i32))
        ensures
            (r.0 as int, r.1 as int) == self.spec_bottom_right(),
    ;
}

impl<T: HasTop + HasLeft> HasTopLeft for T {
    open spec fn spec_top_left(&self) -> (int, int) {
        (self.spec_left(), self.spec_top())
    }

    fn top_left(&self) -> (i32, i32) {
        (self.left(), self.top())
    }
}

impl<T: HasTop + HasRight> HasTopRight for T {
    open spec fn spec_top_right(&self) -> (int, int) {
        (self.spec_right(), self.spec_top())
    }

    fn top_right(&self) -> (i32, i32) {
        (self.right(), self.top())
    }
}

impl<T: HasBottom + HasLeft> HasBottomLeft for T {
    open spec fn spec_bottom_left(&self) -> (int, int) {
        (self.spec_left(), self.spec_bottom())
    }

    fn bottom_left(&self) -> (i32, i32) {
        (self.left(), self.bottom())
    }
}

impl<T: HasBottom + HasRight> HasBottomRight for T {
    open spec fn spec_bottom_right(&self) -> (int, int) {
        (self.spec_right(), self.spec_bottom())
    }

    fn bottom_right(&self) -> (i32, i32) {
        (self.right(), self.bottom())
    }
}

pub trait FromCorners: Sized {
    spec fn spec_from_corners(p0: (int, int), p1: (int, int)) -> Self;

    fn from_corners(p0: (i32, i32), p1: (i32, i32)) -> (r: Self)
        ensures
            r == Self::spec_from_corners(
                (p0.0 as int, p0.1 as int),
                (p1.0 as int, p1.1 as int),
            ),
    ;
}

impl FromCorners for Rect {
    /// The smallest rectangle whose corners are the two given points:
    /// the lesser coordinates become `left`/`top`, the greater `right`/`bottom`.
    open spec fn spec_from_corners(p0: (int, int), p1: (int, int)) -> Rect {
        Rect {
            left: (if p0.0 <= p1.0 { p0.0 } else { p1.0 }) as i32,
            top: (if p0.1 <= p1.1 { p0.1 } else { p1.1 }) as i32,
            right: (if p1.0 >= p0.0 { p1.0 } else { p0.0 }) as i32,
            bottom: (if p1.1 >= p0.1 { p1.1 } else { p0.1 }) as i32,
        }
    }

    fn from_corners(p0: (i32, i32), p1: (i32, i32)) -> Rect {
        Rect {
            left: if p0.0 <= p1.0 { p0.0 } else { p1.0 },
            top: if p0.1 <= p1.1 { p0.1 } else { p1.1 },
            right: if p1.0 >= p0.0 { p1.0 } else { p0.0 },
            bottom: if p1.1 >= p0.1 { p1.1 } else { p0.1 },
        }
    }
}

pub trait Translatable: Sized {
    spec fn spec_translate(&self, dx: int, dy: int) -> Self;

    spec fn translate_fits(&self, dx: int, dy: int) -> bool;

    fn translate(&self, dx: i32, dy: i32) -> (r: Self)
        requires
            self.translate_fits(dx as int, dy as int),
        ensures
            r == self.spec_translate(dx as int, dy as int),
    ;
}

impl Translatable for Rect {
    open spec fn spec_translate(&self, dx: int, dy: int) -> Rect {
        Rect {
            left: (self.left + dx) as i32,
            top: (self.top + dy) as i32,
            right: (self.right + dx) as i32,
            bottom: (self.bottom + dy) as i32,
        }
    }

    open spec fn translate_fits(&self, dx: int, dy: int) -> bool {
        &&& i32::MIN <= self.left + dx <= i32::MAX
        &&& i32::MIN <= self.top + dy <= i32::MAX
        &&& i32::MIN <= self.right + dx <= i32::MAX
        &&& i32::MIN <= self.bottom + dy <= i32::MAX
    }

    fn translate(&self, dx: i32, dy: i32) -> Rect {
        Rect {
            left: self.left + dx,
            top: self.top + dy,
            right: self.right + dx,
            bottom: self.bottom + dy,
        }
    }
}

impl Translatable for (i32, i32) {
    open spec fn spec_translate(&self, dx: int, dy: int) -> (i32, i32) {
        ((self.0 + dx) as i32, (self.1 + dy) as i32)
    }

    open spec fn translate_fits(&self, dx: int, dy: int) -> bool {
        &&& i32::MIN <= self.0 + dx <= i32::MAX
        &&& i32::MIN <= self.1 + dy <= i32::MAX
    }

    fn translate(&self, dx: i32, dy: i32) -> (i32, i32) {
        (self.0 + dx, self.1 + dy)
    }
}

} // verus!
