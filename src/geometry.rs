use vstd::prelude::*;

verus! {

/// Largest sprite or screen dimension the library handles.
pub const DIM_MAX: i64 = 1048576;

/// Bound on every coordinate held by a well-formed game.
pub const COORD_MAX: i64 = 16777216;

/// A point in screen coordinates: x grows to the right, y grows downward.
#[derive(Clone, Copy, Debug, PartialEq, Eq, Structural)]
pub struct Pos {
    pub x: i64,
    pub y: i64,
}

/// An axis-aligned rectangle given by its top-left corner and its size.
#[derive(Clone, Copy, Debug, PartialEq, Eq, Structural)]
pub struct Rect {
    pub x: i64,
    pub y: i64,
    pub w: i64,
    pub h: i64,
}

impl Pos {
    pub fn new(x: i64, y: i64) -> (r: Pos)
        ensures
            r == (Pos { x, y }),
    {
        Pos { x, y }
    }
}

impl Rect {
    pub fn new(x: i64, y: i64, w: i64, h: i64) -> (r: Rect)
        ensures
            r == (Rect { x, y, w, h }),
    {
        Rect { x, y, w, h }
    }

    /// Closed overlap: the rectangles share at least one point on each axis,
    /// edges included.
    pub open spec fn spec_overlaps(self, o: Rect) -> bool {
        &&& self.x <= o.x + o.w
        &&& self.x + self.w >= o.x
        &&& self.y <= o.y + o.h
        &&& self.y + self.h >= o.y
    }

    pub fn overlaps(&self, o: &Rect) -> (r: bool)
        ensures
            r == self.spec_overlaps(*o),
    {
        let ax = self.x as i128;
        let ay = self.y as i128;
        let bx = o.x as i128;
        let by = o.y as i128;
        ax <= bx + o.w as i128 && ax + self.w as i128 >= bx && ay <= by + o.h as i128
            && ay + self.h as i128 >= by
    }
}

/// The rectangle a sprite of size `w` by `h` covers when drawn at `p`.
pub open spec fn spec_dest_rec(p: Pos, w: i64, h: i64) -> Rect {
    Rect { x: p.x, y: p.y, w, h }
}

pub fn dest_rec(p: &Pos, w: i64, h: i64) -> (r: Rect)
    ensures
        r == spec_dest_rec(*p, w, h),
{
    Rect { x: p.x, y: p.y, w, h }
}

} // verus!

verus! {

/// The screen's size and the scaled size of each sprite the rules look at.
#[derive(Clone, Copy, Debug, PartialEq, Eq, Structural)]
pub struct Layout {
    pub screen_w: i64,
    pub screen_h: i64,
    /// The player's laser.
    pub laser_w: i64,
    pub laser_h: i64,
    /// The enemies' laser.
    pub enemy_laser_w: i64,
    pub enemy_laser_h: i64,
    /// An enemy ship.
    pub enemy_w: i64,
    pub enemy_h: i64,
}

impl Layout {
    /// Every size within limits, and a screen wide enough to keep a margin
    /// of 50 on each side of a freshly placed enemy.
    pub open spec fn wf(self) -> bool {
        &&& 100 <= self.screen_w <= DIM_MAX
        &&& 0 <= self.screen_h <= DIM_MAX
        &&& 0 <= self.laser_w <= DIM_MAX
        &&& 0 <= self.laser_h <= DIM_MAX
        &&& 0 <= self.enemy_laser_w <= DIM_MAX
        &&& 0 <= self.enemy_laser_h <= DIM_MAX
        &&& 0 <= self.enemy_w <= DIM_MAX
        &&& 0 <= self.enemy_h <= DIM_MAX
    }
}

} // verus!
