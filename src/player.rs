use vstd::prelude::*;
use crate::geometry::{Rect, spec_dest_rec, Pos, DIM_MAX, COORD_MAX};

verus! {

/// Which movement keys are held down during a frame.
#[derive(Clone, Copy, Debug, PartialEq, Eq, Structural)]
pub struct Movement {
    pub up: bool,
    pub down: bool,
    pub left: bool,
    pub right: bool,
}

/// The player's ship: its position, the lives it has left and the size of
/// its sprite once scaled.
#[derive(Clone, Copy, Debug, PartialEq, Eq, Structural)]
pub struct Player {
    pub x: i64,
    pub y: i64,
    pub lives_left: i8,
    pub width: i64,
    pub height: i64,
}

/// `v` limited to `[lo, hi]`; when `hi < lo`, values above `hi` give `hi`
/// unless they are below `lo`.
pub open spec fn spec_clamp(v: int, lo: int, hi: int) -> int {
    if v < lo {
        lo
    } else if v > hi {
        hi
    } else {
        v
    }
}

pub fn clamp(v: i64, lo: i64, hi: i64) -> (r: i64)
    ensures
        r == spec_clamp(v as int, lo as int, hi as int),
{
    if v < lo {
        lo
    } else if v > hi {
        hi
    } else {
        v
    }
}

/// Displacement along one axis: `+speed` when `plus` is held, `-speed` when
/// `minus` is held, both when both are.
pub open spec fn axis_delta(plus: bool, minus: bool, speed: int) -> int {
    (if plus { speed } else { 0int }) - (if minus { speed } else { 0int })
}

impl Player {
    /// Sprite size within limits, position within the coordinate bound and
    /// no negative life count.
    pub open spec fn wf(self) -> bool {
        &&& 0 <= self.width <= DIM_MAX
        &&& 0 <= self.height <= DIM_MAX
        &&& -COORD_MAX <= self.x <= COORD_MAX
        &&& -COORD_MAX <= self.y <= COORD_MAX
        &&& self.lives_left >= 0
    }

    pub open spec fn spec_dest_rect(self) -> Rect {
        spec_dest_rec(Pos { x: self.x, y: self.y }, self.width, self.height)
    }

    /// The player after `update`: moved by `speed` along each axis whose key
    /// is held, then clamped to the screen.
    pub open spec fn spec_update(self, speed: int, keys: Movement, screen_w: int, screen_h: int) -> Player {
        Player {
            x: spec_clamp(self.x + axis_delta(keys.right, keys.left, speed), 0, screen_w - self.width) as i64,
            y: spec_clamp(self.y + axis_delta(keys.down, keys.up, speed), 0, screen_h - self.height) as i64,
            ..self
        }
    }

    /// A player at `(x, y)` whose scaled sprite is `width` by `height`.
    pub fn new(x: i64, y: i64, lives_left: i8, width: i64, height: i64) -> (r: Player)
        ensures
            r.x == x,
            r.y == y,
            r.lives_left == lives_left,
            r.width == width,
            r.height == height,
    {
        Player { x, y, lives_left, width, height }
    }

    pub fn width(&self) -> (r: i64)
        ensures
            r == self.width,
    {
        self.width
    }

    pub fn height(&self) -> (r: i64)
        ensures
            r == self.height,
    {
        self.height
    }

    pub fn dest_rect(&self) -> (r: Rect)
        ensures
            r == self.spec_dest_rect(),
    {
        Rect { x: self.x, y: self.y, w: self.width, h: self.height }
    }

    /// Moves by `speed` along each axis whose key is held, then keeps the
    /// sprite inside a screen of `screen_w` by `screen_h`.
    pub fn update(&mut self, speed: i64, keys: Movement, screen_w: i64, screen_h: i64)
        requires
            old(self).wf(),
            0 <= speed <= DIM_MAX,
            0 <= screen_w <= DIM_MAX,
            0 <= screen_h <= DIM_MAX,
        ensures
            final(self).wf(),
            *final(self) == old(self).spec_update(speed as int, keys, screen_w as int, screen_h as int),
            final(self).x == spec_clamp(
                old(self).x + axis_delta(keys.right, keys.left, speed as int),
                0,
                screen_w - old(self).width,
            ),
            final(self).y == spec_clamp(
                old(self).y + axis_delta(keys.down, keys.up, speed as int),
                0,
                screen_h - old(self).height,
            ),
            screen_w >= old(self).width ==> 0 <= final(self).x <= screen_w - old(self).width,
            screen_h >= old(self).height ==> 0 <= final(self).y <= screen_h - old(self).height,
            -DIM_MAX <= final(self).x <= DIM_MAX,
            -DIM_MAX <= final(self).y <= DIM_MAX,
            final(self).lives_left == old(self).lives_left,
            final(self).width == old(self).width,
            final(self).height == old(self).height,
    {
        let mut x = self.x;
        let mut y = self.y;
        if keys.right {
            x = x + speed;
        }
        if keys.left {
            x = x - speed;
        }
        if keys.up {
            y = y - speed;
        }
        if keys.down {
            y = y + speed;
        }
        self.x = clamp(x, 0, screen_w - self.width);
        self.y = clamp(y, 0, screen_h - self.height);
    }
}

} // verus!
