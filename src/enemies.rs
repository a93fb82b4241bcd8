use vstd::prelude::*;
use crate::geometry::{spec_dest_rec, Layout, Pos, Rect, COORD_MAX, DIM_MAX};
use crate::shots::enemy_shots_wf;
use crate::random::random_between;

verus! {

/// Number of enemies on the field at all times.
pub const ENEMY_COUNT: usize = 10;

/// Distance kept between a freshly placed enemy and either side of the screen.
pub const SPAWN_MARGIN: i64 = 50;

/// Least and greatest distance an enemy is sent back up when it respawns.
pub const RESPAWN_MIN: i64 = 800;
pub const RESPAWN_MAX: i64 = 1000;

/// How far an enemy descends each frame.
pub const ENEMY_SPEED: i64 = 1;

/// An enemy fires whenever its y is a positive multiple of this.
pub const FIRE_PERIOD: i64 = 100;

/// A fresh horizontal position and how far to send an enemy back up.
#[derive(Clone, Copy, Debug, PartialEq, Eq, Structural)]
pub struct Respawn {
    pub x: i64,
    pub drop: i64,
}

/// A respawn that the rules allow on a screen `screen_w` wide.
pub open spec fn valid_respawn(r: Respawn, screen_w: int) -> bool {
    &&& SPAWN_MARGIN <= r.x <= screen_w - SPAWN_MARGIN
    &&& RESPAWN_MIN <= r.drop <= RESPAWN_MAX
}

/// `e` moved to the respawn's column and sent `r.drop` back up.
pub open spec fn respawned(e: Pos, r: Respawn) -> Pos {
    Pos { x: r.x, y: (e.y - r.drop) as i64 }
}

/// The vertical band the `i`-th enemy (counting from 0) starts in, so that
/// the pool enters the screen one after another.
pub open spec fn start_band(i: int, y: int) -> bool {
    -150 * (i + 1) <= y <= -50 * (i + 1)
}

/// Draws a respawn for a screen `screen_w` wide.
pub fn draw_respawn(screen_w: i64) -> (r: Respawn)
    requires
        2 * SPAWN_MARGIN <= screen_w <= DIM_MAX,
    ensures
        valid_respawn(r, screen_w as int),
{
    let x = random_between(SPAWN_MARGIN, screen_w - SPAWN_MARGIN);
    let drop = random_between(RESPAWN_MIN, RESPAWN_MAX);
    Respawn { x, drop }
}

/// Refills the pool with `ENEMY_COUNT` enemies at random columns, the
/// `i`-th one in its own band above the screen.
pub fn reset_enemies(enemies: &mut Vec<Pos>, screen_w: i64)
    requires
        2 * SPAWN_MARGIN <= screen_w <= DIM_MAX,
    ensures
        final(enemies)@.len() == ENEMY_COUNT,
        forall|i: int|
            0 <= i < ENEMY_COUNT ==> {
                &&& SPAWN_MARGIN <= #[trigger] final(enemies)@[i].x <= screen_w - SPAWN_MARGIN
                &&& start_band(i, final(enemies)@[i].y as int)
            },
{
    enemies.clear();
    let mut i: i64 = 1;
    while i <= ENEMY_COUNT as i64
        invariant
            1 <= i <= ENEMY_COUNT + 1,
            2 * SPAWN_MARGIN <= screen_w <= DIM_MAX,
            enemies@.len() == i - 1,
            forall|k: int|
                0 <= k < i - 1 ==> {
                    &&& SPAWN_MARGIN <= #[trigger] enemies@[k].x <= screen_w - SPAWN_MARGIN
                    &&& start_band(k, enemies@[k].y as int)
                },
        decreases ENEMY_COUNT + 1 - i,
    {
        let x = random_between(SPAWN_MARGIN, screen_w - SPAWN_MARGIN);
        proof {
            assert(-1650 <= i * -150 <= -150 && -550 <= i * -50 <= -50 && i * -150 <= i * -50)
                by (nonlinear_arith)
                requires
                    1 <= i <= 11,
            ;
        }
        let y = random_between(i * -150, i * -50);
        enemies.push(Pos { x, y });
        i = i + 1;
    }
}

/// The enemy pool as a well-formed game holds it: `ENEMY_COUNT` enemies,
/// each in a column a fresh placement may use and none below the screen.
pub open spec fn enemies_wf(es: Seq<Pos>, l: Layout) -> bool {
    &&& es.len() == ENEMY_COUNT
    &&& forall|i: int|
        0 <= i < es.len() ==> {
            &&& SPAWN_MARGIN <= #[trigger] es[i].x <= l.screen_w - SPAWN_MARGIN
            &&& -COORD_MAX <= es[i].y <= l.screen_h
        }
}

pub open spec fn enemy_rect(e: Pos, l: Layout) -> Rect {
    spec_dest_rec(e, l.enemy_w, l.enemy_h)
}

/// An enemy one frame lower.
pub open spec fn descended(e: Pos) -> Pos {
    Pos { x: e.x, y: (e.y + ENEMY_SPEED) as i64 }
}

/// An enemy at `m` fires when its y is a positive multiple of `FIRE_PERIOD`.
pub open spec fn fires(m: Pos) -> bool {
    m.y > 0 && m.y % FIRE_PERIOD == 0
}

/// Where an enemy at `m` releases its shot: its horizontal centre.
pub open spec fn muzzle(m: Pos, l: Layout) -> Pos {
    Pos { x: (m.x + l.enemy_w / 2) as i64, y: m.y }
}

/// An enemy one frame later: one step lower, and respawned with `d` once it
/// has gone below the screen.
pub open spec fn marched(e: Pos, l: Layout, d: Respawn) -> Pos {
    let m = descended(e);
    if m.y > l.screen_h {
        respawned(m, d)
    } else {
        m
    }
}

/// The shots fired by the first `n` enemies as they descend, in order.
pub open spec fn volleys_fired(es: Seq<Pos>, l: Layout, n: int) -> Seq<Pos>
    decreases n,
{
    if n <= 0 {
        seq![]
    } else {
        let prev = volleys_fired(es, l, n - 1);
        let m = descended(es[n - 1]);
        if fires(m) {
            prev.push(muzzle(m, l))
        } else {
            prev
        }
    }
}

/// One frame of the enemies, for some draws that the rules allow: `es2` is
/// the pool after it.
pub open spec fn enemies_step(es: Seq<Pos>, l: Layout, es2: Seq<Pos>) -> bool {
    exists|draws: Seq<Respawn>|
        {
            &&& draws.len() == ENEMY_COUNT
            &&& forall|j: int| 0 <= j < ENEMY_COUNT ==> valid_respawn(#[trigger] draws[j], l.screen_w as int)
            &&& es2 == Seq::new(ENEMY_COUNT as nat, |j: int| marched(es[j], l, draws[j]))
        }
}

/// Moves every enemy one step down; one whose y becomes a positive
/// multiple of `FIRE_PERIOD` fires a shot from its centre, and one that
/// went below the screen is respawned above it.
pub fn advance_enemies(enemies: &mut Vec<Pos>, shots: &mut Vec<Pos>, l: &Layout)
    requires
        l.wf(),
        enemies_wf(old(enemies)@, *l),
        enemy_shots_wf(old(shots)@),
    ensures
        enemies_step(old(enemies)@, *l, final(enemies)@),
        final(shots)@ == old(shots)@ + volleys_fired(old(enemies)@, *l, ENEMY_COUNT as int),
        enemies_wf(final(enemies)@, *l),
        enemy_shots_wf(final(shots)@),
{
    let ghost es0 = enemies@;
    let ghost ss0 = shots@;
    let ghost mut ds: Seq<Respawn> = seq![];
    let mut j: usize = 0;
    while j < enemies.len()
        invariant
            l.wf(),
            enemies_wf(es0, *l),
            enemies@.len() == ENEMY_COUNT,
            0 <= j <= ENEMY_COUNT,
            ds.len() == j,
            forall|k: int| 0 <= k < j ==> valid_respawn(#[trigger] ds[k], l.screen_w as int),
            forall|k: int| 0 <= k < j ==> #[trigger] enemies@[k] == marched(es0[k], *l, ds[k]),
            forall|k: int| j <= k < ENEMY_COUNT ==> #[trigger] enemies@[k] == es0[k],
            enemies_wf(enemies@, *l),
            shots@ == ss0 + volleys_fired(es0, *l, j as int),
            enemy_shots_wf(shots@),
        decreases ENEMY_COUNT - j,
    {
        let e = enemies[j];
        let m = Pos { x: e.x, y: e.y + ENEMY_SPEED };
        if m.y > 0 && (m.y as u64) % (FIRE_PERIOD as u64) == 0 {
            shots.push(Pos { x: m.x + l.enemy_w / 2, y: m.y });
        }
        if m.y > l.screen_h {
            let d = draw_respawn(l.screen_w);
            enemies.set(j, Pos { x: d.x, y: m.y - d.drop });
            proof {
                ds = ds.push(d);
            }
        } else {
            enemies.set(j, m);
            proof {
                ds = ds.push(Respawn { x: SPAWN_MARGIN, drop: RESPAWN_MIN });
            }
        }
        proof {
            assert(volleys_fired(es0, *l, j + 1) == if fires(m) {
                volleys_fired(es0, *l, j as int).push(muzzle(m, *l))
            } else {
                volleys_fired(es0, *l, j as int)
            });
        }
        j = j + 1;
    }
    assert(enemies@ =~= Seq::new(ENEMY_COUNT as nat, |k: int| marched(es0[k], *l, ds[k])));
}

} // verus!
