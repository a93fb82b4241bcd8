use vstd::prelude::*;
use crate::enemies::{
    draw_respawn, enemies_wf, enemy_rect, respawned, valid_respawn, Respawn, ENEMY_COUNT,
    RESPAWN_MAX, RESPAWN_MIN, SPAWN_MARGIN,
};
use crate::geometry::{dest_rec, spec_dest_rec, Layout, Pos, Rect, COORD_MAX, DIM_MAX};

verus! {

/// How far a player's shot climbs each frame.
pub const PLAYER_SHOT_SPEED: i64 = 9;

/// How far an enemy's shot falls each frame.
pub const ENEMY_SHOT_SPEED: i64 = 5;

/// Shots of the player: never far above the screen.
pub open spec fn player_shots_wf(ss: Seq<Pos>) -> bool {
    forall|i: int|
        0 <= i < ss.len() ==> {
            &&& -COORD_MAX <= #[trigger] ss[i].x <= COORD_MAX
            &&& -DIM_MAX <= ss[i].y <= COORD_MAX
        }
}

/// Shots of the enemies: within the coordinate bound.
pub open spec fn enemy_shots_wf(ss: Seq<Pos>) -> bool {
    forall|i: int|
        0 <= i < ss.len() ==> {
            &&& -COORD_MAX <= #[trigger] ss[i].x <= COORD_MAX
            &&& -COORD_MAX <= ss[i].y <= COORD_MAX
        }
}

pub open spec fn laser_rect(s: Pos, l: Layout) -> Rect {
    spec_dest_rec(s, l.laser_w, l.laser_h)
}

pub open spec fn enemy_laser_rect(s: Pos, l: Layout) -> Rect {
    spec_dest_rec(s, l.enemy_laser_w, l.enemy_laser_h)
}

/// A player's shot one frame later.
pub open spec fn climbed(s: Pos) -> Pos {
    Pos { x: s.x, y: (s.y - PLAYER_SHOT_SPEED) as i64 }
}

/// An enemy's shot one frame later.
pub open spec fn fallen(s: Pos) -> Pos {
    Pos { x: s.x, y: (s.y + ENEMY_SHOT_SPEED) as i64 }
}

/// How many of the first `n` enemies overlap `shot`.
pub open spec fn hit_count(es: Seq<Pos>, shot: Rect, l: Layout, n: int) -> nat
    decreases n,
{
    if n <= 0 {
        0
    } else {
        hit_count(es, shot, l, n - 1) + if enemy_rect(es[n - 1], l).spec_overlaps(shot) {
            1nat
        } else {
            0nat
        }
    }
}

/// The enemies after `shot` has passed over them: each one it overlaps is
/// respawned with its own draw, the others stay.
pub open spec fn swept(es: Seq<Pos>, shot: Rect, l: Layout, draws: Seq<Respawn>) -> Seq<Pos> {
    Seq::new(
        es.len(),
        |j: int|
            if enemy_rect(es[j], l).spec_overlaps(shot) {
                respawned(es[j], draws[j])
            } else {
                es[j]
            },
    )
}

/// Draws that the rules allow, one per enemy for each shot.
pub open spec fn valid_draws(draws: Seq<Seq<Respawn>>, n: int, l: Layout) -> bool {
    &&& draws.len() == n
    &&& forall|i: int|
        0 <= i < n ==> {
            &&& (#[trigger] draws[i]).len() == ENEMY_COUNT
            &&& forall|j: int| 0 <= j < ENEMY_COUNT ==> valid_respawn(#[trigger] draws[i][j], l.screen_w as int)
        }
}

/// The first `n` shots of the player, in order, each one frame later and
/// tested against the enemies as the earlier shots left them. Gives the
/// shots that stay, the enemies, and the number of hits. A shot leaves
/// once its bottom edge is above the screen or it hit something.
pub open spec fn volley(shots: Seq<Pos>, es: Seq<Pos>, l: Layout, draws: Seq<Seq<Respawn>>, n: int) -> (
    Seq<Pos>,
    Seq<Pos>,
    nat,
)
    decreases n,
{
    if n <= 0 {
        (seq![], es, 0)
    } else {
        let (kept, es1, hits) = volley(shots, es, l, draws, n - 1);
        let s = climbed(shots[n - 1]);
        let r = laser_rect(s, l);
        let h = hit_count(es1, r, l, es1.len() as int);
        let es2 = swept(es1, r, l, draws[n - 1]);
        let gone = s.y + l.laser_h < 0 || h > 0;
        (if gone { kept } else { kept.push(s) }, es2, hits + h)
    }
}

proof fn lemma_hit_count_bound(es: Seq<Pos>, shot: Rect, l: Layout, n: int)
    requires
        0 <= n,
    ensures
        hit_count(es, shot, l, n) <= n,
    decreases n,
{
    if n > 0 {
        lemma_hit_count_bound(es, shot, l, n - 1);
    }
}

proof fn lemma_volley_prefix(
    shots: Seq<Pos>,
    es: Seq<Pos>,
    l: Layout,
    draws: Seq<Seq<Respawn>>,
    d: Seq<Respawn>,
    n: int,
)
    requires
        0 <= n <= draws.len(),
    ensures
        volley(shots, es, l, draws.push(d), n) == volley(shots, es, l, draws, n),
    decreases n,
{
    if n > 0 {
        lemma_volley_prefix(shots, es, l, draws, d, n - 1);
        assert(draws.push(d)[n - 1] == draws[n - 1]);
    }
}

/// One frame of the player's shots over the enemies, for some draws that
/// the rules allow: `ss2` and `es2` are the shots and enemies after it, and
/// `hits` the number of hits.
pub open spec fn player_shots_step(
    ss: Seq<Pos>,
    es: Seq<Pos>,
    l: Layout,
    ss2: Seq<Pos>,
    es2: Seq<Pos>,
    hits: nat,
) -> bool {
    exists|draws: Seq<Seq<Respawn>>|
        {
            &&& valid_draws(draws, ss.len() as int, l)
            &&& #[trigger] volley(ss, es, l, draws, ss.len() as int) == (ss2, es2, hits)
        }
}

/// A lone shot of the player that meets no enemy only climbs, and leaves
/// exactly when its bottom edge goes above the screen; the enemies and the
/// score stay as they were.
pub proof fn lemma_lone_shot_climbs_until_off_screen(
    s: Pos,
    es: Seq<Pos>,
    l: Layout,
    draws: Seq<Seq<Respawn>>,
)
    requires
        draws.len() == 1,
        forall|j: int| 0 <= j < es.len() ==> !(#[trigger] enemy_rect(es[j], l)).spec_overlaps(laser_rect(climbed(s), l)),
    ensures
        volley(seq![s], es, l, draws, 1) == (
            if climbed(s).y + l.laser_h < 0 {
                Seq::<Pos>::empty()
            } else {
                seq![climbed(s)]
            },
            es,
            0nat,
        ),
{
    let r = laser_rect(climbed(s), l);
    lemma_no_hits(es, r, l, es.len() as int);
    assert(swept(es, r, l, draws[0]) =~= es);
    assert(seq![s][0] == s);
    assert(volley(seq![s], es, l, draws, 0) == (Seq::<Pos>::empty(), es, 0nat));
    assert(Seq::<Pos>::empty().push(climbed(s)) =~= seq![climbed(s)]);
}

/// A lone shot of the player that meets exactly one enemy, the `k`-th,
/// scores one hit and is removed; that enemy moves to a column of the
/// screen's inner band and goes back up by 800 to 1000, and the others stay.
pub proof fn lemma_lone_shot_hits_one_enemy(
    s: Pos,
    es: Seq<Pos>,
    l: Layout,
    draws: Seq<Seq<Respawn>>,
    k: int,
)
    requires
        l.wf(),
        enemies_wf(es, l),
        valid_draws(draws, 1, l),
        0 <= k < es.len(),
        enemy_rect(es[k], l).spec_overlaps(laser_rect(climbed(s), l)),
        forall|j: int|
            0 <= j < es.len() && j != k ==> !(#[trigger] enemy_rect(es[j], l)).spec_overlaps(
                laser_rect(climbed(s), l),
            ),
    ensures
        ({
            let (kept, es2, hits) = volley(seq![s], es, l, draws, 1);
            &&& kept.len() == 0
            &&& hits == 1
            &&& es2.len() == es.len()
            &&& SPAWN_MARGIN <= es2[k].x <= l.screen_w - SPAWN_MARGIN
            &&& es[k].y - RESPAWN_MAX <= es2[k].y <= es[k].y - RESPAWN_MIN
            &&& forall|j: int| 0 <= j < es.len() && j != k ==> es2[j] == es[j]
        }),
{
    let r = laser_rect(climbed(s), l);
    lemma_one_hit(es, r, l, k, es.len() as int);
    assert(seq![s][0] == s);
    assert(volley(seq![s], es, l, draws, 0) == (Seq::<Pos>::empty(), es, 0nat));
    assert(valid_respawn(draws[0][k], l.screen_w as int));
    assert(SPAWN_MARGIN <= es[k].x);
}

proof fn lemma_one_hit(es: Seq<Pos>, shot: Rect, l: Layout, k: int, n: int)
    requires
        0 <= n <= es.len(),
        0 <= k < es.len(),
        enemy_rect(es[k], l).spec_overlaps(shot),
        forall|j: int| 0 <= j < es.len() && j != k ==> !(#[trigger] enemy_rect(es[j], l)).spec_overlaps(shot),
    ensures
        hit_count(es, shot, l, n) == if k < n {
            1nat
        } else {
            0nat
        },
    decreases n,
{
    if n > 0 {
        lemma_one_hit(es, shot, l, k, n - 1);
    }
}

proof fn lemma_no_hits(es: Seq<Pos>, shot: Rect, l: Layout, n: int)
    requires
        0 <= n <= es.len(),
        forall|j: int| 0 <= j < es.len() ==> !(#[trigger] enemy_rect(es[j], l)).spec_overlaps(shot),
    ensures
        hit_count(es, shot, l, n) == 0,
    decreases n,
{
    if n > 0 {
        lemma_no_hits(es, shot, l, n - 1);
        assert(!enemy_rect(es[n - 1], l).spec_overlaps(shot));
    }
}

/// Passes one shot, whose rectangle is `r`, over every enemy; each one it
/// overlaps is respawned. Gives the number of hits and the draws used.
fn sweep_shot(enemies: &mut Vec<Pos>, r: Rect, l: &Layout) -> (res: (u64, Ghost<Seq<Respawn>>))
    requires
        l.wf(),
        enemies_wf(old(enemies)@, *l),
        -2 * DIM_MAX <= r.y,
    ensures
        enemies_wf(final(enemies)@, *l),
        res.0 == hit_count(old(enemies)@, r, *l, ENEMY_COUNT as int),
        res.1@.len() == ENEMY_COUNT,
        forall|j: int| 0 <= j < ENEMY_COUNT ==> valid_respawn(#[trigger] res.1@[j], l.screen_w as int),
        final(enemies)@ == swept(old(enemies)@, r, *l, res.1@),
{
    let ghost es0 = enemies@;
    let ghost mut ds: Seq<Respawn> = seq![];
    let mut hits: u64 = 0;
    let mut j: usize = 0;
    while j < enemies.len()
        invariant
            l.wf(),
            es0.len() == ENEMY_COUNT,
            enemies_wf(enemies@, *l),
            -2 * DIM_MAX <= r.y,
            0 <= j <= ENEMY_COUNT,
            ds.len() == j,
            hits == hit_count(es0, r, *l, j as int),
            hits <= j,
            forall|k: int| 0 <= k < j ==> valid_respawn(#[trigger] ds[k], l.screen_w as int),
            forall|k: int|
                0 <= k < j ==> #[trigger] enemies@[k] == (if enemy_rect(es0[k], *l).spec_overlaps(r) {
                    respawned(es0[k], ds[k])
                } else {
                    es0[k]
                }),
            forall|k: int| j <= k < ENEMY_COUNT ==> #[trigger] enemies@[k] == es0[k],
        decreases ENEMY_COUNT - j,
    {
        let e = enemies[j];
        let er = dest_rec(&e, l.enemy_w, l.enemy_h);
        if er.overlaps(&r) {
            let d = draw_respawn(l.screen_w);
            enemies.set(j, Pos { x: d.x, y: e.y - d.drop });
            hits = hits + 1;
            proof {
                ds = ds.push(d);
            }
        } else {
            proof {
                ds = ds.push(Respawn { x: SPAWN_MARGIN, drop: RESPAWN_MIN });
            }
        }
        j = j + 1;
    }
    assert(enemies@ =~= swept(es0, r, *l, ds));
    (hits, Ghost(ds))
}

/// Moves every shot of the player up one frame, in order, and tests each
/// against every enemy: an enemy it overlaps is respawned and counted as a
/// hit. A shot that hit something, or whose bottom edge went above the
/// screen, is removed. Gives the number of hits.
pub fn advance_player_shots(shots: &mut Vec<Pos>, enemies: &mut Vec<Pos>, l: &Layout) -> (hits: u64)
    requires
        l.wf(),
        enemies_wf(old(enemies)@, *l),
        player_shots_wf(old(shots)@),
        ENEMY_COUNT * old(shots)@.len() <= u64::MAX,
    ensures
        player_shots_step(old(shots)@, old(enemies)@, *l, final(shots)@, final(enemies)@, hits as nat),
        hits <= ENEMY_COUNT * old(shots)@.len(),
        enemies_wf(final(enemies)@, *l),
        player_shots_wf(final(shots)@),
{
    let ghost ss = shots@;
    let ghost es0 = enemies@;
    let ghost mut draws: Seq<Seq<Respawn>> = seq![];
    let mut kept: Vec<Pos> = Vec::new();
    let mut hits: u64 = 0;
    let mut i: usize = 0;
    while i < shots.len()
        invariant
            l.wf(),
            shots@ == ss,
            0 <= i <= ss.len(),
            player_shots_wf(ss),
            enemies_wf(enemies@, *l),
            player_shots_wf(kept@),
            valid_draws(draws, i as int, *l),
            volley(ss, es0, *l, draws, i as int) == (kept@, enemies@, hits as nat),
            hits <= ENEMY_COUNT * i,
            ENEMY_COUNT * ss.len() <= u64::MAX,
        decreases ss.len() - i,
    {
        let s = shots[i];
        let moved = Pos { x: s.x, y: s.y - PLAYER_SHOT_SPEED };
        let r = dest_rec(&moved, l.laser_w, l.laser_h);
        let ghost eb = enemies@;
        let (h, Ghost(d)) = sweep_shot(enemies, r, l);
        proof {
            lemma_hit_count_bound(eb, r, *l, ENEMY_COUNT as int);
        }
        hits = hits + h;
        if !(moved.y + l.laser_h < 0 || h > 0) {
            kept.push(moved);
        }
        proof {
            lemma_volley_prefix(ss, es0, *l, draws, d, i as int);
            draws = draws.push(d);
            assert(draws[i as int] == d);
        }
        i = i + 1;
    }
    *shots = kept;
    assert(volley(ss, es0, *l, draws, ss.len() as int) == (shots@, enemies@, hits as nat));
    hits
}

/// The first `n` shots of the enemies, in order, each one frame later.
/// While `armed`, the first one that overlaps `target` hits it; the later
/// ones pass through. Gives the shots that stay and whether one hit. A shot
/// leaves once its top edge is below the screen or it hit.
pub open spec fn enemy_volley(shots: Seq<Pos>, target: Rect, armed: bool, l: Layout, n: int) -> (
    Seq<Pos>,
    bool,
)
    decreases n,
{
    if n <= 0 {
        (seq![], false)
    } else {
        let (kept, hit) = enemy_volley(shots, target, armed, l, n - 1);
        let s = fallen(shots[n - 1]);
        let h = armed && !hit && enemy_laser_rect(s, l).spec_overlaps(target);
        let gone = s.y > l.screen_h || h;
        (if gone { kept } else { kept.push(s) }, hit || h)
    }
}

/// Moves every shot of the enemies down one frame, in order. While `armed`
/// (the player is not recovering from a hit), the first shot that overlaps
/// `target` hits it and is removed; a shot whose top edge went below the
/// screen is removed too. Gives whether a shot hit.
pub fn advance_enemy_shots(shots: &mut Vec<Pos>, target: Rect, armed: bool, l: &Layout) -> (hit: bool)
    requires
        l.wf(),
        enemy_shots_wf(old(shots)@),
    ensures
        (final(shots)@, hit) == enemy_volley(old(shots)@, target, armed, *l, old(shots)@.len() as int),
        enemy_shots_wf(final(shots)@),
{
    let ghost ss = shots@;
    let mut kept: Vec<Pos> = Vec::new();
    let mut hit = false;
    let mut i: usize = 0;
    while i < shots.len()
        invariant
            l.wf(),
            shots@ == ss,
            0 <= i <= ss.len(),
            enemy_shots_wf(ss),
            enemy_shots_wf(kept@),
            enemy_volley(ss, target, armed, *l, i as int) == (kept@, hit),
        decreases ss.len() - i,
    {
        let s = shots[i];
        let moved = Pos { x: s.x, y: s.y + ENEMY_SHOT_SPEED };
        let mut h = false;
        if armed && !hit {
            let r = dest_rec(&moved, l.enemy_laser_w, l.enemy_laser_h);
            h = r.overlaps(&target);
        }
        if !(moved.y > l.screen_h || h) {
            kept.push(moved);
        }
        hit = hit || h;
        i = i + 1;
    }
    *shots = kept;
    hit
}

} // verus!
