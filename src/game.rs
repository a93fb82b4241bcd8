use vstd::prelude::*;
use crate::enemies::{
    advance_enemies, enemies_step, enemies_wf, reset_enemies, start_band, volleys_fired,
    ENEMY_COUNT, SPAWN_MARGIN,
};
use crate::geometry::{Layout, Pos, DIM_MAX};
use crate::player::{Movement, Player};
use crate::shots::{
    advance_enemy_shots, advance_player_shots, enemy_shots_wf, enemy_volley, player_shots_step,
    player_shots_wf,
};

verus! {

/// How far the player moves per frame along each axis.
pub const PLAYER_SPEED: i64 = 5;

/// Frames the player stays untouchable after being hit.
pub const HIT_FRAMES: u32 = 160;

/// While untouchable, the player's sprite shows or hides every this many frames.
pub const BLINK_PERIOD: u32 = 20;

/// Lives and position of the player at the start of a game.
pub const START_LIVES: i8 = 3;
pub const START_X: i64 = 200;
pub const START_Y: i64 = 200;

#[derive(Clone, Copy, Debug, PartialEq, Eq, Structural)]
pub enum GameState {
    Active,
    Paused,
    GameOver,
}

/// The keys read during one frame of play.
#[derive(Clone, Copy, Debug, PartialEq, Eq, Structural)]
pub struct FrameKeys {
    pub movement: Movement,
    /// The fire key went down this frame.
    pub fire: bool,
    /// The pause key went down this frame.
    pub pause: bool,
}

/// What happened during one frame of play, for sound and drawing.
#[derive(Clone, Copy, Debug, PartialEq, Eq, Structural)]
pub struct FrameReport {
    /// The player fired a shot.
    pub fired: bool,
    /// The game was paused; the rest of the frame did not run.
    pub paused: bool,
    /// Enemies hit by the player's shots.
    pub enemy_hits: u64,
    /// An enemy's shot hit the player.
    pub player_hit: bool,
    /// The player's sprite is shown this frame.
    pub player_visible: bool,
}

/// The whole state of a session: the current game, the best score so far and,
/// as ghost state, the score each finished game ended with.
pub struct Game {
    pub state: GameState,
    pub hit_dur: u32,
    pub hit_toggle: bool,
    pub score: u64,
    pub high_score: u64,
    pub player: Player,
    pub player_proj: Vec<Pos>,
    pub enemy_proj: Vec<Pos>,
    pub enemies: Vec<Pos>,
    pub layout: Layout,
    pub finished: Ghost<Seq<u64>>,
}

/// The largest value of `s`, or 0 when it is empty.
pub open spec fn max_of(s: Seq<u64>) -> u64
    decreases s.len(),
{
    if s.len() == 0 {
        0
    } else {
        let m = max_of(s.drop_last());
        if s.last() > m {
            s.last()
        } else {
            m
        }
    }
}

/// The hit timer after one frame, starting from `dur` and `toggle`: while it
/// runs, the sprite flips between shown and hidden on each multiple of
/// `BLINK_PERIOD`. Gives the new timer, the new toggle and whether the
/// sprite is shown.
pub open spec fn blink(dur: u32, toggle: bool) -> (u32, bool, bool) {
    if dur != 0 {
        let t = if dur % BLINK_PERIOD == 0 {
            !toggle
        } else {
            toggle
        };
        ((dur - 1) as u32, t, !t)
    } else {
        (dur, toggle, true)
    }
}

/// Where the player's shot starts: the player's horizontal centre.
pub open spec fn gun(p: Player) -> Pos {
    Pos { x: (p.x + p.width / 2) as i64, y: p.y }
}

/// The player's shots, with one more from `p`'s gun when `fired`.
pub open spec fn with_shot(ss: Seq<Pos>, fired: bool, p: Player) -> Seq<Pos> {
    if fired {
        ss.push(gun(p))
    } else {
        ss
    }
}

impl Game {
    pub open spec fn wf(self) -> bool {
        &&& self.layout.wf()
        &&& self.player.wf()
        &&& enemies_wf(self.enemies@, self.layout)
        &&& player_shots_wf(self.player_proj@)
        &&& enemy_shots_wf(self.enemy_proj@)
        &&& self.hit_dur <= HIT_FRAMES
        &&& self.high_score == max_of(self.finished@)
        &&& self.state == GameState::GameOver ==> {
            &&& self.finished@.len() > 0
            &&& self.finished@.last() == self.score
        }
    }

    /// The frame's score fits in a `u64` even if every shot hits every enemy.
    pub open spec fn spec_score_has_room(self) -> bool {
        self.score + ENEMY_COUNT * (self.player_proj@.len() + 1) <= u64::MAX
    }

    pub fn score_has_room(&self) -> (r: bool)
        ensures
            r == self.spec_score_has_room(),
    {
        let need = (self.player_proj.len() as u128 + 1) * (ENEMY_COUNT as u128);
        (self.score as u128) + need <= u64::MAX as u128
    }

    /// A new session with `player` and the enemies placed for a first game.
    pub fn new(layout: Layout, player: Player) -> (g: Game)
        requires
            layout.wf(),
            player.wf(),
        ensures
            g.wf(),
            g.state == GameState::Active,
            g.layout == layout,
            g.player == player,
            g.score == 0,
            g.high_score == 0,
            g.hit_dur == 0,
            !g.hit_toggle,
            g.finished@.len() == 0,
            g.player_proj@.len() == 0,
            g.enemy_proj@.len() == 0,
            g.enemies@.len() == ENEMY_COUNT,
            forall|i: int|
                0 <= i < ENEMY_COUNT ==> {
                    &&& SPAWN_MARGIN <= #[trigger] g.enemies@[i].x <= layout.screen_w - SPAWN_MARGIN
                    &&& start_band(i, g.enemies@[i].y as int)
                },
    {
        let mut enemies: Vec<Pos> = Vec::new();
        reset_enemies(&mut enemies, layout.screen_w);
        Game {
            state: GameState::Active,
            hit_dur: 0,
            hit_toggle: false,
            score: 0,
            high_score: 0,
            player,
            player_proj: Vec::new(),
            enemy_proj: Vec::new(),
            enemies,
            layout,
            finished: Ghost(Seq::empty()),
        }
    }

    /// Runs the hit timer for one frame and says whether the player's
    /// sprite is shown.
    fn tick_hit_timer(&mut self) -> (visible: bool)
        ensures
            (final(self).hit_dur, final(self).hit_toggle, visible) == blink(old(self).hit_dur, old(self).hit_toggle),
            final(self).state == old(self).state,
            final(self).score == old(self).score,
            final(self).high_score == old(self).high_score,
            final(self).player == old(self).player,
            final(self).player_proj == old(self).player_proj,
            final(self).enemy_proj == old(self).enemy_proj,
            final(self).enemies == old(self).enemies,
            final(self).layout == old(self).layout,
            final(self).finished == old(self).finished,
    {
        if self.hit_dur != 0 {
            if self.hit_dur % BLINK_PERIOD == 0 {
                self.hit_toggle = !self.hit_toggle;
            }
            self.hit_dur = self.hit_dur - 1;
            !self.hit_toggle
        } else {
            true
        }
    }

    /// One frame of play. The player moves; a press of the fire key while
    /// the player is not recovering from a hit fires a shot from its centre;
    /// a press of the pause key pauses and ends the frame there. Otherwise the
    /// player's shots advance and score one point per enemy they hit, the
    /// enemies' shots advance and may hit the player, the hit timer runs and
    /// the enemies advance. A hit costs a life, or ends the game when none is
    /// left; the best score then takes in this game's score.
    pub fn step_active(&mut self, keys: FrameKeys) -> (r: FrameReport)
        requires
            old(self).wf(),
            old(self).state == GameState::Active,
            old(self).spec_score_has_room(),
        ensures
            final(self).wf(),
            final(self).layout == old(self).layout,
            r.fired == (keys.fire && old(self).hit_dur == 0),
            r.paused == keys.pause,
            ({
                let l = old(self).layout;
                let p1 = old(self).player.spec_update(PLAYER_SPEED as int, keys.movement, l.screen_w as int, l.screen_h as int);
                let shots1 = with_shot(old(self).player_proj@, r.fired, p1);
                if keys.pause {
                    &&& final(self).state == GameState::Paused
                    &&& final(self).player == p1
                    &&& final(self).player_proj@ == shots1
                    &&& final(self).enemies == old(self).enemies
                    &&& final(self).enemy_proj == old(self).enemy_proj
                    &&& final(self).score == old(self).score
                    &&& final(self).high_score == old(self).high_score
                    &&& final(self).hit_dur == old(self).hit_dur
                    &&& final(self).hit_toggle == old(self).hit_toggle
                    &&& final(self).finished == old(self).finished
                    &&& r.enemy_hits == 0
                    &&& !r.player_hit
                    &&& r.player_visible
                } else {
                    let (eshots, hit) = enemy_volley(
                        old(self).enemy_proj@,
                        p1.spec_dest_rect(),
                        old(self).hit_dur == 0,
                        l,
                        old(self).enemy_proj@.len() as int,
                    );
                    let dur = if hit { HIT_FRAMES } else { old(self).hit_dur };
                    let over = hit && old(self).player.lives_left == 0;
                    &&& exists|es_mid: Seq<Pos>|
                        {
                            &&& player_shots_step(shots1, old(self).enemies@, l, final(self).player_proj@, es_mid, r.enemy_hits as nat)
                            &&& #[trigger] enemies_step(es_mid, old(self).layout, final(self).enemies@)
                            &&& final(self).enemy_proj@ == eshots + volleys_fired(es_mid, l, ENEMY_COUNT as int)
                        }
                    &&& final(self).score == old(self).score + r.enemy_hits
                    &&& r.player_hit == hit
                    &&& final(self).player.x == p1.x
                    &&& final(self).player.y == p1.y
                    &&& final(self).player.width == p1.width
                    &&& final(self).player.height == p1.height
                    &&& final(self).player.lives_left == (if hit && !over {
                        old(self).player.lives_left - 1
                    } else {
                        old(self).player.lives_left as int
                    })
                    &&& final(self).state == (if over { GameState::GameOver } else { GameState::Active })
                    &&& (final(self).hit_dur, final(self).hit_toggle, r.player_visible) == blink(dur, old(self).hit_toggle)
                    &&& final(self).finished@ == (if over {
                        old(self).finished@.push(final(self).score)
                    } else {
                        old(self).finished@
                    })
                    &&& final(self).high_score == (if over && final(self).score > old(self).high_score {
                        final(self).score
                    } else {
                        old(self).high_score
                    })
                }
            }),
    {
        let l = self.layout;
        let ghost proj0 = self.player_proj@;
        let ghost eproj0 = self.enemy_proj@;
        self.player.update(PLAYER_SPEED, keys.movement, l.screen_w, l.screen_h);
        let ghost p1 = self.player;
        let fired = keys.fire && self.hit_dur == 0;
        if fired {
            let gx = self.player.x + self.player.width / 2;
            self.player_proj.push(Pos { x: gx, y: self.player.y });
        }
        if keys.pause {
            self.state = GameState::Paused;
            return FrameReport {
                fired,
                paused: true,
                enemy_hits: 0,
                player_hit: false,
                player_visible: true,
            };
        }
        let ghost shots1 = self.player_proj@;
        assert(shots1 == with_shot(proj0, fired, p1));
        let ghost es0 = self.enemies@;
        let ghost f0 = self.finished@;
        let hits = advance_player_shots(&mut self.player_proj, &mut self.enemies, &l);
        let ghost es_mid = self.enemies@;
        let ghost shots2 = self.player_proj@;
        self.score = self.score + hits;
        let target = self.player.dest_rect();
        let armed = self.hit_dur == 0;
        let player_hit = advance_enemy_shots(&mut self.enemy_proj, target, armed, &l);
        if player_hit {
            if self.player.lives_left == 0 {
                self.state = GameState::GameOver;
            } else {
                self.player.lives_left = self.player.lives_left - 1;
            }
            self.hit_dur = HIT_FRAMES;
        }
        let ghost eshots = self.enemy_proj@;
        assert(target == p1.spec_dest_rect());
        assert((eshots, player_hit) == enemy_volley(eproj0, p1.spec_dest_rect(), armed, l, eproj0.len() as int));
        let player_visible = self.tick_hit_timer();
        advance_enemies(&mut self.enemies, &mut self.enemy_proj, &l);
        let ghost es_end = self.enemies@;
        assert(enemies_step(es_mid, l, es_end));
        assert(self.enemy_proj@ == eshots + volleys_fired(es_mid, l, ENEMY_COUNT as int));
        if self.state == GameState::GameOver {
            if self.score > self.high_score {
                self.high_score = self.score;
            }
            proof {
                self.finished@ = self.finished@.push(self.score);
                assert(self.finished@.drop_last() =~= f0);
            }
        }
        assert(player_shots_step(shots1, es0, l, shots2, es_mid, hits as nat));
        assert(self.enemies@ == es_end);
        assert(enemies_step(es_mid, l, self.enemies@));
        assert(exists|em: Seq<Pos>|
            {
                &&& player_shots_step(shots1, es0, l, self.player_proj@, em, hits as nat)
                &&& #[trigger] enemies_step(em, l, self.enemies@)
                &&& self.enemy_proj@ == eshots + volleys_fired(em, l, ENEMY_COUNT as int)
            });
        FrameReport { fired, paused: false, enemy_hits: hits, player_hit, player_visible }
    }

    /// Starts a new game in the same session: score 0, three lives, the
    /// player back at its starting point, no shots and a fresh enemy pool.
    /// The best score and the record of finished games are kept.
    pub fn restart(&mut self)
        requires
            old(self).wf(),
        ensures
            final(self).wf(),
            final(self).state == GameState::Active,
            final(self).score == 0,
            final(self).player.lives_left == START_LIVES,
            final(self).player.x == START_X,
            final(self).player.y == START_Y,
            final(self).player.width == old(self).player.width,
            final(self).player.height == old(self).player.height,
            final(self).player_proj@.len() == 0,
            final(self).enemy_proj@.len() == 0,
            final(self).enemies@.len() == ENEMY_COUNT,
            forall|i: int|
                0 <= i < ENEMY_COUNT ==> {
                    &&& SPAWN_MARGIN <= #[trigger] final(self).enemies@[i].x <= final(self).layout.screen_w
                        - SPAWN_MARGIN
                    &&& start_band(i, final(self).enemies@[i].y as int)
                },
            final(self).hit_dur == 0,
            !final(self).hit_toggle,
            final(self).high_score == old(self).high_score,
            final(self).finished == old(self).finished,
            final(self).layout == old(self).layout,
    {
        self.score = 0;
        self.player.lives_left = START_LIVES;
        self.player.x = START_X;
        self.player.y = START_Y;
        self.player_proj.clear();
        self.enemy_proj.clear();
        reset_enemies(&mut self.enemies, self.layout.screen_w);
        self.hit_dur = 0;
        self.hit_toggle = false;
        self.state = GameState::Active;
    }

    /// One frame while paused: `resume` goes back to play, otherwise `exit`
    /// ends the session. Gives whether the session goes on.
    pub fn step_paused(&mut self, resume: bool, exit: bool) -> (running: bool)
        requires
            old(self).wf(),
            old(self).state == GameState::Paused,
        ensures
            final(self).wf(),
            running == (resume || !exit),
            final(self).state == (if resume { GameState::Active } else { GameState::Paused }),
            final(self).score == old(self).score,
            final(self).high_score == old(self).high_score,
            final(self).hit_dur == old(self).hit_dur,
            final(self).hit_toggle == old(self).hit_toggle,
            final(self).player == old(self).player,
            final(self).player_proj == old(self).player_proj,
            final(self).enemy_proj == old(self).enemy_proj,
            final(self).enemies == old(self).enemies,
            final(self).layout == old(self).layout,
            final(self).finished == old(self).finished,
    {
        if resume {
            self.state = GameState::Active;
            true
        } else {
            !exit
        }
    }

    /// One frame after the game ended: the best score takes in this game's
    /// score, then `play` starts a new game, otherwise `exit` ends the
    /// session. Gives whether the session goes on.
    pub fn step_game_over(&mut self, play: bool, exit: bool) -> (running: bool)
        requires
            old(self).wf(),
            old(self).state == GameState::GameOver,
        ensures
            final(self).wf(),
            running == (play || !exit),
            final(self).high_score == old(self).high_score,
            old(self).score <= final(self).high_score,
            final(self).finished == old(self).finished,
            final(self).layout == old(self).layout,
            play ==> {
                &&& final(self).state == GameState::Active
                &&& final(self).score == 0
                &&& final(self).player.lives_left == START_LIVES
                &&& final(self).player.x == START_X
                &&& final(self).player.y == START_Y
                &&& final(self).player.width == old(self).player.width
                &&& final(self).player.height == old(self).player.height
                &&& final(self).player_proj@.len() == 0
                &&& final(self).enemy_proj@.len() == 0
                &&& final(self).enemies@.len() == ENEMY_COUNT
                &&& forall|i: int|
                    0 <= i < ENEMY_COUNT ==> {
                        &&& SPAWN_MARGIN <= #[trigger] final(self).enemies@[i].x <= final(self).layout.screen_w
                            - SPAWN_MARGIN
                        &&& start_band(i, final(self).enemies@[i].y as int)
                    }
                &&& final(self).hit_dur == 0
                &&& !final(self).hit_toggle
            },
            !play ==> {
                &&& final(self).state == GameState::GameOver
                &&& final(self).score == old(self).score
                &&& final(self).hit_dur == old(self).hit_dur
                &&& final(self).hit_toggle == old(self).hit_toggle
                &&& final(self).player == old(self).player
                &&& final(self).player_proj == old(self).player_proj
                &&& final(self).enemy_proj == old(self).enemy_proj
                &&& final(self).enemies == old(self).enemies
            },
    {
        proof {
            lemma_max_of_bounds(self.finished@);
        }
        if self.score > self.high_score {
            self.high_score = self.score;
        }
        if play {
            self.restart();
            true
        } else {
            !exit
        }
    }
}

/// Every value of `s` is at most `max_of(s)`, and a non-empty `s` holds it.
pub proof fn lemma_max_of_bounds(s: Seq<u64>)
    ensures
        forall|i: int| 0 <= i < s.len() ==> s[i] <= max_of(s),
        s.len() > 0 ==> exists|i: int| 0 <= i < s.len() && s[i] == max_of(s),
    decreases s.len(),
{
    if s.len() > 0 {
        let t = s.drop_last();
        lemma_max_of_bounds(t);
        assert forall|i: int| 0 <= i < s.len() implies s[i] <= max_of(s) by {
            if i < t.len() {
                assert(s[i] == t[i]);
            }
        }
        if s.last() > max_of(t) || t.len() == 0 {
            assert(s[s.len() - 1] == max_of(s));
        } else {
            let j = choose|j: int| 0 <= j < t.len() && t[j] == max_of(t);
            assert(s[j] == max_of(s));
        }
    }
}

/// The best score of a session is the highest score any of its games ended
/// with, or 0 before the first game ends.
pub proof fn lemma_high_score_is_best_finished(g: &Game)
    requires
        g.wf(),
    ensures
        forall|i: int| 0 <= i < g.finished@.len() ==> g.finished@[i] <= g.high_score,
        g.finished@.len() == 0 ==> g.high_score == 0,
        g.finished@.len() > 0 ==> exists|i: int| 0 <= i < g.finished@.len() && g.finished@[i] == g.high_score,
{
    lemma_max_of_bounds(g.finished@);
}

/// In every well-formed game the pool holds exactly `ENEMY_COUNT` enemies and
/// none of them is below the screen.
pub proof fn lemma_enemy_pool_full_and_on_screen(g: &Game)
    requires
        g.wf(),
    ensures
        g.enemies@.len() == ENEMY_COUNT,
        forall|i: int| 0 <= i < g.enemies@.len() ==> #[trigger] g.enemies@[i].y <= g.layout.screen_h,
{
    assert forall|i: int| 0 <= i < g.enemies@.len() implies #[trigger] g.enemies@[i].y <= g.layout.screen_h by {
        assert(SPAWN_MARGIN <= g.enemies@[i].x);
    }
}

/// In every well-formed game the player's life count is not negative.
pub proof fn lemma_lives_never_negative(g: &Game)
    requires
        g.wf(),
    ensures
        g.player.lives_left >= 0,
{
}

} // verus!
