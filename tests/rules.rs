use space_shooter::enemies::{advance_enemies, reset_enemies, ENEMY_COUNT};
use space_shooter::game::{FrameKeys, Game, GameState, HIT_FRAMES};
use space_shooter::geometry::{dest_rec, Layout, Pos, Rect};
use space_shooter::player::{clamp, Movement, Player};
use space_shooter::shots::{advance_enemy_shots, advance_player_shots};

fn layout() -> Layout {
    Layout {
        screen_w: 700,
        screen_h: 900,
        laser_w: 5,
        laser_h: 20,
        enemy_laser_w: 5,
        enemy_laser_h: 20,
        enemy_w: 40,
        enemy_h: 40,
    }
}

fn still() -> Movement {
    Movement { up: false, down: false, left: false, right: false }
}

fn idle() -> FrameKeys {
    FrameKeys { movement: still(), fire: false, pause: false }
}

fn new_game() -> Game {
    Game::new(layout(), Player::new(200, 200, 3, 50, 40))
}

/// Puts every enemy in the rightmost column, high above the screen.
fn park_enemies(g: &mut Game) {
    for e in g.enemies.iter_mut() {
        e.x = 650;
        e.y = -5000;
    }
}

#[test]
fn overlap_is_closed_on_every_edge() {
    let a = Rect::new(0, 0, 10, 10);
    assert!(a.overlaps(&Rect::new(10, 10, 5, 5)));
    assert!(a.overlaps(&Rect::new(-5, -5, 5, 5)));
    assert!(!a.overlaps(&Rect::new(11, 0, 5, 5)));
    assert!(!a.overlaps(&Rect::new(0, 11, 5, 5)));
    assert!(!a.overlaps(&Rect::new(-6, 0, 5, 5)));
    assert!(a.overlaps(&Rect::new(3, 3, 2, 2)));
}

#[test]
fn dest_rec_takes_position_and_size() {
    assert_eq!(dest_rec(&Pos::new(3, -4), 7, 8), Rect::new(3, -4, 7, 8));
    let p = Player::new(10, 20, 3, 50, 40);
    assert_eq!(p.dest_rect(), Rect::new(10, 20, 50, 40));
    assert_eq!(p.width(), 50);
    assert_eq!(p.height(), 40);
}

#[test]
fn clamp_limits_to_range() {
    assert_eq!(clamp(-5, 0, 10), 0);
    assert_eq!(clamp(15, 0, 10), 10);
    assert_eq!(clamp(5, 0, 10), 5);
    assert_eq!(clamp(5, 0, -3), -3);
}

#[test]
fn player_moves_diagonally_and_stays_on_screen() {
    let mut p = Player::new(100, 100, 3, 50, 40);
    p.update(5, Movement { up: true, down: false, left: false, right: true }, 700, 900);
    assert_eq!((p.x, p.y), (105, 95));
    p.update(5, Movement { up: true, down: true, left: true, right: true }, 700, 900);
    assert_eq!((p.x, p.y), (105, 95));
    let mut q = Player::new(0, 0, 3, 50, 40);
    q.update(5, Movement { up: true, down: false, left: true, right: false }, 700, 900);
    assert_eq!((q.x, q.y), (0, 0));
    let mut r = Player::new(5000, -5000, 3, 50, 40);
    r.update(5, still(), 700, 900);
    assert_eq!((r.x, r.y), (650, 0));
    let mut s = Player::new(648, 858, 3, 50, 40);
    s.update(5, Movement { up: false, down: true, left: false, right: true }, 700, 900);
    assert_eq!((s.x, s.y), (650, 860));
    assert_eq!(s.lives_left, 3);
}

#[test]
fn reset_fills_ten_staggered_enemies() {
    let mut es = vec![Pos::new(1, 1); 3];
    reset_enemies(&mut es, 700);
    assert_eq!(es.len(), ENEMY_COUNT);
    for (i, e) in es.iter().enumerate() {
        let k = i as i64 + 1;
        assert!(50 <= e.x && e.x <= 650);
        assert!(-150 * k <= e.y && e.y <= -50 * k);
    }
}

#[test]
fn reset_draws_more_than_the_lowest_column() {
    let mut es = Vec::new();
    let mut seen_other = false;
    for _ in 0..5 {
        reset_enemies(&mut es, 700);
        seen_other = seen_other || es.iter().any(|e| e.x != 50);
    }
    assert!(seen_other);
}

#[test]
fn new_game_starts_active_with_full_pool() {
    let g = new_game();
    assert_eq!(g.state, GameState::Active);
    assert_eq!(g.score, 0);
    assert_eq!(g.high_score, 0);
    assert_eq!(g.hit_dur, 0);
    assert_eq!(g.player.lives_left, 3);
    assert_eq!((g.player.x, g.player.y), (200, 200));
    assert!(g.player_proj.is_empty());
    assert!(g.enemy_proj.is_empty());
    assert_eq!(g.enemies.len(), 10);
}

#[test]
fn shot_leaves_exactly_when_above_screen() {
    let l = layout();
    let mut enemies: Vec<Pos> = (0..10).map(|_| Pos::new(650, -5000)).collect();
    let mut shots = vec![Pos::new(100, 30)];
    for expected in [21, 12, 3, -6, -15] {
        assert_eq!(advance_player_shots(&mut shots, &mut enemies, &l), 0);
        assert_eq!(shots, vec![Pos::new(100, expected)]);
    }
    assert_eq!(advance_player_shots(&mut shots, &mut enemies, &l), 0);
    assert!(shots.is_empty());
}

#[test]
fn fired_shot_starts_at_player_centre_and_climbs_away() {
    let mut g = new_game();
    park_enemies(&mut g);
    let r = g.step_active(FrameKeys { movement: still(), fire: true, pause: false });
    assert!(r.fired);
    assert_eq!(g.player_proj, vec![Pos::new(225, 191)]);
    let mut frames = 1;
    while !g.player_proj.is_empty() {
        let y = g.player_proj[0].y;
        g.step_active(idle());
        frames += 1;
        if g.player_proj.is_empty() {
            assert!(y - 9 + 20 < 0);
        } else {
            assert!(g.player_proj[0].y + 20 >= 0);
        }
        park_enemies(&mut g);
    }
    assert_eq!(frames, 25);
}

#[test]
fn hit_respawns_enemy_scores_and_removes_shot() {
    let mut g = new_game();
    park_enemies(&mut g);
    g.enemies[0] = Pos::new(100, 100);
    g.player_proj = vec![Pos::new(110, 140)];
    let r = g.step_active(idle());
    assert_eq!(r.enemy_hits, 1);
    assert_eq!(g.score, 1);
    assert!(g.player_proj.is_empty());
    let e = g.enemies[0];
    assert!(50 <= e.x && e.x <= 650);
    // sent back 800 to 1000, then one step down
    assert!(100 - 1000 + 1 <= e.y && e.y <= 100 - 800 + 1);
}

#[test]
fn one_shot_can_hit_two_enemies() {
    let l = layout();
    let mut enemies: Vec<Pos> = (0..10).map(|_| Pos::new(650, -5000)).collect();
    enemies[2] = Pos::new(100, 100);
    enemies[5] = Pos::new(105, 110);
    let mut shots = vec![Pos::new(110, 140), Pos::new(400, 400)];
    assert_eq!(advance_player_shots(&mut shots, &mut enemies, &l), 2);
    assert_eq!(shots, vec![Pos::new(400, 391)]);
    assert!(100 - 1000 <= enemies[2].y && enemies[2].y <= 100 - 800);
    assert!(110 - 1000 <= enemies[5].y && enemies[5].y <= 110 - 800);
    assert_eq!(enemies[0], Pos::new(650, -5000));
}

#[test]
fn enemy_shot_costs_a_life_and_starts_blinking() {
    let mut g = new_game();
    park_enemies(&mut g);
    g.enemy_proj = vec![Pos::new(210, 190), Pos::new(215, 190)];
    let r = g.step_active(idle());
    assert!(r.player_hit);
    assert_eq!(g.player.lives_left, 2);
    assert_eq!(g.state, GameState::Active);
    assert_eq!(g.hit_dur, HIT_FRAMES - 1);
    assert!(g.hit_toggle);
    assert!(!r.player_visible);
    // the second shot passed through the player, who was already hit
    assert_eq!(g.enemy_proj, vec![Pos::new(215, 195)]);
}

#[test]
fn enemy_shots_fall_and_leave_below_screen() {
    let l = layout();
    let target = Rect::new(0, 0, 10, 10);
    let mut shots = vec![Pos::new(300, 896), Pos::new(300, 895), Pos::new(300, 10)];
    assert!(!advance_enemy_shots(&mut shots, target, true, &l));
    assert_eq!(shots, vec![Pos::new(300, 900), Pos::new(300, 15)]);
}

#[test]
fn no_fire_while_recovering() {
    let mut g = new_game();
    park_enemies(&mut g);
    g.hit_dur = 50;
    let r = g.step_active(FrameKeys { movement: still(), fire: true, pause: false });
    assert!(!r.fired);
    assert!(g.player_proj.is_empty());
    assert_eq!(g.hit_dur, 49);
}

#[test]
fn last_life_hit_ends_game_without_going_negative() {
    let mut g = new_game();
    park_enemies(&mut g);
    g.player.lives_left = 0;
    g.score = 7;
    g.enemy_proj = vec![Pos::new(210, 190)];
    let r = g.step_active(idle());
    assert!(r.player_hit);
    assert_eq!(g.player.lives_left, 0);
    assert_eq!(g.state, GameState::GameOver);
    assert_eq!(g.high_score, 7);
}

#[test]
fn restart_resets_the_game() {
    let mut g = new_game();
    park_enemies(&mut g);
    g.player.lives_left = 0;
    g.score = 4;
    g.player_proj = vec![Pos::new(300, 300)];
    g.enemy_proj = vec![Pos::new(210, 190), Pos::new(500, 500)];
    g.step_active(idle());
    assert_eq!(g.state, GameState::GameOver);
    assert!(g.step_game_over(false, false));
    assert_eq!(g.state, GameState::GameOver);
    assert!(g.step_game_over(true, false));
    assert_eq!(g.state, GameState::Active);
    assert_eq!(g.score, 0);
    assert_eq!(g.player.lives_left, 3);
    assert_eq!((g.player.x, g.player.y), (200, 200));
    assert!(g.player_proj.is_empty());
    assert!(g.enemy_proj.is_empty());
    assert_eq!(g.enemies.len(), 10);
    for (i, e) in g.enemies.iter().enumerate() {
        let k = i as i64 + 1;
        assert!(50 <= e.x && e.x <= 650);
        assert!(-150 * k <= e.y && e.y <= -50 * k);
    }
    assert_eq!(g.hit_dur, 0);
    assert_eq!(g.high_score, 4);
}

#[test]
fn exit_from_game_over_ends_session() {
    let mut g = new_game();
    park_enemies(&mut g);
    g.player.lives_left = 0;
    g.enemy_proj = vec![Pos::new(210, 190)];
    g.step_active(idle());
    assert!(!g.step_game_over(false, true));
}

fn finish_game_with(g: &mut Game, score: u64) {
    park_enemies(g);
    g.score = score;
    g.player.lives_left = 0;
    g.hit_dur = 0;
    g.enemy_proj = vec![Pos::new(g.player.x + 10, g.player.y - 10)];
    g.step_active(idle());
    assert_eq!(g.state, GameState::GameOver);
}

#[test]
fn high_score_keeps_the_best_game() {
    let mut g = new_game();
    finish_game_with(&mut g, 5);
    assert_eq!(g.high_score, 5);
    g.step_game_over(true, false);
    finish_game_with(&mut g, 3);
    g.step_game_over(false, false);
    assert_eq!(g.high_score, 5);
    g.step_game_over(true, false);
    finish_game_with(&mut g, 9);
    assert_eq!(g.high_score, 9);
}

#[test]
fn pause_and_resume() {
    let mut g = new_game();
    park_enemies(&mut g);
    let r = g.step_active(FrameKeys {
        movement: Movement { up: false, down: false, left: false, right: true },
        fire: false,
        pause: true,
    });
    assert!(r.paused);
    assert_eq!(g.state, GameState::Paused);
    assert_eq!(g.player.x, 205);
    assert_eq!(g.enemies[0], Pos::new(650, -5000));
    assert!(g.step_paused(false, false));
    assert_eq!(g.state, GameState::Paused);
    assert!(!g.step_paused(false, true));
    assert!(g.step_paused(true, false));
    assert_eq!(g.state, GameState::Active);
}

#[test]
fn enemy_fires_on_multiples_of_one_hundred() {
    let l = layout();
    let mut enemies: Vec<Pos> = (0..10).map(|_| Pos::new(650, -5000)).collect();
    enemies[1] = Pos::new(300, 99);
    enemies[3] = Pos::new(200, 150);
    enemies[4] = Pos::new(400, -101);
    let mut shots = vec![Pos::new(1, 1)];
    advance_enemies(&mut enemies, &mut shots, &l);
    assert_eq!(shots, vec![Pos::new(1, 1), Pos::new(320, 100)]);
    assert_eq!(enemies[1], Pos::new(300, 100));
    assert_eq!(enemies[3], Pos::new(200, 151));
    assert_eq!(enemies[4], Pos::new(400, -100));
}

#[test]
fn enemy_below_screen_respawns_above() {
    let l = layout();
    let mut enemies: Vec<Pos> = (0..10).map(|_| Pos::new(650, -5000)).collect();
    enemies[0] = Pos::new(300, 900);
    let mut shots = Vec::new();
    advance_enemies(&mut enemies, &mut shots, &l);
    assert!(shots.is_empty());
    let e = enemies[0];
    assert!(50 <= e.x && e.x <= 650);
    assert!(901 - 1000 <= e.y && e.y <= 901 - 800);
    assert!(enemies.iter().all(|e| e.y <= 900));
}

#[test]
fn score_room_counts_every_possible_hit() {
    let mut g = new_game();
    assert!(g.score_has_room());
    g.score = u64::MAX - 10;
    assert!(g.score_has_room());
    g.player_proj = vec![Pos::new(1, 1)];
    assert!(!g.score_has_room());
}
