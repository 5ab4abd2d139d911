//! End-to-end checks of the simulation core on concrete values: exact
//! movement arithmetic, confinement, direction bounces, timer periods,
//! strict collision thresholds, and the spawning rules.

use meteor_dodge::collision::enemy_hit_player;
use meteor_dodge::collision::meteor_collision;
use meteor_dodge::collision::HIT_RADIUS_UPX;
use meteor_dodge::collision::METEOR_HIT_RADIUS_UPX;
use meteor_dodge::game::tick;
use meteor_dodge::math::isqrt;
use meteor_dodge::math::normalize;
use meteor_dodge::math::within;
use meteor_dodge::math::Vec2;
use meteor_dodge::movement::confine_movement;
use meteor_dodge::movement::enemy_movement;
use meteor_dodge::movement::meteor_movement;
use meteor_dodge::movement::player_movement;
use meteor_dodge::movement::update_enemy_direction;
use meteor_dodge::spawn::enemy_from_random;
use meteor_dodge::spawn::frac_milli;
use meteor_dodge::spawn::meteor_from_random;
use meteor_dodge::spawn::setup_enemies;
use meteor_dodge::spawn::spawn_enemies;
use meteor_dodge::spawn::spawn_meteor;
use meteor_dodge::timer::meteor_countdown;
use meteor_dodge::timer::timer_countdown;
use meteor_dodge::timer::EnemySpawnTimer;
use meteor_dodge::timer::MeteorSpawnTimer;
use meteor_dodge::timer::Timer;
use meteor_dodge::world::spawn_player;
use meteor_dodge::world::Enemy;
use meteor_dodge::world::EnemyEntity;
use meteor_dodge::world::KeyInput;
use meteor_dodge::world::Meteor;
use meteor_dodge::world::MeteorEntity;
use meteor_dodge::world::Player;
use meteor_dodge::world::PlayerEntity;
use meteor_dodge::world::Window;
use meteor_dodge::world::World;

fn no_keys() -> KeyInput {
    KeyInput {
        left: false,
        a: false,
        right: false,
        d: false,
        up: false,
        w: false,
        down: false,
        s: false,
    }
}

fn window_800x600() -> Window {
    Window { width: 800, height: 600 }
}

fn player_at(x: i64, y: i64) -> PlayerEntity {
    PlayerEntity { player: Player { velocity: Vec2 { x: 0, y: 0 } }, position: Vec2 { x, y } }
}

fn enemy_at(x: i64, y: i64, dx: i64, dy: i64) -> EnemyEntity {
    EnemyEntity { enemy: Enemy { direction: Vec2 { x: dx, y: dy } }, position: Vec2 { x, y } }
}

fn meteor_at(x: i64, y: i64) -> MeteorEntity {
    MeteorEntity { meteor: Meteor { direction: Vec2 { x: 0, y: -1000 } }, position: Vec2 { x, y } }
}

#[test]
fn isqrt_exact_and_between() {
    assert_eq!(isqrt(0), 0);
    assert_eq!(isqrt(1), 1);
    assert_eq!(isqrt(3), 1);
    assert_eq!(isqrt(4), 2);
    assert_eq!(isqrt(999999), 999);
    assert_eq!(isqrt(1000000), 1000);
    assert_eq!(isqrt(1000000000000), 1000000);
}

#[test]
fn normalize_axis_and_pythagorean() {
    assert_eq!(normalize(Vec2 { x: 1000000, y: 0 }), Vec2 { x: 1000, y: 0 });
    assert_eq!(normalize(Vec2 { x: 3, y: 4 }), Vec2 { x: 600, y: 800 });
    assert_eq!(normalize(Vec2 { x: -3, y: 4 }), Vec2 { x: -600, y: 800 });
    assert_eq!(normalize(Vec2 { x: 0, y: -7 }), Vec2 { x: 0, y: -1000 });
}

#[test]
fn within_is_strict_at_threshold() {
    let a = Vec2 { x: 0, y: 0 };
    assert!(!within(a, Vec2 { x: 86000000, y: 0 }, 86000000));
    assert!(within(a, Vec2 { x: 85999999, y: 0 }, 86000000));
    assert!(within(a, Vec2 { x: 0, y: 0 }, 1));
    assert!(!within(a, Vec2 { x: 0, y: 0 }, 0));
}

#[test]
fn timer_default_periods() {
    let e = EnemySpawnTimer::default();
    let m = MeteorSpawnTimer::default();
    assert_eq!(e.timer.period_ms, 5000);
    assert_eq!(m.timer.period_ms, 10000);
    assert_eq!(e.timer.acc_ms, 0);
    assert_eq!(m.timer.times_finished, 0);
}

#[test]
fn enemy_timer_fires_on_third_advance() {
    // Period 5.0 s; three advances of 2.0 s: finished exactly once, on the
    // tick where the cumulative time reaches 5.0 s.
    let mut t = EnemySpawnTimer::default();
    timer_countdown(&mut t, 2000);
    assert_eq!(t.timer.times_finished, 0);
    timer_countdown(&mut t, 2000);
    assert_eq!(t.timer.times_finished, 0);
    timer_countdown(&mut t, 2000);
    assert_eq!(t.timer.times_finished, 1);
    assert_eq!(t.timer.acc_ms, 1000);
}

#[test]
fn timer_fires_once_per_period_exact_total() {
    // Four advances summing to exactly two periods: two finishes in all and
    // an empty accumulator at the end.
    let mut t = Timer::new(5000);
    let mut fired: u64 = 0;
    for _ in 0..4 {
        t.tick(2500);
        fired += t.times_finished;
    }
    assert_eq!(fired, 2);
    assert_eq!(t.acc_ms, 0);
}

#[test]
fn timer_counts_every_boundary_in_one_tick() {
    let mut t = Timer::new(1000);
    t.tick(3500);
    assert_eq!(t.times_finished, 3);
    assert_eq!(t.acc_ms, 500);
}

#[test]
fn meteor_timer_counts_down_independently() {
    let mut t = MeteorSpawnTimer::default();
    meteor_countdown(&mut t, 9999);
    assert_eq!(t.timer.times_finished, 0);
    meteor_countdown(&mut t, 1);
    assert_eq!(t.timer.times_finished, 1);
    assert_eq!(t.timer.acc_ms, 0);
}

#[test]
fn player_velocity_single_right_press() {
    // One tick pressing only "right" with elapsed 0.1 s at player speed 70:
    // raw accumulation one pixel, no clamp, normalize to the unit right
    // vector, final velocity exactly 7 pixels; the position advances by it.
    let mut w = World::new();
    w.player = Some(player_at(100000000, 100000000));
    let keys = KeyInput { right: true, ..no_keys() };
    player_movement(&mut w, keys, 100);
    let p = w.player.unwrap();
    assert_eq!(p.player.velocity, Vec2 { x: 7000000, y: 0 });
    assert_eq!(p.position, Vec2 { x: 107000000, y: 100000000 });
}

#[test]
fn player_velocity_accumulates_across_ticks() {
    // The stored velocity carries over: a second rightward press lands on
    // the accumulated value and the clamp takes hold.
    let mut w = World::new();
    w.player = Some(player_at(100000000, 100000000));
    let keys = KeyInput { d: true, ..no_keys() };
    player_movement(&mut w, keys, 100);
    player_movement(&mut w, keys, 100);
    let p = w.player.unwrap();
    assert_eq!(p.player.velocity, Vec2 { x: 7000000, y: 0 });
    assert_eq!(p.position, Vec2 { x: 114000000, y: 100000000 });
}

#[test]
fn player_velocity_no_lower_clamp() {
    // Downward accumulation is not clamped from below; the normalized
    // velocity points straight down.
    let mut w = World::new();
    w.player = Some(player_at(100000000, 100000000));
    let keys = KeyInput { s: true, ..no_keys() };
    player_movement(&mut w, keys, 100);
    let p = w.player.unwrap();
    assert_eq!(p.player.velocity, Vec2 { x: 0, y: -7000000 });
    assert_eq!(p.position, Vec2 { x: 100000000, y: 93000000 });
}

#[test]
fn player_without_input_keeps_position() {
    let mut w = World::new();
    w.player = Some(player_at(100000000, 100000000));
    player_movement(&mut w, no_keys(), 100);
    let p = w.player.unwrap();
    assert_eq!(p.player.velocity, Vec2 { x: 0, y: 0 });
    assert_eq!(p.position, Vec2 { x: 100000000, y: 100000000 });
}

#[test]
fn enemy_moves_by_direction_speed_elapsed() {
    // Exact integration: direction (600, -800), speed 70, elapsed 0.5 s
    // gives displacement (600*70*500, -800*70*500) micro-pixels.
    let mut w = World::new();
    w.enemies.push(enemy_at(100000000, 200000000, 600, -800));
    enemy_movement(&mut w, 500);
    let e = w.enemies[0];
    assert_eq!(e.position, Vec2 { x: 121000000, y: 172000000 });
    assert_eq!(e.enemy.direction, Vec2 { x: 600, y: -800 });
}

#[test]
fn meteor_falls_by_speed_with_x_pinned() {
    // One tick of 1.0 s at meteor speed 200 drops the meteor by exactly
    // 200 pixels; the horizontal position is pinned.
    let mut w = World::new();
    w.meteors.push(meteor_at(300000000, 600000000));
    meteor_movement(&mut w, 1000);
    let m = w.meteors[0];
    assert_eq!(m.position, Vec2 { x: 300000000, y: 400000000 });
}

#[test]
fn confine_clamps_into_window() {
    let win = window_800x600();
    let mut w = World::new();
    w.player = Some(player_at(-5000000, 590000000));
    confine_movement(&mut w, win);
    let p = w.player.unwrap();
    assert_eq!(p.position, Vec2 { x: 32000000, y: 568000000 });

    let mut w2 = World::new();
    w2.player = Some(player_at(400000000, 300000000));
    confine_movement(&mut w2, win);
    assert_eq!(w2.player.unwrap().position, Vec2 { x: 400000000, y: 300000000 });
}

#[test]
fn confine_keeps_boundary_positions() {
    let win = window_800x600();
    let mut w = World::new();
    w.player = Some(player_at(32000000, 568000000));
    confine_movement(&mut w, win);
    assert_eq!(w.player.unwrap().position, Vec2 { x: 32000000, y: 568000000 });
}

#[test]
fn enemy_direction_flips_only_out_of_band() {
    let win = window_800x600();
    let mut w = World::new();
    // Left of the band: x flips. Below nothing: y inside its band, kept.
    w.enemies.push(enemy_at(53999999, 300000000, 600, 800));
    // Exactly on the band edge: not outside, kept.
    w.enemies.push(enemy_at(54000000, 300000000, 600, 800));
    // Above the vertical band: y flips.
    w.enemies.push(enemy_at(400000000, 546000001, 600, 800));
    update_enemy_direction(&mut w, win);
    assert_eq!(w.enemies[0].enemy.direction, Vec2 { x: -600, y: 800 });
    assert_eq!(w.enemies[1].enemy.direction, Vec2 { x: 600, y: 800 });
    assert_eq!(w.enemies[2].enemy.direction, Vec2 { x: 600, y: -800 });
    assert_eq!(w.enemies[0].position, Vec2 { x: 53999999, y: 300000000 });
}

#[test]
fn enemy_on_player_ends_game() {
    // Player and enemy both at pixel (100, 100): distance 0 is under the
    // 86-pixel threshold, the player is destroyed and game over is signalled.
    let mut w = World::new();
    w.player = Some(player_at(100000000, 100000000));
    w.enemies.push(enemy_at(100000000, 100000000, 600, 800));
    enemy_hit_player(&mut w);
    assert!(w.player.is_none());
    assert!(w.game_over);
    assert_eq!(w.enemies.len(), 1);
}

#[test]
fn enemy_at_exact_threshold_spares_player() {
    let mut w = World::new();
    w.player = Some(player_at(100000000, 100000000));
    w.enemies.push(enemy_at(100000000 + HIT_RADIUS_UPX, 100000000, 600, 800));
    enemy_hit_player(&mut w);
    assert!(w.player.is_some());
    assert!(!w.game_over);
}

#[test]
fn many_close_enemies_destroy_player_once() {
    let mut w = World::new();
    w.player = Some(player_at(100000000, 100000000));
    w.enemies.push(enemy_at(100000000, 100000000, 600, 800));
    w.enemies.push(enemy_at(110000000, 100000000, 600, 800));
    w.enemies.push(enemy_at(100000000, 110000000, 600, 800));
    enemy_hit_player(&mut w);
    assert!(w.player.is_none());
    assert!(w.game_over);
    assert_eq!(w.enemies.len(), 3);
}

#[test]
fn meteor_on_player_ends_game() {
    let mut w = World::new();
    w.player = Some(player_at(100000000, 100000000));
    w.meteors.push(meteor_at(100000000 + METEOR_HIT_RADIUS_UPX - 1, 100000000));
    meteor_collision(&mut w);
    assert!(w.player.is_none());
    assert!(w.game_over);
}

#[test]
fn meteor_at_exact_threshold_spares_player() {
    let mut w = World::new();
    w.player = Some(player_at(100000000, 100000000));
    w.meteors.push(meteor_at(100000000 + METEOR_HIT_RADIUS_UPX, 100000000));
    meteor_collision(&mut w);
    assert!(w.player.is_some());
    assert!(!w.game_over);
}

#[test]
fn meteor_destroys_close_enemies_quietly() {
    let mut w = World::new();
    w.player = Some(player_at(700000000, 100000000));
    w.meteors.push(meteor_at(100000000, 100000000));
    w.enemies.push(enemy_at(100000000, 100000000, 600, 800));
    w.enemies.push(enemy_at(100000000 + HIT_RADIUS_UPX, 100000000, 600, 800));
    w.enemies.push(enemy_at(100000000, 150000000, 600, 800));
    meteor_collision(&mut w);
    // The enemy on the meteor and the one 50 pixels away are destroyed; the
    // one exactly at the threshold survives. The distant player is spared.
    assert_eq!(w.enemies.len(), 1);
    assert_eq!(w.enemies[0].position, Vec2 { x: 100000000 + HIT_RADIUS_UPX, y: 100000000 });
    assert!(w.player.is_some());
    assert!(!w.game_over);
}

#[test]
fn meteor_sweeps_enemies_even_without_player() {
    // The enemy-meteor rule applies to every live enemy whenever a meteor
    // exists, player or no player; no game-over is signalled for it.
    let mut w = World::new();
    w.meteors.push(meteor_at(100000000, 100000000));
    w.enemies.push(enemy_at(100000000, 100000000, 600, 800));
    w.enemies.push(enemy_at(100000000 + HIT_RADIUS_UPX, 100000000, 600, 800));
    meteor_collision(&mut w);
    assert_eq!(w.enemies.len(), 1);
    assert_eq!(w.enemies[0].position, Vec2 { x: 100000000 + HIT_RADIUS_UPX, y: 100000000 });
    assert!(w.player.is_none());
    assert!(!w.game_over);
}

#[test]
fn spawn_player_at_window_center() {
    let mut w = World::new();
    spawn_player(&mut w, window_800x600());
    let p = w.player.unwrap();
    assert_eq!(p.position, Vec2 { x: 400000000, y: 300000000 });
    assert_eq!(p.player.velocity, Vec2 { x: 0, y: 0 });
}

#[test]
fn frac_milli_reduces_draws() {
    assert_eq!(frac_milli(0), 0);
    assert_eq!(frac_milli(1234), 234);
    assert_eq!(frac_milli(999), 999);
    assert_eq!(frac_milli(1000), 0);
}

#[test]
fn enemy_from_random_exact_position_and_direction() {
    let e = enemy_from_random(window_800x600(), 1234, 500, 3, 4);
    // x: 234/1000 of 800 pixels; y: half of 600 pixels; direction is the
    // normalized (3, 4), the 3-4-5 triangle.
    assert_eq!(e.position, Vec2 { x: 187200000, y: 300000000 });
    assert_eq!(e.enemy.direction, Vec2 { x: 600, y: 800 });
}

#[test]
fn enemy_direction_from_small_draws_is_near_unit() {
    // Draws reducing to (1, 1) point diagonally with unit length up to
    // rounding, not to the raw fraction vector.
    let e = enemy_from_random(window_800x600(), 0, 0, 1, 1);
    assert_eq!(e.enemy.direction, Vec2 { x: 707, y: 707 });
    let len_sq = e.enemy.direction.x * e.enemy.direction.x + e.enemy.direction.y
        * e.enemy.direction.y;
    assert!(997 * 997 <= len_sq && len_sq <= 1001 * 1001);
}

#[test]
fn enemy_from_zero_direction_draw_is_stationary() {
    let e = enemy_from_random(window_800x600(), 0, 0, 0, 1000);
    assert_eq!(e.position, Vec2 { x: 0, y: 0 });
    assert_eq!(e.enemy.direction, Vec2 { x: 0, y: 0 });
}

#[test]
fn meteor_from_random_hangs_above_top_edge() {
    let m = meteor_from_random(window_800x600(), 5, 250);
    // y: window height plus 5/1000 of the 20-pixel offset; x: a quarter of
    // 800 pixels; direction straight down.
    assert_eq!(m.position, Vec2 { x: 200000000, y: 600100000 });
    assert_eq!(m.meteor.direction, Vec2 { x: 0, y: -1000 });
}

#[test]
fn meteor_spawn_then_one_second_fall() {
    // A spawned meteor starts at window_height + r with r in [0, 20) pixels
    // and after one tick of 1.0 s at speed 200 sits exactly 200 pixels
    // lower.
    let win = window_800x600();
    let m = meteor_from_random(win, 999, 0);
    let spawn_y = m.position.y;
    assert!(600000000 <= spawn_y && spawn_y < 620000000);
    let mut w = World::new();
    w.meteors.push(m);
    meteor_movement(&mut w, 1000);
    assert_eq!(w.meteors[0].position.y, spawn_y - 200000000);
}

#[test]
fn setup_enemies_adds_batch_inside_window() {
    let win = window_800x600();
    let mut w = World::new();
    setup_enemies(&mut w, win);
    assert_eq!(w.enemies.len(), 4);
    for e in w.enemies.iter() {
        assert!(0 <= e.position.x && e.position.x < 800000000);
        assert!(0 <= e.position.y && e.position.y < 600000000);
        let len_sq = e.enemy.direction.x * e.enemy.direction.x + e.enemy.direction.y
            * e.enemy.direction.y;
        assert!(len_sq == 0 || (997 * 997 <= len_sq && len_sq <= 1001 * 1001));
    }
}

#[test]
fn spawn_enemies_only_when_timer_finished() {
    let win = window_800x600();
    let mut w = World::new();
    let mut t = EnemySpawnTimer::default();
    timer_countdown(&mut t, 4999);
    spawn_enemies(&mut w, win, &t);
    assert_eq!(w.enemies.len(), 0);
    timer_countdown(&mut t, 1);
    spawn_enemies(&mut w, win, &t);
    assert_eq!(w.enemies.len(), 1);
    assert!(w.enemies[0].position.x < 800000000);
}

#[test]
fn spawn_meteor_only_when_timer_finished() {
    let win = window_800x600();
    let mut w = World::new();
    let mut t = MeteorSpawnTimer::default();
    meteor_countdown(&mut t, 9999);
    spawn_meteor(&mut w, win, &t);
    assert_eq!(w.meteors.len(), 0);
    meteor_countdown(&mut t, 1);
    spawn_meteor(&mut w, win, &t);
    assert_eq!(w.meteors.len(), 1);
    assert_eq!(w.meteors[0].meteor.direction, Vec2 { x: 0, y: -1000 });
    assert!(w.meteors[0].position.y >= 600000000);
}

#[test]
fn player_velocity_zero_elapsed_clamps_to_zero() {
    // With no elapsed time the cap is zero, so any nonnegative accumulation
    // is clamped away and the player does not move.
    let mut w = World::new();
    w.player = Some(player_at(100000000, 100000000));
    let keys = KeyInput { right: true, ..no_keys() };
    player_movement(&mut w, keys, 0);
    let p = w.player.unwrap();
    assert_eq!(p.player.velocity, Vec2 { x: 0, y: 0 });
    assert_eq!(p.position, Vec2 { x: 100000000, y: 100000000 });
}

#[test]
fn enemy_direction_flips_on_both_axes_in_corner() {
    let win = window_800x600();
    let mut w = World::new();
    w.enemies.push(enemy_at(10000000, 590000000, 600, 800));
    update_enemy_direction(&mut w, win);
    assert_eq!(w.enemies[0].enemy.direction, Vec2 { x: -600, y: -800 });
}

#[test]
fn tick_detects_fatal_collision() {
    // A whole frame on an overlapping player and enemy, with no elapsed
    // time: nothing moves, nothing spawns, the collision check fires.
    let win = window_800x600();
    let mut w = World::new();
    w.player = Some(player_at(100000000, 100000000));
    w.enemies.push(enemy_at(100000000, 100000000, 600, 800));
    let mut et = EnemySpawnTimer::default();
    let mut mt = MeteorSpawnTimer::default();
    tick(&mut w, win, no_keys(), 0, &mut et, &mut mt);
    assert!(w.player.is_none());
    assert!(w.game_over);
    assert_eq!(w.enemies.len(), 1);
    assert_eq!(w.meteors.len(), 0);
}

#[test]
fn tick_runs_a_frame_and_keeps_game_over() {
    let win = window_800x600();
    let mut w = World::new();
    spawn_player(&mut w, win);
    let mut et = EnemySpawnTimer::default();
    let mut mt = MeteorSpawnTimer::default();
    let keys = KeyInput { right: true, ..no_keys() };
    tick(&mut w, win, keys, 16, &mut et, &mut mt);
    assert_eq!(et.timer.acc_ms, 16);
    // A destroyed player never returns and the game-over flag never clears.
    let mut w2 = World::new();
    w2.game_over = true;
    tick(&mut w2, win, no_keys(), 16, &mut et, &mut mt);
    assert!(w2.player.is_none());
    assert!(w2.game_over);
}
