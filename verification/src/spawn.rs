//! Entity creation: the startup batch of enemies, and the timer-gated
//! periodic spawning of enemies and meteors at randomized positions.
//!
//! Randomness enters through one trusted draw of a raw `u32`; everything
//! computed from a draw is verified, so each spawned entity provably lands
//! where the spawning rule says, whatever was drawn.

use vstd::prelude::*;
use crate::math::Vec2;
use crate::math::normalize;
use crate::math::unit_of;
use crate::math::lemma_unit_of_near_unit;
use crate::world::World;
use crate::world::EnemyEntity;
use crate::world::MeteorEntity;
use crate::world::Enemy;
use crate::world::Meteor;
use crate::world::Window;
use crate::world::STEP_LIMIT;
use crate::timer::EnemySpawnTimer;
use crate::timer::MeteorSpawnTimer;
use crate::MILLI;
use crate::MICRO;
use crate::METEOR_OFFSET;
use crate::NUM_ENEMIES;
use crate::COORD_LIMIT;

verus! {

/// Relies on rand::random: draws a `u32` from the thread's generator.
/// Nothing is assumed of the value; every caller handles any outcome.
#[verifier::external_body]
fn draw_u32() -> u32 {
    rand::random::<u32>()
}

/// The thousandths fraction a raw random draw stands for, in `[0, MILLI)`:
/// the draw reduced modulo `MILLI`.
pub open spec fn frac_of(r: u32) -> int {
    r as int % (MILLI as int)
}

/// Reduce a raw draw to its thousandths fraction.
pub fn frac_milli(r: u32) -> (f: i64)
    ensures
        f == frac_of(r),
        0 <= f < MILLI,
{
    (r % 1000) as i64
}

/// The micro-pixel coordinate a fraction picks inside a window side of `px`
/// pixels: `frac / MILLI` of the side, exactly; always in `[0, px)` pixels.
pub open spec fn spawn_coord(frac: int, px: int) -> int {
    frac * px * MILLI
}

/// The direction a pair of fractions gives a fresh enemy: the vector of the
/// two nonnegative fractions, brought to the `MILLI` scale and normalized,
/// so the result is unit length up to integer rounding. Both components are
/// drawn from `[0, MILLI)`, so the direction is biased toward the positive
/// quadrant; that is the spawning rule, not an accident. A doubly-zero draw
/// has no direction and yields a stationary enemy.
pub open spec fn direction_from(a: int, b: int) -> Vec2 {
    if a == 0 && b == 0 {
        Vec2 { x: 0, y: 0 }
    } else {
        unit_of(Vec2 { x: (a * MILLI) as i64, y: (b * MILLI) as i64 })
    }
}

/// Everything the spawning rule promises of a fresh enemy, whatever was
/// drawn: it lies inside the window box and is well formed, with a tick of
/// slack before the coordinate range, and its direction is unit length up to
/// integer rounding unless both direction draws were zero.
pub open spec fn enemy_spawned_in(window: Window, e: EnemyEntity) -> bool {
    &&& 0 <= e.position.x < window.width * MICRO
    &&& 0 <= e.position.y < window.height * MICRO
    &&& e.wf()
    &&& e.position.bounded(COORD_LIMIT - STEP_LIMIT as int)
    &&& (e.enemy.direction == (Vec2 { x: 0 as i64, y: 0 as i64 }) || ((MILLI - 3) * (MILLI - 3)
        <= e.enemy.direction.len_sq() <= (MILLI + 1) * (MILLI + 1)))
}

/// Everything the spawning rule promises of a fresh meteor, whatever was
/// drawn: it hangs less than `METEOR_OFFSET` pixels above the top edge,
/// within the window horizontally, pointed straight down, well formed.
pub open spec fn meteor_spawned_in(window: Window, m: MeteorEntity) -> bool {
    &&& 0 <= m.position.x < window.width * MICRO
    &&& window.height * MICRO <= m.position.y < window.height * MICRO + METEOR_OFFSET * MICRO
    &&& m.meteor.direction == (Vec2 { x: 0 as i64, y: (-MILLI) as i64 })
    &&& m.wf()
    &&& m.position.bounded(COORD_LIMIT - STEP_LIMIT as int)
}

/// Build the enemy a window and four raw draws determine: position picked
/// by the first two fractions inside the window, direction the normalized
/// vector of the last two.
pub fn enemy_from_random(window: Window, rx: u32, ry: u32, rdx: u32, rdy: u32) -> (e: EnemyEntity)
    requires
        window.wf(),
    ensures
        e.position.x == spawn_coord(frac_of(rx), window.width as int),
        e.position.y == spawn_coord(frac_of(ry), window.height as int),
        e.enemy.direction == direction_from(frac_of(rdx), frac_of(rdy)),
        enemy_spawned_in(window, e),
{
    let fx: i64 = frac_milli(rx);
    let fy: i64 = frac_milli(ry);
    proof {
        assert(0 <= fx * window.width * MILLI && fx * window.width * MILLI < window.width * MICRO
            && 0 <= fy * window.height * MILLI && fy * window.height * MILLI < window.height
            * MICRO) by (nonlinear_arith)
            requires
                0 <= fx < 1000,
                0 <= fy < 1000,
                1 <= window.width <= 1000000,
                1 <= window.height <= 1000000,
                MILLI == 1000,
                MICRO == 1000000,
        {}
    }
    let x: i64 = fx * window.width * MILLI;
    let y: i64 = fy * window.height * MILLI;
    let a: i64 = frac_milli(rdx);
    let b: i64 = frac_milli(rdy);
    let dir: Vec2 = if a == 0 && b == 0 {
        Vec2 { x: 0, y: 0 }
    } else {
        let sx: i64 = a * MILLI;
        let sy: i64 = b * MILLI;
        proof {
            assert(sx * sx + sy * sy >= MILLI * MILLI) by (nonlinear_arith)
                requires
                    sx == a * MILLI,
                    sy == b * MILLI,
                    0 <= a,
                    0 <= b,
                    !(a == 0 && b == 0),
                    MILLI == 1000,
            {}
            lemma_unit_of_near_unit(Vec2 { x: sx, y: sy });
        }
        normalize(Vec2 { x: sx, y: sy })
    };
    EnemyEntity { enemy: Enemy { direction: dir }, position: Vec2 { x, y } }
}

/// Build the meteor a window and two raw draws determine: the vertical draw
/// hangs it a fraction of `METEOR_OFFSET` above the top edge, the horizontal
/// draw picks a coordinate inside the window; it points straight down.
pub fn meteor_from_random(window: Window, ry: u32, rx: u32) -> (m: MeteorEntity)
    requires
        window.wf(),
    ensures
        m.position.x == spawn_coord(frac_of(rx), window.width as int),
        m.position.y == window.height * MICRO + frac_of(ry) * METEOR_OFFSET * MILLI,
        meteor_spawned_in(window, m),
{
    let fy: i64 = frac_milli(ry);
    let fx: i64 = frac_milli(rx);
    proof {
        assert(0 <= fx * window.width * MILLI && fx * window.width * MILLI < window.width * MICRO
            && 0 <= fy * METEOR_OFFSET * MILLI && fy * METEOR_OFFSET * MILLI < METEOR_OFFSET
            * MICRO) by (nonlinear_arith)
            requires
                0 <= fx < 1000,
                0 <= fy < 1000,
                1 <= window.width <= 1000000,
                MILLI == 1000,
                MICRO == 1000000,
                METEOR_OFFSET == 20,
        {}
    }
    let x: i64 = fx * window.width * MILLI;
    let y: i64 = window.height * MICRO + fy * METEOR_OFFSET * MILLI;
    MeteorEntity { meteor: Meteor { direction: Vec2 { x: 0, y: -MILLI } }, position: Vec2 { x, y } }
}

/// The startup batch: add `NUM_ENEMIES` enemies at randomized positions with
/// randomized directions, unconditionally.
pub fn setup_enemies(world: &mut World, window: Window)
    requires
        old(world).wf(),
        window.wf(),
        old(world).enemies@.len() + NUM_ENEMIES <= usize::MAX,
    ensures
        final(world).wf(),
        final(world).player == old(world).player,
        final(world).meteors@ == old(world).meteors@,
        final(world).game_over == old(world).game_over,
        final(world).enemies@.len() == old(world).enemies@.len() + NUM_ENEMIES,
        forall|i: int|
            0 <= i < old(world).enemies@.len() ==> final(world).enemies@[i] == old(
                world,
            ).enemies@[i],
        forall|i: int|
            old(world).enemies@.len() <= i < final(world).enemies@.len() ==> enemy_spawned_in(
                window,
                #[trigger] final(world).enemies@[i],
            ),
{
    let mut k: usize = 0;
    while k < NUM_ENEMIES
        invariant
            old(world).wf(),
            window.wf(),
            old(world).enemies@.len() + NUM_ENEMIES <= usize::MAX,
            k <= NUM_ENEMIES,
            world.player == old(world).player,
            world.meteors@ == old(world).meteors@,
            world.game_over == old(world).game_over,
            world.enemies@.len() == old(world).enemies@.len() + k,
            forall|i: int|
                0 <= i < old(world).enemies@.len() ==> world.enemies@[i] == old(
                    world,
                ).enemies@[i],
            forall|i: int|
                old(world).enemies@.len() <= i < world.enemies@.len() ==> enemy_spawned_in(
                    window,
                    #[trigger] world.enemies@[i],
                ),
        decreases NUM_ENEMIES - k,
    {
        let rx: u32 = draw_u32();
        let ry: u32 = draw_u32();
        let rdx: u32 = draw_u32();
        let rdy: u32 = draw_u32();
        let e: EnemyEntity = enemy_from_random(window, rx, ry, rdx, rdy);
        world.enemies.push(e);
        k = k + 1;
    }
}

/// When the enemy spawn timer has just finished, add one enemy at a
/// randomized position with a randomized direction; otherwise leave the
/// world untouched.
pub fn spawn_enemies(world: &mut World, window: Window, spawn_timer: &EnemySpawnTimer)
    requires
        old(world).wf(),
        window.wf(),
        old(world).enemies@.len() < usize::MAX,
    ensures
        final(world).wf(),
        final(world).player == old(world).player,
        final(world).meteors@ == old(world).meteors@,
        final(world).game_over == old(world).game_over,
        spawn_timer.timer.times_finished == 0 ==> final(world).enemies@ == old(world).enemies@,
        spawn_timer.timer.times_finished >= 1 ==> final(world).enemies@.len() == old(
            world,
        ).enemies@.len() + 1 && (forall|i: int|
            0 <= i < old(world).enemies@.len() ==> final(world).enemies@[i] == old(
                world,
            ).enemies@[i]) && enemy_spawned_in(window, final(world).enemies@.last()),
{
    if spawn_timer.timer.finished() {
        let rx: u32 = draw_u32();
        let ry: u32 = draw_u32();
        let rdx: u32 = draw_u32();
        let rdy: u32 = draw_u32();
        let e: EnemyEntity = enemy_from_random(window, rx, ry, rdx, rdy);
        world.enemies.push(e);
    }
}

/// When the meteor spawn timer has just finished, add one meteor just above
/// the top window edge at a randomized horizontal position, pointed straight
/// down; otherwise leave the world untouched. The vertical fraction is drawn
/// before the horizontal one.
pub fn spawn_meteor(world: &mut World, window: Window, spawn_timer: &MeteorSpawnTimer)
    requires
        old(world).wf(),
        window.wf(),
        old(world).meteors@.len() < usize::MAX,
    ensures
        final(world).wf(),
        final(world).player == old(world).player,
        final(world).enemies@ == old(world).enemies@,
        final(world).game_over == old(world).game_over,
        spawn_timer.timer.times_finished == 0 ==> final(world).meteors@ == old(world).meteors@,
        spawn_timer.timer.times_finished >= 1 ==> final(world).meteors@.len() == old(
            world,
        ).meteors@.len() + 1 && (forall|i: int|
            0 <= i < old(world).meteors@.len() ==> final(world).meteors@[i] == old(
                world,
            ).meteors@[i]) && meteor_spawned_in(window, final(world).meteors@.last()),
{
    if spawn_timer.timer.finished() {
        let ry: u32 = draw_u32();
        let rx: u32 = draw_u32();
        let m: MeteorEntity = meteor_from_random(window, ry, rx);
        world.meteors.push(m);
    }
}

} // verus!
