//! Per-tick motion: player input handling and integration, enemy and meteor
//! movement, confinement of the player to the window, and the reflective
//! direction bounce of enemies at the window edges.

use vstd::prelude::*;
use crate::math::Vec2;
use crate::math::normalize;
use crate::math::unit_of;
use crate::world::World;
use crate::world::PlayerEntity;
use crate::world::EnemyEntity;
use crate::world::MeteorEntity;
use crate::world::Player;
use crate::world::KeyInput;
use crate::world::Window;
use crate::world::VEL_LIMIT;
use crate::world::STEP_LIMIT;
use crate::MILLI;
use crate::MICRO;
use crate::PLAYER_SPEED;
use crate::ENEMY_SPEED;
use crate::METEOR_SPEED;
use crate::ELAPSED_MAX_MS;

verus! {

/// Micro-pixels in half the player sprite.
pub const SPRITE_HALF_UPX: i64 = 32000000;

/// Micro-pixels in half the enemy sprite.
pub const ENEMY_HALF_UPX: i64 = 54000000;

/// The per-axis cap on the player's velocity accumulator for a tick: the
/// distance the player speed covers in the elapsed time, in micro-pixels.
pub open spec fn vel_threshold(elapsed_ms: int) -> int {
    PLAYER_SPEED * elapsed_ms * MILLI
}

/// The horizontal accumulation step: each freshly pressed binding of
/// left/right adds one pixel of leftward/rightward velocity.
pub open spec fn accum_x(v: int, keys: KeyInput) -> int {
    v + (if keys.left || keys.a {
        -MICRO as int
    } else {
        0
    }) + (if keys.right || keys.d {
        MICRO as int
    } else {
        0
    })
}

/// The vertical accumulation step: each freshly pressed binding of up/down
/// adds one pixel of upward/downward velocity.
pub open spec fn accum_y(v: int, keys: KeyInput) -> int {
    v + (if keys.up || keys.w {
        MICRO as int
    } else {
        0
    }) + (if keys.down || keys.s {
        -MICRO as int
    } else {
        0
    })
}

/// The one-sided clamp the input step applies: values at or above the cap
/// are pulled down to it; there is no symmetric lower clamp.
pub open spec fn clamp_top(c: int, thr: int) -> int {
    if c >= thr {
        thr
    } else {
        c
    }
}

/// The velocity stored on the player after one input step: the carried
/// accumulator gains the pressed directions, each axis is clamped from
/// above, a nonzero result is normalized, and the unit direction is scaled
/// by the player speed and the elapsed time.
pub open spec fn velocity_after(v: Vec2, keys: KeyInput, elapsed_ms: int) -> Vec2 {
    let thr = vel_threshold(elapsed_ms);
    let cx = clamp_top(accum_x(v.x as int, keys), thr);
    let cy = clamp_top(accum_y(v.y as int, keys), thr);
    if cx == 0 && cy == 0 {
        Vec2 { x: 0, y: 0 }
    } else {
        let u = unit_of(Vec2 { x: cx as i64, y: cy as i64 });
        Vec2 {
            x: (u.x * PLAYER_SPEED * elapsed_ms) as i64,
            y: (u.y * PLAYER_SPEED * elapsed_ms) as i64,
        }
    }
}

/// One tick of player input and movement: recompute the stored velocity from
/// the freshly pressed keys and advance the position by exactly that
/// velocity. Without a player the world is untouched.
pub fn player_movement(world: &mut World, keys: KeyInput, elapsed_ms: u64)
    requires
        old(world).wf(),
        old(world).player_in_play(),
        elapsed_ms <= ELAPSED_MAX_MS,
    ensures
        final(world).wf(),
        final(world).enemies@ == old(world).enemies@,
        final(world).meteors@ == old(world).meteors@,
        final(world).game_over == old(world).game_over,
        old(world).player is None ==> final(world).player is None,
        old(world).player matches Some(p) ==> final(world).player matches Some(q) && {
            let vel = velocity_after(p.player.velocity, keys, elapsed_ms as int);
            &&& q.player.velocity == vel
            &&& q.position.x == p.position.x + vel.x
            &&& q.position.y == p.position.y + vel.y
        },
{
    if let Some(p) = world.player {
        let thr: i64 = PLAYER_SPEED * (elapsed_ms as i64) * MILLI;
        let mut cx: i64 = p.player.velocity.x;
        let mut cy: i64 = p.player.velocity.y;
        if keys.left || keys.a {
            cx = cx - MICRO;
        }
        if keys.right || keys.d {
            cx = cx + MICRO;
        }
        if keys.up || keys.w {
            cy = cy + MICRO;
        }
        if keys.down || keys.s {
            cy = cy - MICRO;
        }
        if cx >= thr {
            cx = thr;
        }
        if cy >= thr {
            cy = thr;
        }
        let vel: Vec2 = if cx == 0 && cy == 0 {
            Vec2 { x: 0, y: 0 }
        } else {
            proof {
                assert(cx * cx + cy * cy > 0) by (nonlinear_arith)
                    requires
                        !(cx == 0 && cy == 0),
                {}
            }
            let u: Vec2 = normalize(Vec2 { x: cx, y: cy });
            proof {
                assert(-VEL_LIMIT <= u.x * PLAYER_SPEED * elapsed_ms <= VEL_LIMIT
                    && -VEL_LIMIT <= u.y * PLAYER_SPEED * elapsed_ms <= VEL_LIMIT)
                    by (nonlinear_arith)
                    requires
                        -MILLI <= u.x <= MILLI,
                        -MILLI <= u.y <= MILLI,
                        0 <= elapsed_ms <= ELAPSED_MAX_MS,
                        MILLI == 1000,
                        ELAPSED_MAX_MS == 1000000,
                        PLAYER_SPEED == 70,
                        VEL_LIMIT == 70000000000,
                {}
            }
            Vec2 { x: u.x * PLAYER_SPEED * (elapsed_ms as i64), y: u.y * PLAYER_SPEED * (
            elapsed_ms as i64) }
        };
        let px: i64 = p.position.x + vel.x;
        let py: i64 = p.position.y + vel.y;
        world.player = Some(
            PlayerEntity { player: Player { velocity: vel }, position: Vec2 { x: px, y: py } },
        );
    }
}

/// The exact displacement of one entity kind over one tick: a `MILLI`-scaled
/// direction component times a speed in pixels per second times the elapsed
/// milliseconds is a displacement in micro-pixels.
pub open spec fn displacement(dir: int, speed: int, elapsed_ms: int) -> int {
    dir * speed * elapsed_ms
}

/// How one enemy moves in one tick: the position advances by direction times
/// enemy speed times elapsed time, exactly; the component is unchanged.
pub open spec fn enemy_moved(e0: EnemyEntity, e1: EnemyEntity, elapsed_ms: int) -> bool {
    &&& e1.enemy == e0.enemy
    &&& e1.position.x == e0.position.x + displacement(
        e0.enemy.direction.x as int,
        ENEMY_SPEED as int,
        elapsed_ms,
    )
    &&& e1.position.y == e0.position.y + displacement(
        e0.enemy.direction.y as int,
        ENEMY_SPEED as int,
        elapsed_ms,
    )
}

/// Advance every enemy by its direction times the enemy speed times the
/// elapsed time, exactly.
pub fn enemy_movement(world: &mut World, elapsed_ms: u64)
    requires
        old(world).wf(),
        old(world).enemies_in_play(),
        elapsed_ms <= ELAPSED_MAX_MS,
    ensures
        final(world).wf(),
        final(world).player == old(world).player,
        final(world).meteors@ == old(world).meteors@,
        final(world).game_over == old(world).game_over,
        final(world).enemies@.len() == old(world).enemies@.len(),
        forall|i: int|
            0 <= i < old(world).enemies@.len() ==> enemy_moved(
                old(world).enemies@[i],
                #[trigger] final(world).enemies@[i],
                elapsed_ms as int,
            ),
{
    let n: usize = world.enemies.len();
    let mut i: usize = 0;
    while i < n
        invariant
            old(world).wf(),
            old(world).enemies_in_play(),
            elapsed_ms <= ELAPSED_MAX_MS,
            i <= n,
            n == old(world).enemies@.len(),
            world.enemies@.len() == n,
            world.player == old(world).player,
            world.meteors@ == old(world).meteors@,
            world.game_over == old(world).game_over,
            forall|j: int|
                0 <= j < i ==> enemy_moved(
                    old(world).enemies@[j],
                    #[trigger] world.enemies@[j],
                    elapsed_ms as int,
                ),
            forall|j: int| 0 <= j < i ==> (#[trigger] world.enemies@[j]).wf(),
            forall|j: int| i <= j < n ==> world.enemies@[j] == old(world).enemies@[j],
        decreases n - i,
    {
        let e: EnemyEntity = world.enemies[i];
        proof {
            assert(-STEP_LIMIT <= e.enemy.direction.x * ENEMY_SPEED * elapsed_ms <= STEP_LIMIT
                && -STEP_LIMIT <= e.enemy.direction.y * ENEMY_SPEED * elapsed_ms <= STEP_LIMIT)
                by (nonlinear_arith)
                requires
                    -MILLI <= e.enemy.direction.x <= MILLI,
                    -MILLI <= e.enemy.direction.y <= MILLI,
                    0 <= elapsed_ms <= ELAPSED_MAX_MS,
                    MILLI == 1000,
                    ELAPSED_MAX_MS == 1000000,
                    ENEMY_SPEED == 70,
                    STEP_LIMIT == 1000000000000000,
            {}
        }
        let dx: i64 = e.enemy.direction.x * ENEMY_SPEED * (elapsed_ms as i64);
        let dy: i64 = e.enemy.direction.y * ENEMY_SPEED * (elapsed_ms as i64);
        world.enemies[i] = EnemyEntity {
            enemy: e.enemy,
            position: Vec2 { x: e.position.x + dx, y: e.position.y + dy },
        };
        i = i + 1;
    }
}

/// How one meteor moves in one tick: only the vertical direction component
/// is applied, at meteor speed; the horizontal position stays pinned.
pub open spec fn meteor_moved(m0: MeteorEntity, m1: MeteorEntity, elapsed_ms: int) -> bool {
    &&& m1.meteor == m0.meteor
    &&& m1.position.x == m0.position.x
    &&& m1.position.y == m0.position.y + displacement(
        m0.meteor.direction.y as int,
        METEOR_SPEED as int,
        elapsed_ms,
    )
}

/// Advance every meteor vertically by its direction times the meteor speed
/// times the elapsed time, exactly; horizontal positions are pinned.
pub fn meteor_movement(world: &mut World, elapsed_ms: u64)
    requires
        old(world).wf(),
        old(world).meteors_in_play(),
        elapsed_ms <= ELAPSED_MAX_MS,
    ensures
        final(world).wf(),
        final(world).player == old(world).player,
        final(world).enemies@ == old(world).enemies@,
        final(world).game_over == old(world).game_over,
        final(world).meteors@.len() == old(world).meteors@.len(),
        forall|i: int|
            0 <= i < old(world).meteors@.len() ==> meteor_moved(
                old(world).meteors@[i],
                #[trigger] final(world).meteors@[i],
                elapsed_ms as int,
            ),
{
    let n: usize = world.meteors.len();
    let mut i: usize = 0;
    while i < n
        invariant
            old(world).wf(),
            old(world).meteors_in_play(),
            elapsed_ms <= ELAPSED_MAX_MS,
            i <= n,
            n == old(world).meteors@.len(),
            world.meteors@.len() == n,
            world.player == old(world).player,
            world.enemies@ == old(world).enemies@,
            world.game_over == old(world).game_over,
            forall|j: int|
                0 <= j < i ==> meteor_moved(
                    old(world).meteors@[j],
                    #[trigger] world.meteors@[j],
                    elapsed_ms as int,
                ),
            forall|j: int| 0 <= j < i ==> (#[trigger] world.meteors@[j]).wf(),
            forall|j: int| i <= j < n ==> world.meteors@[j] == old(world).meteors@[j],
        decreases n - i,
    {
        let m: MeteorEntity = world.meteors[i];
        proof {
            assert(-STEP_LIMIT <= m.meteor.direction.y * METEOR_SPEED * elapsed_ms <= STEP_LIMIT)
                by (nonlinear_arith)
                requires
                    -MILLI <= m.meteor.direction.y <= MILLI,
                    0 <= elapsed_ms <= ELAPSED_MAX_MS,
                    MILLI == 1000,
                    ELAPSED_MAX_MS == 1000000,
                    METEOR_SPEED == 200,
                    STEP_LIMIT == 1000000000000000,
            {}
        }
        let dy: i64 = m.meteor.direction.y * METEOR_SPEED * (elapsed_ms as i64);
        world.meteors[i] = MeteorEntity {
            meteor: m.meteor,
            position: Vec2 { x: m.position.x, y: m.position.y + dy },
        };
        i = i + 1;
    }
}

/// The hard per-axis clamp of the confinement step: positions left of `lo`
/// land on `lo`, positions right of `hi` land on `hi`, others are kept.
pub open spec fn confine_axis(x: int, lo: int, hi: int) -> int {
    if x < lo {
        lo
    } else if x > hi {
        hi
    } else {
        x
    }
}

/// Clamp the player into the window rectangle, half a sprite away from each
/// edge, axis by axis. Enemies and meteors are left alone.
pub fn confine_movement(world: &mut World, window: Window)
    requires
        old(world).wf(),
        window.wf(),
    ensures
        final(world).wf(),
        final(world).enemies@ == old(world).enemies@,
        final(world).meteors@ == old(world).meteors@,
        final(world).game_over == old(world).game_over,
        old(world).player is None ==> final(world).player is None,
        old(world).player matches Some(p) ==> final(world).player matches Some(q)
            && q.player == p.player && q.position.x == confine_axis(
            p.position.x as int,
            SPRITE_HALF_UPX as int,
            window.width * MICRO - SPRITE_HALF_UPX,
        ) && q.position.y == confine_axis(
            p.position.y as int,
            SPRITE_HALF_UPX as int,
            window.height * MICRO - SPRITE_HALF_UPX,
        ) && q.position.bounded((crate::world::WINDOW_MAX_PX * MICRO) as int),
{
    if let Some(p) = world.player {
        let min_x: i64 = SPRITE_HALF_UPX;
        let max_x: i64 = window.width * MICRO - SPRITE_HALF_UPX;
        let min_y: i64 = SPRITE_HALF_UPX;
        let max_y: i64 = window.height * MICRO - SPRITE_HALF_UPX;
        let mut x: i64 = p.position.x;
        let mut y: i64 = p.position.y;
        if x < min_x {
            x = min_x;
        } else if x > max_x {
            x = max_x;
        }
        if y < min_y {
            y = min_y;
        } else if y > max_y {
            y = max_y;
        }
        world.player = Some(PlayerEntity { player: p.player, position: Vec2 { x, y } });
    }
}

/// After confinement the player sits within `[half_sprite, dim − half_sprite]`
/// on an axis, whatever position the movement step produced, provided the
/// window side is at least one sprite wide.
pub proof fn lemma_confined_within(x: int, dim_px: int)
    requires
        dim_px * MICRO >= 2 * SPRITE_HALF_UPX,
    ensures
        SPRITE_HALF_UPX <= confine_axis(x, SPRITE_HALF_UPX as int, dim_px * MICRO - SPRITE_HALF_UPX)
            <= dim_px * MICRO - SPRITE_HALF_UPX,
{
}

/// After confinement in a window at least one sprite wide on each side, the
/// player lies within `[half_sprite, dim − half_sprite]` on both axes,
/// whatever position the movement step produced.
pub proof fn lemma_player_confined(x: int, y: int, window: Window)
    requires
        window.wf(),
        window.width * MICRO >= 2 * SPRITE_HALF_UPX,
        window.height * MICRO >= 2 * SPRITE_HALF_UPX,
    ensures
        SPRITE_HALF_UPX <= confine_axis(
            x,
            SPRITE_HALF_UPX as int,
            window.width * MICRO - SPRITE_HALF_UPX,
        ) <= window.width * MICRO - SPRITE_HALF_UPX,
        SPRITE_HALF_UPX <= confine_axis(
            y,
            SPRITE_HALF_UPX as int,
            window.height * MICRO - SPRITE_HALF_UPX,
        ) <= window.height * MICRO - SPRITE_HALF_UPX,
{
    lemma_confined_within(x, window.width as int);
    lemma_confined_within(y, window.height as int);
}

/// Whether a coordinate lies outside the band `[lo, hi]`.
pub open spec fn out_of_band(x: int, lo: int, hi: int) -> bool {
    x < lo || x > hi
}

/// How one enemy's direction reacts to the window edges in one tick: a
/// direction component flips sign exactly when the enemy's position has left
/// the band half an enemy sprite inside the window on that axis, and is
/// unchanged otherwise; the position itself is kept.
pub open spec fn bounced(e0: EnemyEntity, e1: EnemyEntity, window: Window) -> bool {
    &&& e1.position == e0.position
    &&& e1.enemy.direction.x == (if out_of_band(
        e0.position.x as int,
        ENEMY_HALF_UPX as int,
        window.width * MICRO - ENEMY_HALF_UPX,
    ) {
        -e0.enemy.direction.x
    } else {
        e0.enemy.direction.x as int
    })
    &&& e1.enemy.direction.y == (if out_of_band(
        e0.position.y as int,
        ENEMY_HALF_UPX as int,
        window.height * MICRO - ENEMY_HALF_UPX,
    ) {
        -e0.enemy.direction.y
    } else {
        e0.enemy.direction.y as int
    })
}

/// Reflect enemy directions at the window edges: each direction component
/// flips sign exactly when the enemy has left the allowed band on that axis.
/// Positions are not corrected, so a fast enemy may travel out of bounds.
pub fn update_enemy_direction(world: &mut World, window: Window)
    requires
        old(world).wf(),
        window.wf(),
    ensures
        final(world).wf(),
        final(world).player == old(world).player,
        final(world).meteors@ == old(world).meteors@,
        final(world).game_over == old(world).game_over,
        final(world).enemies@.len() == old(world).enemies@.len(),
        forall|i: int|
            0 <= i < old(world).enemies@.len() ==> bounced(
                old(world).enemies@[i],
                #[trigger] final(world).enemies@[i],
                window,
            ),
{
    let min_x: i64 = ENEMY_HALF_UPX;
    let max_x: i64 = window.width * MICRO - ENEMY_HALF_UPX;
    let min_y: i64 = ENEMY_HALF_UPX;
    let max_y: i64 = window.height * MICRO - ENEMY_HALF_UPX;
    let n: usize = world.enemies.len();
    let mut i: usize = 0;
    while i < n
        invariant
            old(world).wf(),
            window.wf(),
            min_x == ENEMY_HALF_UPX,
            max_x == window.width * MICRO - ENEMY_HALF_UPX,
            min_y == ENEMY_HALF_UPX,
            max_y == window.height * MICRO - ENEMY_HALF_UPX,
            i <= n,
            n == old(world).enemies@.len(),
            world.enemies@.len() == n,
            world.player == old(world).player,
            world.meteors@ == old(world).meteors@,
            world.game_over == old(world).game_over,
            forall|j: int|
                0 <= j < i ==> bounced(
                    old(world).enemies@[j],
                    #[trigger] world.enemies@[j],
                    window,
                ),
            forall|j: int| 0 <= j < i ==> (#[trigger] world.enemies@[j]).wf(),
            forall|j: int| i <= j < n ==> world.enemies@[j] == old(world).enemies@[j],
        decreases n - i,
    {
        let e: EnemyEntity = world.enemies[i];
        let dir_x: i64 = if e.position.x < min_x || e.position.x > max_x {
            -e.enemy.direction.x
        } else {
            e.enemy.direction.x
        };
        let dir_y: i64 = if e.position.y < min_y || e.position.y > max_y {
            -e.enemy.direction.y
        } else {
            e.enemy.direction.y
        };
        world.enemies[i] = EnemyEntity {
            enemy: crate::world::Enemy { direction: Vec2 { x: dir_x, y: dir_y } },
            position: e.position,
        };
        i = i + 1;
    }
}

} // verus!
