//! One whole simulation frame: the systems in their documented order —
//! timers count down, input is applied and everything moves, the player is
//! confined and enemy directions bounce, the spawners may add entities, and
//! the collision checks may remove them or end the game.

use vstd::prelude::*;
use crate::math::Vec2;
use crate::math::close;
use crate::world::World;
use crate::world::Player;
use crate::world::Enemy;
use crate::world::PlayerEntity;
use crate::world::EnemyEntity;
use crate::world::MeteorEntity;
use crate::world::KeyInput;
use crate::world::Window;
use crate::timer::EnemySpawnTimer;
use crate::timer::MeteorSpawnTimer;
use crate::timer::timer_countdown;
use crate::timer::meteor_countdown;
use crate::movement::player_movement;
use crate::movement::enemy_movement;
use crate::movement::meteor_movement;
use crate::movement::confine_movement;
use crate::movement::update_enemy_direction;
use crate::movement::velocity_after;
use crate::movement::confine_axis;
use crate::movement::out_of_band;
use crate::movement::SPRITE_HALF_UPX;
use crate::movement::ENEMY_HALF_UPX;
use crate::spawn::spawn_enemies;
use crate::spawn::spawn_meteor;
use crate::spawn::enemy_spawned_in;
use crate::spawn::meteor_spawned_in;
use crate::collision::enemy_hit_player;
use crate::collision::meteor_collision;
use crate::collision::player_hit_by_enemy;
use crate::collision::surviving_enemies;
use crate::collision::METEOR_HIT_RADIUS_UPX;
use crate::ELAPSED_MAX_MS;
use crate::ENEMY_SPEED;
use crate::METEOR_SPEED;
use crate::MICRO;

verus! {

/// The player after the frame's movement and confinement steps: the velocity
/// recomputed from the keys, the position advanced by it and clamped into
/// the window.
pub open spec fn frame_player(
    p: PlayerEntity,
    keys: KeyInput,
    elapsed_ms: int,
    window: Window,
) -> PlayerEntity {
    let vel = velocity_after(p.player.velocity, keys, elapsed_ms);
    PlayerEntity {
        player: Player { velocity: vel },
        position: Vec2 {
            x: confine_axis(
                p.position.x + vel.x,
                SPRITE_HALF_UPX as int,
                window.width * MICRO - SPRITE_HALF_UPX,
            ) as i64,
            y: confine_axis(
                p.position.y + vel.y,
                SPRITE_HALF_UPX as int,
                window.height * MICRO - SPRITE_HALF_UPX,
            ) as i64,
        },
    }
}

/// One enemy after the frame's movement and bounce steps: the position
/// advanced by direction times speed times elapsed time, then each direction
/// component flipped exactly when the new position is out of its band.
pub open spec fn frame_enemy(e: EnemyEntity, elapsed_ms: int, window: Window) -> EnemyEntity {
    let moved = Vec2 {
        x: (e.position.x + e.enemy.direction.x * ENEMY_SPEED * elapsed_ms) as i64,
        y: (e.position.y + e.enemy.direction.y * ENEMY_SPEED * elapsed_ms) as i64,
    };
    EnemyEntity {
        enemy: Enemy {
            direction: Vec2 {
                x: if out_of_band(
                    moved.x as int,
                    ENEMY_HALF_UPX as int,
                    window.width * MICRO - ENEMY_HALF_UPX,
                ) {
                    (-e.enemy.direction.x) as i64
                } else {
                    e.enemy.direction.x
                },
                y: if out_of_band(
                    moved.y as int,
                    ENEMY_HALF_UPX as int,
                    window.height * MICRO - ENEMY_HALF_UPX,
                ) {
                    (-e.enemy.direction.y) as i64
                } else {
                    e.enemy.direction.y
                },
            },
        },
        position: moved,
    }
}

/// One meteor after the frame's movement step: dropped by its vertical
/// direction times the meteor speed times the elapsed time, horizontally
/// pinned.
pub open spec fn frame_meteor(m: MeteorEntity, elapsed_ms: int) -> MeteorEntity {
    MeteorEntity {
        meteor: m.meteor,
        position: Vec2 {
            x: m.position.x,
            y: (m.position.y + m.meteor.direction.y * METEOR_SPEED * elapsed_ms) as i64,
        },
    }
}

/// The frame's collision verdict on the post-movement, post-spawn state
/// (`p1`, `enemies2`, `meteors2`, game-over flag `go0`): what the final world
/// `w` holds. The player falls first to a close enemy, then to the current
/// meteor; the meteor sweeps the enemies whether or not a player lives.
pub open spec fn collisions_resolved(
    p1: Option<PlayerEntity>,
    enemies2: Seq<EnemyEntity>,
    meteors2: Seq<MeteorEntity>,
    go0: bool,
    w: World,
) -> bool {
    let hit = p1 matches Some(q) && player_hit_by_enemy(q, enemies2);
    let p2 = if hit {
        None
    } else {
        p1
    };
    let go1 = go0 || hit;
    &&& w.meteors@ == meteors2
    &&& if meteors2.len() == 0 {
        w.enemies@ == enemies2 && w.player == p2 && w.game_over == go1
    } else {
        let m0 = meteors2[0].position;
        let fatal = p2 matches Some(q2) && close(q2.position, m0, METEOR_HIT_RADIUS_UPX as int);
        &&& w.enemies@ == surviving_enemies(enemies2, m0)
        &&& w.player == (if fatal {
            None::<PlayerEntity>
        } else {
            p2
        })
        &&& w.game_over == (go1 || fatal)
    }
}

/// Run one frame of the simulation.
///
/// The contract pins the whole frame: both timers advance by exactly the
/// elapsed time; the player moves per `frame_player`, every enemy per
/// `frame_enemy`, every meteor per `frame_meteor`; each spawner appends
/// exactly one entity satisfying its spawning rule exactly when its timer
/// crossed the period; and the collision verdict on that state is
/// `collisions_resolved`. In particular the game-over flag never clears and
/// a destroyed player never returns.
pub fn tick(
    world: &mut World,
    window: Window,
    keys: KeyInput,
    elapsed_ms: u64,
    enemy_timer: &mut EnemySpawnTimer,
    meteor_timer: &mut MeteorSpawnTimer,
)
    requires
        old(world).wf(),
        old(world).in_play(),
        old(enemy_timer).timer.wf(),
        old(meteor_timer).timer.wf(),
        window.wf(),
        elapsed_ms <= ELAPSED_MAX_MS,
        old(world).enemies@.len() < usize::MAX,
        old(world).meteors@.len() < usize::MAX,
    ensures
        final(world).wf(),
        final(enemy_timer).timer.wf(),
        final(meteor_timer).timer.wf(),
        final(enemy_timer).timer.period_ms == old(enemy_timer).timer.period_ms,
        final(meteor_timer).timer.period_ms == old(meteor_timer).timer.period_ms,
        final(enemy_timer).timer.acc_ms == (old(enemy_timer).timer.acc_ms + elapsed_ms) % (
        old(enemy_timer).timer.period_ms as int),
        final(enemy_timer).timer.times_finished == (old(enemy_timer).timer.acc_ms + elapsed_ms)
            / (old(enemy_timer).timer.period_ms as int),
        final(meteor_timer).timer.acc_ms == (old(meteor_timer).timer.acc_ms + elapsed_ms) % (
        old(meteor_timer).timer.period_ms as int),
        final(meteor_timer).timer.times_finished == (old(meteor_timer).timer.acc_ms + elapsed_ms)
            / (old(meteor_timer).timer.period_ms as int),
        old(world).game_over ==> final(world).game_over,
        old(world).player is None ==> final(world).player is None,
        ({
            let e: int = elapsed_ms as int;
            let p1 = match old(world).player {
                Some(p) => Some(frame_player(p, keys, e, window)),
                None => None,
            };
            let enemies1 = old(world).enemies@.map_values(
                |en: EnemyEntity| frame_enemy(en, e, window),
            );
            let meteors1 = old(world).meteors@.map_values(|mt: MeteorEntity| frame_meteor(mt, e));
            let enemy_fired = (old(enemy_timer).timer.acc_ms + elapsed_ms) / (old(
                enemy_timer,
            ).timer.period_ms as int) >= 1;
            let meteor_fired = (old(meteor_timer).timer.acc_ms + elapsed_ms) / (old(
                meteor_timer,
            ).timer.period_ms as int) >= 1;
            let meteors2 = final(world).meteors@;
            &&& meteors2.len() == meteors1.len() + (if meteor_fired {
                1int
            } else {
                0int
            })
            &&& forall|i: int| 0 <= i < meteors1.len() ==> meteors2[i] == #[trigger] meteors1[i]
            &&& (meteor_fired ==> meteor_spawned_in(window, meteors2.last()))
            &&& (!enemy_fired ==> collisions_resolved(
                p1,
                enemies1,
                meteors2,
                old(world).game_over,
                *final(world),
            ))
            &&& (enemy_fired ==> exists|se: EnemyEntity|
                #[trigger] enemy_spawned_in(window, se) && collisions_resolved(
                    p1,
                    enemies1.push(se),
                    meteors2,
                    old(world).game_over,
                    *final(world),
                ))
        }),
{
    broadcast use vstd::seq_lib::group_filter_ensures;

    let ghost e: int = elapsed_ms as int;
    timer_countdown(enemy_timer, elapsed_ms);
    meteor_countdown(meteor_timer, elapsed_ms);
    player_movement(world, keys, elapsed_ms);
    enemy_movement(world, elapsed_ms);
    meteor_movement(world, elapsed_ms);
    confine_movement(world, window);
    update_enemy_direction(world, window);
    let ghost moved = *world;
    proof {
        let p1 = match old(world).player {
            Some(p) => Some(frame_player(p, keys, e, window)),
            None => None,
        };
        let enemies1 = old(world).enemies@.map_values(
            |en: EnemyEntity| frame_enemy(en, e, window),
        );
        let meteors1 = old(world).meteors@.map_values(|mt: MeteorEntity| frame_meteor(mt, e));
        assert(moved.player == p1);
        assert forall|i: int| 0 <= i < old(world).enemies@.len() implies moved.enemies@[i]
            == enemies1[i] by {
            assert(enemies1[i] == frame_enemy(old(world).enemies@[i], e, window));
        }
        assert(moved.enemies@ =~= enemies1);
        assert forall|i: int| 0 <= i < old(world).meteors@.len() implies moved.meteors@[i]
            == meteors1[i] by {
            assert(meteors1[i] == frame_meteor(old(world).meteors@[i], e));
        }
        assert(moved.meteors@ =~= meteors1);
    }
    spawn_enemies(world, window, enemy_timer);
    spawn_meteor(world, window, meteor_timer);
    let ghost spawned = *world;
    proof {
        if enemy_timer.timer.times_finished >= 1 {
            assert(spawned.enemies@ =~= moved.enemies@.push(spawned.enemies@.last()));
        } else {
            assert(spawned.enemies@ =~= moved.enemies@);
        }
        if meteor_timer.timer.times_finished >= 1 {
            assert(spawned.meteors@ =~= moved.meteors@.push(spawned.meteors@.last()));
        } else {
            assert(spawned.meteors@ =~= moved.meteors@);
        }
    }
    enemy_hit_player(world);
    meteor_collision(world);
    proof {
        assert(world.meteors@ == spawned.meteors@);
        assert(collisions_resolved(
            spawned.player,
            spawned.enemies@,
            spawned.meteors@,
            old(world).game_over,
            *world,
        ));
        if enemy_timer.timer.times_finished >= 1 {
            let se = spawned.enemies@.last();
            assert(enemy_spawned_in(window, se));
        }
    }
}

} // verus!
