//! Pairwise proximity checks and their consequences: an enemy close to the
//! player ends the game; the current meteor destroys the player or any enemy
//! that strays too close. All comparisons are strict: entities exactly at
//! the threshold distance do not collide.

use vstd::prelude::*;
use crate::math::Vec2;
use crate::math::close;
use crate::math::within;
use crate::world::World;
use crate::world::PlayerEntity;
use crate::world::EnemyEntity;
use crate::SPRITE_SIZE;
use crate::ENEMY_SIZE;
use crate::MICRO;
use crate::world::HALF_MICRO;

verus! {

/// The player-enemy (and enemy-meteor) collision distance in micro-pixels:
/// half the player sprite plus half the enemy sprite.
pub const HIT_RADIUS_UPX: i64 = (SPRITE_SIZE + ENEMY_SIZE) * HALF_MICRO;

/// The player-meteor collision distance in micro-pixels: one whole player
/// sprite.
pub const METEOR_HIT_RADIUS_UPX: i64 = SPRITE_SIZE * MICRO;

/// Whether some live enemy is strictly within the collision distance of the
/// player.
pub open spec fn player_hit_by_enemy(p: PlayerEntity, enemies: Seq<EnemyEntity>) -> bool {
    exists|i: int|
        0 <= i < enemies.len() && close(
            p.position,
            (#[trigger] enemies[i]).position,
            HIT_RADIUS_UPX as int,
        )
}

/// Destroy the player and signal game over exactly when some enemy is
/// strictly closer to the player than half a player sprite plus half an
/// enemy sprite; an enemy exactly at that distance does not collide. The
/// player is destroyed at most once, however many enemies are close.
pub fn enemy_hit_player(world: &mut World)
    requires
        old(world).wf(),
    ensures
        final(world).wf(),
        final(world).enemies@ == old(world).enemies@,
        final(world).meteors@ == old(world).meteors@,
        old(world).player is None ==> final(world).player == old(world).player && final(
            world).game_over == old(world).game_over,
        old(world).player matches Some(p) ==> {
            let hit = player_hit_by_enemy(p, old(world).enemies@);
            &&& final(world).player == (if hit {
                None::<PlayerEntity>
            } else {
                old(world).player
            })
            &&& final(world).game_over == (old(world).game_over || hit)
        },
{
    if let Some(p) = world.player {
        let n: usize = world.enemies.len();
        let mut hit: bool = false;
        let mut i: usize = 0;
        while i < n
            invariant
                old(world).wf(),
                *world == *old(world),
                world.player == Some(p),
                i <= n,
                n == world.enemies@.len(),
                hit == player_hit_by_enemy(p, world.enemies@.subrange(0, i as int)),
            decreases n - i,
        {
            let e: EnemyEntity = world.enemies[i];
            let ghost prefix = world.enemies@.subrange(0, i as int);
            let ghost extended = world.enemies@.subrange(0, i as int + 1);
            if within(p.position, e.position, HIT_RADIUS_UPX) {
                hit = true;
            }
            proof {
                assert(extended[i as int] == e);
                if hit {
                    if close(p.position, e.position, HIT_RADIUS_UPX as int) {
                        assert(player_hit_by_enemy(p, extended));
                    } else {
                        let w = choose|k: int|
                            0 <= k < prefix.len() && close(
                                p.position,
                                (#[trigger] prefix[k]).position,
                                HIT_RADIUS_UPX as int,
                            );
                        assert(extended[w] == prefix[w]);
                        assert(player_hit_by_enemy(p, extended));
                    }
                } else {
                    assert(forall|k: int|
                        0 <= k < prefix.len() ==> extended[k] == #[trigger] prefix[k]);
                    assert(!player_hit_by_enemy(p, extended));
                }
            }
            i = i + 1;
        }
        proof {
            assert(world.enemies@.subrange(0, n as int) =~= world.enemies@);
        }
        if hit {
            world.player = None;
            world.game_over = true;
        }
    }
}

/// What the meteor sweep keeps: the enemies not strictly within the
/// collision distance of the current meteor.
pub open spec fn surviving_enemies(enemies: Seq<EnemyEntity>, meteor_pos: Vec2) -> Seq<
    EnemyEntity,
> {
    enemies.filter(|e: EnemyEntity| !close(e.position, meteor_pos, HIT_RADIUS_UPX as int))
}

/// Resolve the current meteor, which is the first live one, against the
/// player and every enemy. The player is destroyed, with a game-over
/// signal, exactly when it is strictly within one sprite of the meteor;
/// every live enemy, with or without a player, is destroyed exactly when it
/// is strictly within half a player sprite plus half an enemy sprite of the
/// meteor, quietly. Distances exactly at a threshold destroy nothing.
/// Without a meteor, nothing happens.
pub fn meteor_collision(world: &mut World)
    requires
        old(world).wf(),
    ensures
        final(world).wf(),
        final(world).meteors@ == old(world).meteors@,
        old(world).meteors@.len() == 0 ==> final(world).player == old(world).player && final(
            world).enemies@ == old(world).enemies@ && final(world).game_over == old(
            world).game_over,
        old(world).meteors@.len() > 0 ==> final(world).enemies@ == surviving_enemies(
            old(world).enemies@,
            old(world).meteors@[0].position,
        ),
        old(world).meteors@.len() > 0 && old(world).player is None ==> final(world).player
            is None && final(world).game_over == old(world).game_over,
        old(world).meteors@.len() > 0 ==> (old(world).player matches Some(p) ==> {
            let m = old(world).meteors@[0].position;
            let fatal = close(p.position, m, METEOR_HIT_RADIUS_UPX as int);
            &&& final(world).player == (if fatal {
                None::<PlayerEntity>
            } else {
                old(world).player
            })
            &&& final(world).game_over == (old(world).game_over || fatal)
        }),
{
    if world.meteors.len() == 0 {
        return ;
    }
    let m: Vec2 = world.meteors[0].position;
    if let Some(p) = world.player {
        if within(p.position, m, METEOR_HIT_RADIUS_UPX) {
            world.player = None;
            world.game_over = true;
        }
    }
    let n: usize = world.enemies.len();
    let mut kept: Vec<EnemyEntity> = Vec::new();
    let mut i: usize = 0;
    proof {
        reveal(Seq::filter);
        assert(old(world).enemies@.subrange(0, 0) =~= Seq::<EnemyEntity>::empty());
        assert(kept@ =~= surviving_enemies(old(world).enemies@.subrange(0, 0), m));
    }
    while i < n
        invariant
            old(world).wf(),
            i <= n,
            n == world.enemies@.len(),
            world.enemies@ == old(world).enemies@,
            old(world).meteors@.len() > 0,
            m == old(world).meteors@[0].position,
            kept@ == surviving_enemies(old(world).enemies@.subrange(0, i as int), m),
            forall|j: int| 0 <= j < kept@.len() ==> (#[trigger] kept@[j]).wf(),
        decreases n - i,
    {
        let e: EnemyEntity = world.enemies[i];
        let ghost prefix = old(world).enemies@.subrange(0, i as int);
        let ghost extended = old(world).enemies@.subrange(0, i as int + 1);
        proof {
            reveal(Seq::filter);
            assert(extended.drop_last() =~= prefix);
            assert(extended.last() == e);
        }
        if !within(e.position, m, HIT_RADIUS_UPX) {
            kept.push(e);
            proof {
                reveal(Seq::filter);
                assert(surviving_enemies(extended, m) == surviving_enemies(prefix, m).push(e));
            }
        } else {
            proof {
                reveal(Seq::filter);
                assert(surviving_enemies(extended, m) == surviving_enemies(prefix, m));
            }
        }
        i = i + 1;
    }
    proof {
        assert(old(world).enemies@.subrange(0, n as int) =~= old(world).enemies@);
    }
    world.enemies = kept;
}

} // verus!
