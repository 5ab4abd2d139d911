//! The game state: entity components, the entity store, the window the game
//! is played in, and the per-tick input snapshot.

use vstd::prelude::*;
use crate::math::Vec2;
use crate::MILLI;
use crate::MICRO;
use crate::PLAYER_SPEED;
use crate::COORD_LIMIT;

verus! {

/// Largest window side the simulation accepts, in pixels.
pub const WINDOW_MAX_PX: i64 = 1000000;

/// Largest magnitude the player's stored velocity can reach in one tick, in
/// micro-pixels: a `MILLI`-scaled unit direction times the player speed times
/// the longest elapsed time.
pub const VEL_LIMIT: i64 = MILLI * PLAYER_SPEED * 1000000;

/// One simulation step never displaces an entity by more than this many
/// micro-pixels; positions this far inside the coordinate range stay in it.
pub const STEP_LIMIT: i64 = 1000000000000000;

/// The player component: the velocity applied to the player this tick, in
/// micro-pixels, carried over as next tick's accumulator.
#[derive(Clone, Copy, PartialEq, Eq, Structural, Debug)]
pub struct Player {
    pub velocity: Vec2,
}

/// The enemy component: a `MILLI`-scaled direction of travel.
#[derive(Clone, Copy, PartialEq, Eq, Structural, Debug)]
pub struct Enemy {
    pub direction: Vec2,
}

/// The meteor component: a `MILLI`-scaled direction; only its vertical part
/// is ever applied.
#[derive(Clone, Copy, PartialEq, Eq, Structural, Debug)]
pub struct Meteor {
    pub direction: Vec2,
}

/// A live player: component plus position in micro-pixels.
#[derive(Clone, Copy, PartialEq, Eq, Structural, Debug)]
pub struct PlayerEntity {
    pub player: Player,
    pub position: Vec2,
}

/// A live enemy: component plus position in micro-pixels.
#[derive(Clone, Copy, PartialEq, Eq, Structural, Debug)]
pub struct EnemyEntity {
    pub enemy: Enemy,
    pub position: Vec2,
}

/// A live meteor: component plus position in micro-pixels.
#[derive(Clone, Copy, PartialEq, Eq, Structural, Debug)]
pub struct MeteorEntity {
    pub meteor: Meteor,
    pub position: Vec2,
}

impl PlayerEntity {
    /// Velocity within one tick's reach, position in coordinate range.
    pub open spec fn wf(self) -> bool {
        self.position.in_range() && self.player.velocity.bounded(VEL_LIMIT as int)
    }
}

impl EnemyEntity {
    /// Direction `MILLI`-bounded, position in coordinate range.
    pub open spec fn wf(self) -> bool {
        self.position.in_range() && self.enemy.direction.bounded(MILLI as int)
    }
}

impl MeteorEntity {
    /// Direction `MILLI`-bounded, position in coordinate range.
    pub open spec fn wf(self) -> bool {
        self.position.in_range() && self.meteor.direction.bounded(MILLI as int)
    }
}

/// The window the game is confined to, in pixels.
#[derive(Clone, Copy, PartialEq, Eq, Structural, Debug)]
pub struct Window {
    pub width: i64,
    pub height: i64,
}

impl Window {
    /// Positive sides, small enough that every pixel converts to an in-range
    /// micro-pixel coordinate.
    pub open spec fn wf(self) -> bool {
        0 < self.width <= WINDOW_MAX_PX && 0 < self.height <= WINDOW_MAX_PX
    }
}

/// The directional keys freshly pressed this tick: four logical directions,
/// two bindings each.
#[derive(Clone, Copy, PartialEq, Eq, Structural, Debug)]
pub struct KeyInput {
    pub left: bool,
    pub a: bool,
    pub right: bool,
    pub d: bool,
    pub up: bool,
    pub w: bool,
    pub down: bool,
    pub s: bool,
}

/// The set of live entities and the terminal game-over flag.
///
/// At most one player exists; enemies and meteors come and go. When a fatal
/// collision destroys the player, `game_over` is set and stays set.
pub struct World {
    pub player: Option<PlayerEntity>,
    pub enemies: Vec<EnemyEntity>,
    pub meteors: Vec<MeteorEntity>,
    pub game_over: bool,
}

impl World {
    /// Every live entity is well formed.
    pub open spec fn wf(self) -> bool {
        &&& match self.player {
            Some(p) => p.wf(),
            None => true,
        }
        &&& forall|i: int| 0 <= i < self.enemies.len() ==> (#[trigger] self.enemies[i]).wf()
        &&& forall|i: int| 0 <= i < self.meteors.len() ==> (#[trigger] self.meteors[i]).wf()
    }

    /// The player, if any, sits at least one tick's reach inside the
    /// coordinate range, so a movement step cannot leave it.
    pub open spec fn player_in_play(self) -> bool {
        match self.player {
            Some(p) => p.position.bounded(COORD_LIMIT - STEP_LIMIT as int),
            None => true,
        }
    }

    /// Every enemy sits at least one tick's reach inside the coordinate
    /// range.
    pub open spec fn enemies_in_play(self) -> bool {
        forall|i: int|
            0 <= i < self.enemies.len() ==> (#[trigger] self.enemies[i]).position.bounded(
                COORD_LIMIT - STEP_LIMIT as int,
            )
    }

    /// Every meteor sits at least one tick's reach inside the coordinate
    /// range.
    pub open spec fn meteors_in_play(self) -> bool {
        forall|i: int|
            0 <= i < self.meteors.len() ==> (#[trigger] self.meteors[i]).position.bounded(
                COORD_LIMIT - STEP_LIMIT as int,
            )
    }

    /// Every live entity sits at least one tick's reach inside the coordinate
    /// range, so a movement step cannot leave it.
    pub open spec fn in_play(self) -> bool {
        self.player_in_play() && self.enemies_in_play() && self.meteors_in_play()
    }

    /// An empty store: no entities, game running.
    pub fn new() -> (w: World)
        ensures
            w.wf(),
            w.in_play(),
            w.player is None,
            w.enemies@.len() == 0,
            w.meteors@.len() == 0,
            !w.game_over,
    {
        World { player: None, enemies: Vec::new(), meteors: Vec::new(), game_over: false }
    }
}

/// Half of `MICRO`: micro-pixels in half a pixel.
pub const HALF_MICRO: i64 = 500000;

/// The micro-pixel coordinate of the centre of a window side of `px` pixels.
pub open spec fn center_upx(px: int) -> int {
    px * HALF_MICRO
}

/// Place the single player at the centre of the window with no velocity,
/// replacing any player already there.
pub fn spawn_player(world: &mut World, window: Window)
    requires
        window.wf(),
    ensures
        final(world).enemies@ == old(world).enemies@,
        final(world).meteors@ == old(world).meteors@,
        final(world).game_over == old(world).game_over,
        final(world).player matches Some(p) && p.player.velocity == (Vec2 { x: 0, y: 0 })
            && p.position.x == center_upx(window.width as int) && p.position.y == center_upx(
            window.height as int,
        ) && p.wf() && p.position.bounded(COORD_LIMIT - STEP_LIMIT as int),
{
    let x: i64 = window.width * HALF_MICRO;
    let y: i64 = window.height * HALF_MICRO;
    world.player = Some(
        PlayerEntity { player: Player { velocity: Vec2 { x: 0, y: 0 } }, position: Vec2 { x, y } },
    );
}

} // verus!
