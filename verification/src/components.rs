//! The state of the simulation: actors, projectiles, the ledger and the timers.

use vstd::prelude::*;
use crate::timer::{Timer, TimerMode};
use crate::vector::Vector;

verus! {

/// Micro-units per second in one world unit per second.
pub const VELOCITY_SCALE: i64 = 1_000_000;

/// Pico-units in one world unit.
pub const POSITION_SCALE: i64 = 1_000_000_000_000;

/// Microseconds in one second.
pub const SECOND: u64 = 1_000_000;

/// The standard downward acceleration, in world units per second².
pub const GRAVITY: i64 = -200;

/// The largest speed the player reaches along either axis, in micro-units per second.
pub const MAX_PLAYER_VEL: i64 = 500_000_000;

/// How fast held movement keys change the player's velocity, in world units per second.
pub const PLAYER_SPEED: i64 = 200;

/// The vertical velocity a jump sets, in micro-units per second.
pub const JUMP_VELOCITY: i64 = 150_000_000;

/// The speed of a projectile, in world units per second.
pub const PROJECTILE_SPEED: u32 = 300;

/// The horizontal speed of a patrolling enemy, in world units per second.
pub const ENEMY_SPEED: i64 = 200;

/// Half the width of the range that a position-bound patrol stays in, in pico-units.
pub const ENEMY_X_RANGE: i64 = 100_000_000_000_000;

/// The height an enemy's jump snaps it to, in pico-units.
pub const ENEMY_JUMP_HEIGHT: i64 = 100_000_000_000_000;

/// The vertical velocity an enemy's jump sets, in micro-units per second.
pub const ENEMY_JUMP_VELOCITY: i64 = 100_000_000;

/// The time between two jumps of an enemy, in microseconds.
pub const ENEMY_JUMP_INTERVAL: u64 = 10_000_000;

/// The health an enemy starts with.
pub const ENEMY_HEALTH: i64 = 50;

/// The health the player starts with.
pub const PLAYER_HEALTH: i64 = 100;

/// The health the player loses for each enemy touching it.
pub const CONTACT_DAMAGE: i64 = 10;

/// How long a collision keeps the player out of further collision handling, in microseconds.
pub const COLLISION_COOLDOWN: u64 = 100_000;

/// The damage of a projectile before and after the upgrade.
pub const BASE_DAMAGE: i64 = 10;

pub const UPGRADED_DAMAGE: i64 = 15;

/// The cash a destroyed enemy pays before and after the upgrade.
pub const BASE_REWARD: i32 = 100;

pub const UPGRADED_REWARD: i32 = 150;

/// The price of the upgrade.
pub const UPGRADE_PRICE: i32 = 1000;

/// The rent due at the first month's end.
pub const INITIAL_RENT: i32 = 2800;

/// By how much the rent rises at every month's end.
pub const RENT_INCREMENT: i32 = 200;

/// The health the player loses for a month's rent left unpaid.
pub const RENT_PENALTY: i64 = 30;

/// The health the player gains for a month's rent paid.
pub const RENT_BONUS: i64 = 30;

/// The length of a month, in microseconds.
pub const MONTH: u64 = 75_000_000;

/// The time between two enemy spawns, in microseconds.
pub const SPAWN_INTERVAL: u64 = 3_000_000;

/// How long the notice of a reward and a warning stay on screen, in microseconds.
pub const REWARD_NOTICE_TIME: u64 = 1_000_000;

pub const WARNING_NOTICE_TIME: u64 = 5_000_000;

/// The distance from the origin, along either axis, past which a projectile is
/// removed, in pico-units.
pub const WORLD_EXTENT: i64 = 20_000_000_000_000_000;

/// The scale of a health fraction: this value stands for a full bar.
pub const FRACTION_SCALE: i64 = 1_000_000;

/// A velocity, in micro-units per second.
#[derive(Clone, Copy, Debug, PartialEq, Eq, Structural)]
pub struct Velocity(pub Vector);

/// An acceleration, in world units per second².
#[derive(Clone, Copy, Debug, PartialEq, Eq, Structural)]
pub struct Gravity(pub Vector);

/// The health an actor can have at most. Nothing holds the current health below it.
#[derive(Clone, Copy, Debug, PartialEq, Eq, Structural)]
pub struct MaxHealth(pub i64);

#[derive(Clone, Copy, Debug, PartialEq, Eq, Structural)]
pub struct CurrentHealth(pub i64);

/// The mark of a collision in the recent past, with the timer that removes it.
#[derive(Clone, Copy, Debug, PartialEq, Eq)]
pub struct CollidedThisFrame(pub Timer);

/// The player's character.
#[derive(Clone, Copy, Debug, PartialEq, Eq)]
pub struct Player {
    pub id: u64,
    /// Where the character is, as the physics engine last reported it, in pico-units.
    pub position: Vector,
    pub velocity: Velocity,
    pub gravity: Gravity,
    pub max_health: MaxHealth,
    pub health: CurrentHealth,
    pub collided: Option<CollidedThisFrame>,
    /// Whether the character looks to the right.
    pub facing_right: bool,
}

/// How an enemy decides to turn around.
#[derive(Clone, Copy, Debug, PartialEq, Eq, Structural)]
pub enum PatrolPolicy {
    /// It turns back when it has left the range around the origin.
    ByPosition,
    /// It turns around whenever its timer finishes.
    ByTimer,
}

/// What an enemy's jump does.
#[derive(Clone, Copy, Debug, PartialEq, Eq, Structural)]
pub enum JumpPolicy {
    /// The jump sets the vertical velocity.
    ByVelocity,
    /// The jump sets the vertical position.
    BySnap,
}

/// The way an enemy walks, `1` to the right and `-1` to the left, and the timer of its turns.
#[derive(Clone, Copy, Debug, PartialEq, Eq)]
pub struct EnemyDirection(pub i64, pub Timer);

#[derive(Clone, Copy, Debug, PartialEq, Eq)]
pub struct JumpTimer(pub Timer);

#[derive(Clone, Copy, Debug, PartialEq, Eq)]
pub struct Enemy {
    pub id: u64,
    /// In pico-units.
    pub position: Vector,
    pub velocity: Velocity,
    pub max_health: MaxHealth,
    pub health: CurrentHealth,
    pub direction: EnemyDirection,
    pub jump_timer: JumpTimer,
    pub patrol: PatrolPolicy,
    pub jump: JumpPolicy,
}

#[derive(Clone, Copy, Debug, PartialEq, Eq, Structural)]
pub struct Projectile {
    pub id: u64,
    /// In pico-units.
    pub position: Vector,
    /// The direction of travel, in parts per million.
    pub direction: Vector,
    /// In world units per second.
    pub speed: u32,
    /// The damage that was in force when the projectile was fired.
    pub damage: i64,
}

/// The filled part of the health bar, in parts per million.
#[derive(Clone, Copy, Debug, PartialEq, Eq, Structural)]
pub struct HPBar(pub i64);

/// The ledger: the cash at hand, then the rent due at the month's end.
#[derive(Clone, Copy, Debug, PartialEq, Eq, Structural)]
pub struct MoneyText(pub i32, pub i32);

/// The number of the running day, counted from 0 at the start of each month.
#[derive(Clone, Copy, Debug, PartialEq, Eq, Structural)]
pub struct DayText(pub u64);

/// The upgrade tier: 0 before the upgrade, anything else after it.
#[derive(Clone, Copy, Debug, PartialEq, Eq, Structural)]
pub struct CurrentCard(pub i32);

/// Where the cursor is: in the world (pico-units), on the screen and in the interface.
#[derive(Clone, Copy, Debug, PartialEq, Eq, Structural)]
pub struct CursorPos {
    pub world_coords: Vector,
    pub screen_coords: Vector,
    pub ui_coords: Vector,
}

#[derive(Clone, Copy, Debug, PartialEq, Eq)]
pub struct SpawnTimer(pub Timer);

#[derive(Clone, Copy, Debug, PartialEq, Eq)]
pub struct MonthTimer(pub Timer);

/// The timer at whose end a notice leaves the screen.
#[derive(Clone, Copy, Debug, PartialEq, Eq)]
pub struct DespawnTimer(pub Timer);

/// What a notice tells the player.
#[derive(Clone, Copy, Debug, PartialEq, Eq, Structural)]
pub enum NoticeKind {
    /// An enemy was destroyed and paid this much.
    Reward(i32),
    /// The rent could not be paid.
    RentUnpaid,
    /// The player's health is used up.
    GameOver,
}

/// A message on screen, with the timer that removes it.
#[derive(Clone, Copy, Debug, PartialEq, Eq)]
pub struct Notice {
    pub kind: NoticeKind,
    pub timer: DespawnTimer,
}

/// Whether the match is still on. Once over, it stays over.
#[derive(Clone, Copy, Debug, PartialEq, Eq, Structural)]
pub enum GameState {
    Running,
    GameOver,
}

/// Which keys and buttons are down in a tick.
#[derive(Clone, Copy, Debug, PartialEq, Eq, Structural)]
pub struct Input {
    /// The key for moving left is held.
    pub left: bool,
    /// The key for moving right is held.
    pub right: bool,
    /// The key for moving up is held. It moves nothing.
    pub up: bool,
    /// The key for moving down is held.
    pub down: bool,
    /// The jump key went down in this tick.
    pub jump: bool,
    /// The fire button went down in this tick.
    pub fire: bool,
    /// The key that buys the upgrade is held.
    pub upgrade: bool,
}

/// The damage a projectile does at the given upgrade tier.
pub open spec fn damage_at(card: CurrentCard) -> int {
    if card.0 == 0 {
        BASE_DAMAGE as int
    } else {
        UPGRADED_DAMAGE as int
    }
}

/// The cash a destroyed enemy pays at the given upgrade tier.
pub open spec fn reward_at(card: CurrentCard) -> int {
    if card.0 == 0 {
        BASE_REWARD as int
    } else {
        UPGRADED_REWARD as int
    }
}

impl CurrentCard {
    /// The damage a projectile does at this tier.
    pub fn damage(&self) -> (d: i64)
        ensures
            d == damage_at(*self),
    {
        if self.0 == 0 {
            BASE_DAMAGE
        } else {
            UPGRADED_DAMAGE
        }
    }

    /// The cash a destroyed enemy pays at this tier.
    pub fn reward(&self) -> (r: i32)
        ensures
            r == reward_at(*self),
    {
        if self.0 == 0 {
            BASE_REWARD
        } else {
            UPGRADED_REWARD
        }
    }
}

/// A one-shot timer of the given duration that has not run yet.
pub open spec fn fresh_once(duration: u64) -> Timer {
    Timer::of(duration, TimerMode::Once, 0, false)
}

/// A repeating timer of the given duration that has not run yet.
pub open spec fn fresh_repeating(duration: u64) -> Timer {
    Timer::of(duration, TimerMode::Repeating, 0, false)
}

} // verus!
