//! Enemies: how they patrol and jump, and how new ones appear.

use vstd::prelude::*;
use crate::components::{
    fresh_repeating, CurrentHealth, Enemy, EnemyDirection, JumpPolicy, JumpTimer, MaxHealth,
    PatrolPolicy, SpawnTimer, Velocity, ENEMY_HEALTH, ENEMY_JUMP_HEIGHT, ENEMY_JUMP_INTERVAL,
    ENEMY_JUMP_VELOCITY, ENEMY_X_RANGE,
};
use crate::numeric::{advance_scaled, clamp_i64, saturate_i64};
use crate::timer::{lemma_timer_parts, Timer, TimerMode};
use crate::vector::Vector;

verus! {

/// The pico-units that an enemy walking at `ENEMY_SPEED` covers in a microsecond.
pub const ENEMY_STEP: u32 = 200_000_000;

/// The bounds, in pico-units, of where a new enemy appears: from the low
/// bound up to, but not including, the high bound.
pub const SPAWN_X_LOW: i64 = -300_000_000_000_000;

pub const SPAWN_X_HIGH: i64 = 300_000_000_000_000;

pub const SPAWN_Y_LOW: i64 = -200_000_000_000_000;

pub const SPAWN_Y_HIGH: i64 = 300_000_000_000_000;

/// The bounds, in microseconds, of the time between two turns of a new enemy.
pub const TURN_TIME_LOW: i64 = 300_000;

pub const TURN_TIME_HIGH: i64 = 1_200_000;

/// The opposite way.
pub open spec fn turned(direction: i64) -> i64 {
    clamp_i64(-direction) as i64
}

/// Whether an enemy at `x` that walks the given way is outside the range
/// around the origin and walking away from it.
pub open spec fn strays(x: i64, direction: i64) -> bool {
    (x > ENEMY_X_RANGE && direction > 0) || (x < -ENEMY_X_RANGE && direction < 0)
}

/// The enemy's way after a tick's walk to `x`, where the timer of its turns
/// finished in that tick or not. An enemy that turns by its timer turns around
/// when the timer finishes. One that turns by its position turns around when it
/// has walked out of the range around the origin.
pub open spec fn direction_after(enemy: Enemy, x: i64, timer_done: bool) -> i64 {
    let turns = match enemy.patrol {
        PatrolPolicy::ByTimer => timer_done,
        PatrolPolicy::ByPosition => strays(x, enemy.direction.0),
    };
    if turns {
        turned(enemy.direction.0)
    } else {
        enemy.direction.0
    }
}

/// The enemy a tick later. It walks its way at `ENEMY_SPEED`, then turns as
/// [`direction_after`] says; the timer of its turns runs only if it turns by
/// timer. When the timer of its jumps finishes, that timer starts over and the
/// enemy jumps: to the jump height, or with the jump velocity.
pub open spec fn enemy_after_move(enemy: Enemy, elapsed: u32) -> Enemy {
    let x = clamp_i64(enemy.position.x + enemy.direction.0 * ENEMY_STEP * elapsed) as i64;
    let turn_timer = if enemy.patrol == PatrolPolicy::ByTimer {
        enemy.direction.1.ticked(elapsed)
    } else {
        enemy.direction.1
    };
    let jump_timer = enemy.jump_timer.0.ticked(elapsed);
    let jumps = jump_timer.finished();
    Enemy {
        position: Vector {
            x,
            y: if jumps && enemy.jump == JumpPolicy::BySnap {
                ENEMY_JUMP_HEIGHT
            } else {
                enemy.position.y
            },
        },
        velocity: Velocity(
            Vector {
                x: enemy.velocity.0.x,
                y: if jumps && enemy.jump == JumpPolicy::ByVelocity {
                    ENEMY_JUMP_VELOCITY
                } else {
                    enemy.velocity.0.y
                },
            },
        ),
        direction: EnemyDirection(direction_after(enemy, x, turn_timer.finished()), turn_timer),
        jump_timer: JumpTimer(
            if jumps {
                jump_timer.rewound()
            } else {
                jump_timer
            },
        ),
        ..enemy
    }
}

/// Moves one enemy by a tick.
pub fn move_enemy(enemy: &mut Enemy, elapsed: u32)
    ensures
        *final(enemy) == enemy_after_move(*old(enemy), elapsed),
{
    let x = advance_scaled(enemy.position.x, enemy.direction.0, ENEMY_STEP, elapsed);
    enemy.position.x = x;
    let mut turn_timer = enemy.direction.1;
    let way = enemy.direction.0;
    let turns = match enemy.patrol {
        PatrolPolicy::ByTimer => turn_timer.tick(elapsed),
        PatrolPolicy::ByPosition => (x > ENEMY_X_RANGE && way > 0) || (x < -ENEMY_X_RANGE && way
            < 0),
    };
    enemy.direction = EnemyDirection(
        if turns {
            saturate_i64(-(way as i128))
        } else {
            way
        },
        turn_timer,
    );
    let mut jump_timer = enemy.jump_timer.0;
    if jump_timer.tick(elapsed) {
        match enemy.jump {
            JumpPolicy::BySnap => {
                enemy.position.y = ENEMY_JUMP_HEIGHT;
            },
            JumpPolicy::ByVelocity => {
                enemy.velocity.0.y = ENEMY_JUMP_VELOCITY;
            },
        }
        jump_timer.reset();
    }
    enemy.jump_timer = JumpTimer(jump_timer);
}

/// The enemies a tick later.
pub open spec fn enemies_after_move(enemies: Seq<Enemy>, elapsed: u32) -> Seq<Enemy> {
    Seq::new(enemies.len(), |i: int| enemy_after_move(enemies[i], elapsed))
}

/// Moves every enemy by a tick.
pub fn enemy_movement(enemies: &mut Vec<Enemy>, elapsed: u32)
    ensures
        final(enemies)@ == enemies_after_move(old(enemies)@, elapsed),
{
    let mut i: usize = 0;
    while i < enemies.len()
        invariant
            i <= enemies.len(),
            enemies@.len() == old(enemies)@.len(),
            forall|k: int|
                0 <= k < i ==> #[trigger] enemies@[k] == enemy_after_move(
                    old(enemies)@[k],
                    elapsed,
                ),
            forall|k: int| i <= k < enemies@.len() ==> #[trigger] enemies@[k] == old(enemies)@[k],
        decreases enemies.len() - i,
    {
        let mut enemy = enemies[i];
        move_enemy(&mut enemy, elapsed);
        enemies.set(i, enemy);
        i += 1;
    }
    proof {
        assert(enemies@ =~= enemies_after_move(old(enemies)@, elapsed));
    }
}

/// The enemy that appears at `(x, y)` and turns around every `turn_time`
/// microseconds: at rest, in full health, walking to the right, turning by
/// timer and jumping by snapping to the jump height.
pub open spec fn spawned(id: u64, x: i64, y: i64, turn_time: u64) -> Enemy {
    Enemy {
        id,
        position: Vector { x, y },
        velocity: Velocity(Vector::zero()),
        max_health: MaxHealth(ENEMY_HEALTH),
        health: CurrentHealth(ENEMY_HEALTH),
        direction: EnemyDirection(1, fresh_repeating(turn_time)),
        jump_timer: JumpTimer(fresh_repeating(ENEMY_JUMP_INTERVAL)),
        patrol: PatrolPolicy::ByTimer,
        jump: JumpPolicy::BySnap,
    }
}

/// The enemy that appears at `(x, y)` and turns around every `turn_time` microseconds.
pub fn spawn_enemy(id: u64, x: i64, y: i64, turn_time: u64) -> (enemy: Enemy)
    requires
        turn_time > 0,
    ensures
        enemy == spawned(id, x, y, turn_time),
{
    Enemy {
        id,
        position: Vector { x, y },
        velocity: Velocity(Vector { x: 0, y: 0 }),
        max_health: MaxHealth(ENEMY_HEALTH),
        health: CurrentHealth(ENEMY_HEALTH),
        direction: EnemyDirection(1, Timer::new(turn_time, TimerMode::Repeating)),
        jump_timer: JumpTimer(Timer::new(ENEMY_JUMP_INTERVAL, TimerMode::Repeating)),
        patrol: PatrolPolicy::ByTimer,
        jump: JumpPolicy::BySnap,
    }
}

/// Calls `gen_range` of the `rand` crate on its thread-local generator, with
/// the range from `low` up to, but not including, `high`.
///
/// Trusted: the number drawn lies in that range. Which number it is depends on
/// the generator's state, so nothing more is said of it.
#[verifier::external_body]
fn random_between(low: i64, high: i64) -> (drawn: i64)
    requires
        low < high,
    ensures
        low <= drawn < high,
{
    rand::Rng::gen_range(&mut rand::thread_rng(), low..high)
}

/// Whether the enemy is one that [`spawned`] gives for the id, with its place
/// and the time between its turns in the bounds of a new enemy.
pub open spec fn is_newcomer(enemy: Enemy, id: u64) -> bool {
    &&& SPAWN_X_LOW <= enemy.position.x < SPAWN_X_HIGH
    &&& SPAWN_Y_LOW <= enemy.position.y < SPAWN_Y_HIGH
    &&& TURN_TIME_LOW <= enemy.direction.1.duration() < TURN_TIME_HIGH
    &&& enemy == spawned(id, enemy.position.x, enemy.position.y, enemy.direction.1.duration())
}

/// Advances the timer of the spawns by a tick. When it finishes, an enemy with
/// the id `enemy_id` joins the others, at a random place and with a random time
/// between its turns, both within the bounds of a new enemy; that enemy is
/// returned.
pub fn spawn_random_enemies(
    spawn_timer: &mut SpawnTimer,
    enemies: &mut Vec<Enemy>,
    elapsed: u32,
    enemy_id: u64,
) -> (newcomer: Option<Enemy>)
    ensures
        final(spawn_timer).0 == old(spawn_timer).0.ticked(elapsed),
        newcomer is Some <==> final(spawn_timer).0.finished(),
        match newcomer {
            Some(enemy) => is_newcomer(enemy, enemy_id) && final(enemies)@ == old(enemies)@.push(
                enemy,
            ),
            None => final(enemies)@ == old(enemies)@,
        },
{
    if spawn_timer.0.tick(elapsed) {
        let x = random_between(SPAWN_X_LOW, SPAWN_X_HIGH);
        let y = random_between(SPAWN_Y_LOW, SPAWN_Y_HIGH);
        let turn_time = random_between(TURN_TIME_LOW, TURN_TIME_HIGH);
        let enemy = spawn_enemy(enemy_id, x, y, turn_time as u64);
        enemies.push(enemy);
        proof {
            lemma_timer_parts(turn_time as u64, TimerMode::Repeating, 0, false);
        }
        Some(enemy)
    } else {
        None
    }
}

} // verus!
