//! The player's motion: what the keys do to the velocity, and how gravity and
//! the collision cooldown shape the velocity of each tick.

use vstd::prelude::*;
use crate::components::{
    CollidedThisFrame, CurrentCard, CursorPos, Gravity, Input, MoneyText, Player, Projectile,
    Velocity, damage_at, GRAVITY, JUMP_VELOCITY, MAX_PLAYER_VEL, PLAYER_SPEED, PROJECTILE_SPEED,
    UPGRADE_PRICE, VELOCITY_SCALE,
};
use crate::numeric::{
    advance, clamp_i64, floor_sqrt, is_floor_sqrt, isqrt, lemma_product_fits, saturate_i64,
};
use crate::vector::{direction_between, direction_toward, Vector};

verus! {

/// The standard gravity: straight down.
pub open spec fn standard_gravity() -> Gravity {
    Gravity(Vector { x: 0, y: GRAVITY })
}

/// `v`, held between `-MAX_PLAYER_VEL` and `MAX_PLAYER_VEL`.
pub open spec fn clamp_speed(v: int) -> int {
    if v >= MAX_PLAYER_VEL {
        MAX_PLAYER_VEL as int
    } else if v <= -MAX_PLAYER_VEL {
        -MAX_PLAYER_VEL as int
    } else {
        v
    }
}

/// The change of velocity that the held movement keys ask for in a tick of
/// `elapsed` microseconds: `PLAYER_SPEED * elapsed` along one axis, or a vector
/// of that length (its parts rounded down) along a diagonal.
pub open spec fn intent(input: Input, elapsed: u32) -> Vector {
    let dx: int = if input.left == input.right {
        0
    } else if input.right {
        1
    } else {
        -1
    };
    let dy: int = if input.down {
        -1
    } else {
        0
    };
    let s: int = PLAYER_SPEED * elapsed;
    let part: int = if dx != 0 && dy != 0 {
        floor_sqrt((s * s / 2) as nat) as int
    } else {
        s
    };
    Vector { x: (dx * part) as i64, y: (dy * part) as i64 }
}

/// The horizontal velocity that the movement keys leave of `vx`: none without a
/// key, and with a key only what already goes that key's way.
pub open spec fn steered(vx: i64, input: Input) -> i64 {
    if input.left == input.right {
        0
    } else if input.left {
        if vx > 0 {
            0
        } else {
            vx
        }
    } else {
        if vx < 0 {
            0
        } else {
            vx
        }
    }
}

/// The player after a tick's input. The movement keys leave of the horizontal
/// velocity what [`steered`] says and add their [`intent`]; a jump replaces the
/// vertical velocity by `JUMP_VELOCITY`; both components are then held within
/// the speed limit. A player that rises, before the keys' push, is under
/// standard gravity again. The player faces the way of the key held, right if
/// both are.
pub open spec fn player_after_inputs(player: Player, input: Input, elapsed: u32) -> Player {
    let push = intent(input, elapsed);
    let lift: i64 = if input.jump {
        JUMP_VELOCITY
    } else {
        player.velocity.0.y
    };
    Player {
        velocity: Velocity(
            Vector {
                x: clamp_speed(steered(player.velocity.0.x, input) + push.x) as i64,
                y: clamp_speed(lift + push.y) as i64,
            },
        ),
        gravity: if lift > 0 {
            standard_gravity()
        } else {
            player.gravity
        },
        facing_right: if input.right {
            true
        } else if input.left {
            false
        } else {
            player.facing_right
        },
        ..player
    }
}

/// Whether the upgrade is bought in this tick.
pub open spec fn buys_upgrade(money: MoneyText, input: Input) -> bool {
    input.upgrade && money.0 >= UPGRADE_PRICE
}

/// The ledger after a tick's input: less by the price if the upgrade is bought.
pub open spec fn ledger_after_inputs(money: MoneyText, input: Input) -> MoneyText {
    if buys_upgrade(money, input) {
        MoneyText((money.0 - UPGRADE_PRICE) as i32, money.1)
    } else {
        money
    }
}

/// The upgrade tier after a tick's input, with the ledger as it was before.
pub open spec fn card_after_inputs(card: CurrentCard, money: MoneyText, input: Input) -> CurrentCard {
    if buys_upgrade(money, input) {
        CurrentCard(1)
    } else {
        card
    }
}

/// The projectile that a tick's input fires, if any: none without the fire
/// button, and none when the cursor is where the player is.
pub open spec fn shot_fired(
    player: Player,
    card: CurrentCard,
    cursor: CursorPos,
    input: Input,
    id: u64,
) -> Option<Projectile> {
    let direction = direction_between(player.position, cursor.world_coords);
    if input.fire && direction != Vector::zero() {
        Some(
            Projectile {
                id,
                position: player.position,
                direction,
                speed: PROJECTILE_SPEED,
                damage: damage_at(card) as i64,
            },
        )
    } else {
        None
    }
}

/// The change of velocity that the held movement keys ask for.
pub fn steering_intent(input: &Input, elapsed: u32) -> (push: Vector)
    ensures
        push == intent(*input, elapsed),
        -PLAYER_SPEED * elapsed <= push.x <= PLAYER_SPEED * elapsed,
        -PLAYER_SPEED * elapsed <= push.y <= 0,
{
    let s: i64 = PLAYER_SPEED * (elapsed as i64);
    let dx: i64 = if input.left == input.right {
        0
    } else if input.right {
        1
    } else {
        -1
    };
    let dy: i64 = if input.down {
        -1
    } else {
        0
    };
    let part: i64 = if dx != 0 && dy != 0 {
        assert(s * s <= 0x1_0000_0000_0000 * 0x1_0000_0000_0000) by (nonlinear_arith)
            requires
                0 <= s <= 0x1_0000_0000_0000,
        ;
        let square: u128 = (s as u128) * (s as u128);
        let r: u64 = isqrt(square / 2);
        assert(r <= s) by (nonlinear_arith)
            requires
                is_floor_sqrt((square / 2) as nat, r as nat),
                square == s * s,
                s >= 0,
        ;
        r as i64
    } else {
        s
    };
    Vector { x: dx * part, y: dy * part }
}

/// Holds a velocity between `-MAX_PLAYER_VEL` and `MAX_PLAYER_VEL`.
fn limit_speed(v: i128) -> (r: i64)
    ensures
        r == clamp_speed(v as int),
{
    if v >= MAX_PLAYER_VEL as i128 {
        MAX_PLAYER_VEL
    } else if v <= -(MAX_PLAYER_VEL as i128) {
        -MAX_PLAYER_VEL
    } else {
        v as i64
    }
}

/// Applies a tick's input to the player: the movement keys steer, a jump sets
/// the vertical velocity, a rising player is under standard gravity again, and
/// each velocity component ends within the speed limit. The upgrade is bought
/// if asked for and affordable, and the fire button fires a projectile toward
/// the cursor, with `projectile_id` as its id.
pub fn handle_inputs(
    player: &mut Player,
    money: &mut MoneyText,
    card: &mut CurrentCard,
    cursor: &CursorPos,
    input: &Input,
    elapsed: u32,
    projectile_id: u64,
) -> (shot: Option<Projectile>)
    ensures
        *final(player) == player_after_inputs(*old(player), *input, elapsed),
        *final(money) == ledger_after_inputs(*old(money), *input),
        *final(card) == card_after_inputs(*old(card), *old(money), *input),
        shot == shot_fired(*old(player), *final(card), *cursor, *input, projectile_id),
{
    let push = steering_intent(input, elapsed);
    let mut vx: i64 = player.velocity.0.x;
    let mut vy: i64 = player.velocity.0.y;
    if input.left {
        if vx > 0 {
            vx = 0;
        }
        player.facing_right = false;
    }
    if input.right {
        if vx < 0 {
            vx = 0;
        }
        player.facing_right = true;
    }
    if input.upgrade && money.0 >= UPGRADE_PRICE {
        money.0 = money.0 - UPGRADE_PRICE;
        card.0 = 1;
    }
    if !input.left && !input.right {
        vx = 0;
    }
    let mut shot: Option<Projectile> = None;
    if input.fire {
        let direction = direction_toward(player.position, cursor.world_coords);
        if direction.x != 0 || direction.y != 0 {
            shot = Some(
                Projectile {
                    id: projectile_id,
                    position: player.position,
                    direction,
                    speed: PROJECTILE_SPEED,
                    damage: card.damage(),
                },
            );
        }
    }
    if input.jump {
        vy = JUMP_VELOCITY;
    }
    if vy > 0 {
        player.gravity = Gravity(Vector { x: 0, y: GRAVITY });
    }
    player.velocity = Velocity(
        Vector {
            x: limit_speed(vx as i128 + push.x as i128),
            y: limit_speed(vy as i128 + push.y as i128),
        },
    );
    shot
}

/// The player after the collision cooldown's part of a tick: a mark that has
/// not run yet switches gravity off, the mark's timer advances, and a timer that
/// finishes takes the mark away and switches standard gravity on.
pub open spec fn after_cooldown(player: Player, elapsed: u32) -> Player {
    match player.collided {
        None => player,
        Some(mark) => {
            let timer = mark.0.ticked(elapsed);
            if timer.finished() {
                Player { gravity: standard_gravity(), collided: None, ..player }
            } else {
                Player {
                    gravity: if mark.0.at_start() {
                        Gravity(Vector::zero())
                    } else {
                        player.gravity
                    },
                    collided: Some(CollidedThisFrame(timer)),
                    ..player
                }
            }
        },
    }
}

/// The lowest vertical velocity under the given gravity, in micro-units per
/// second: that of twice the gravity.
pub open spec fn terminal_fall(gravity: Gravity) -> int {
    clamp_i64(2 * gravity.0.y * VELOCITY_SCALE)
}

/// The velocity after `elapsed` microseconds under `gravity`, held at or above
/// the terminal fall.
pub open spec fn velocity_after(velocity: Velocity, gravity: Gravity, elapsed: u32) -> Velocity {
    let x = clamp_i64(velocity.0.x + gravity.0.x * elapsed);
    let y = clamp_i64(velocity.0.y + gravity.0.y * elapsed);
    Velocity(
        Vector {
            x: x as i64,
            y: if y <= terminal_fall(gravity) {
                terminal_fall(gravity) as i64
            } else {
                y as i64
            },
        },
    )
}

/// The way a velocity covers in `elapsed` microseconds, in pico-units.
pub open spec fn displacement_of(velocity: Velocity, elapsed: u32) -> Vector {
    Vector {
        x: clamp_i64(velocity.0.x * elapsed) as i64,
        y: clamp_i64(velocity.0.y * elapsed) as i64,
    }
}

/// The player after a tick of the cooldown and of gravity.
pub open spec fn player_after_velocity(player: Player, elapsed: u32) -> Player {
    let cooled = after_cooldown(player, elapsed);
    Player { velocity: velocity_after(cooled.velocity, cooled.gravity, elapsed), ..cooled }
}

/// Advances the velocity by a tick of gravity.
pub fn integrate(velocity: Velocity, gravity: Gravity, elapsed: u32) -> (v: Velocity)
    ensures
        v == velocity_after(velocity, gravity, elapsed),
{
    let x = advance(velocity.0.x, gravity.0.x, elapsed);
    let y = advance(velocity.0.y, gravity.0.y, elapsed);
    assert(2 * gravity.0.y * VELOCITY_SCALE == gravity.0.y * 2_000_000) by (nonlinear_arith);
    proof {
        lemma_product_fits(gravity.0.y as int, 2_000_000);
    }
    let floor = saturate_i64((gravity.0.y as i128) * 2_000_000);
    Velocity(
        Vector {
            x,
            y: if y <= floor {
                floor
            } else {
                y
            },
        },
    )
}

/// Runs the player's collision cooldown and gravity for a tick, and returns the
/// displacement to ask of the physics engine: the new velocity over the tick.
pub fn handle_velocity(player: &mut Player, elapsed: u32) -> (displacement: Vector)
    ensures
        *final(player) == player_after_velocity(*old(player), elapsed),
        displacement == displacement_of(final(player).velocity, elapsed),
{
    match player.collided {
        None => {},
        Some(mark) => {
            let mut timer = mark.0;
            if timer.fraction_is_zero() {
                player.gravity = Gravity(Vector { x: 0, y: 0 });
            }
            if timer.tick(elapsed) {
                player.gravity = Gravity(Vector { x: 0, y: GRAVITY });
                player.collided = None;
            } else {
                player.collided = Some(CollidedThisFrame(timer));
            }
        },
    }
    player.velocity = integrate(player.velocity, player.gravity, elapsed);
    Vector {
        x: advance(0, player.velocity.0.x, elapsed),
        y: advance(0, player.velocity.0.y, elapsed),
    }
}

} // verus!
