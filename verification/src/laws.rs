//! What holds of the simulation whatever the state and the input.

use vstd::prelude::*;
use crate::collision::{
    contact_count, enemies_after_strikes, enemy_after_strikes, player_after_collisions,
    strike_count,
};
use crate::components::{
    damage_at, reward_at, CurrentCard, CurrentHealth, CursorPos, Enemy, GameState, Gravity, Input,
    MoneyText,
    Player, Projectile, Velocity, COLLISION_COOLDOWN, JUMP_VELOCITY, RENT_INCREMENT,
    RENT_PENALTY, VELOCITY_SCALE,
};
use crate::economy::{
    alive, cash_after_rewards, fallen, fallen_count, health_after_month, is_short,
    ledger_after_month,
};
use crate::motion::{
    after_cooldown, clamp_speed, intent, player_after_inputs, player_after_velocity, shot_fired,
    standard_gravity, velocity_after,
};
use crate::numeric::clamp_i32;
use crate::timer::{lemma_timer_parts, Timer, TimerMode};
use crate::vector::{lemma_direction_has_unit_length, squared_length, Vector, DIRECTION_SCALE};
use crate::world::{
    displacement_in_tick, scene_after_collisions, scene_after_inputs, scene_after_month,
    scene_after_tick, scene_after_velocity, shot_in_tick, Scene,
};

verus! {

/// Under a gravity that points down, no tick, however long, leaves the vertical
/// velocity below twice the gravity.
pub proof fn terminal_fall_holds(velocity: Velocity, gravity: Gravity, elapsed: u32)
    requires
        gravity.0.y < 0,
    ensures
        velocity_after(velocity, gravity, elapsed).0.y >= 2 * gravity.0.y * VELOCITY_SCALE,
{
    assert(2 * gravity.0.y * VELOCITY_SCALE < 0) by (nonlinear_arith)
        requires
            gravity.0.y < 0,
            VELOCITY_SCALE == 1_000_000,
    ;
}

/// The same of the player's whole tick: under the gravity that the collision
/// cooldown leaves in force, if it points down, the player's vertical velocity
/// is not below twice that gravity.
pub proof fn terminal_fall_holds_for_player(player: Player, elapsed: u32)
    requires
        player_after_velocity(player, elapsed).gravity.0.y < 0,
    ensures
        player_after_velocity(player, elapsed).velocity.0.y >= 2 * player_after_velocity(
            player,
            elapsed,
        ).gravity.0.y * VELOCITY_SCALE,
{
    let cooled = after_cooldown(player, elapsed);
    terminal_fall_holds(cooled.velocity, cooled.gravity, elapsed);
}

/// A jump sets the vertical velocity; it adds nothing to the velocity that was
/// there. With the jump key alone the velocity after the tick is the jump
/// velocity, whatever it was before, and so it is after a second jump right
/// after the first. (The key for moving down takes its share off, as in any tick.)
pub proof fn jump_sets_vertical_velocity(
    player: Player,
    first: Input,
    second: Input,
    elapsed_first: u32,
    elapsed_second: u32,
)
    requires
        first.jump,
        second.jump,
    ensures
        player_after_inputs(player, first, elapsed_first).velocity.0.y == clamp_speed(
            JUMP_VELOCITY + intent(first, elapsed_first).y,
        ),
        !first.down ==> player_after_inputs(player, first, elapsed_first).velocity.0.y
            == JUMP_VELOCITY,
        !second.down ==> player_after_inputs(
            player_after_inputs(player, first, elapsed_first),
            second,
            elapsed_second,
        ).velocity.0.y == JUMP_VELOCITY,
{
}

/// Without a jump the vertical velocity changes only by what the key for moving down asks.
pub proof fn no_jump_without_press(player: Player, input: Input, elapsed: u32)
    requires
        !input.jump,
    ensures
        player_after_inputs(player, input, elapsed).velocity.0.y == clamp_speed(
            player.velocity.0.y + intent(input, elapsed).y,
        ),
{
}

/// The timer of the mark that the player bears.
pub open spec fn mark_timer(player: Player) -> Timer {
    match player.collided {
        Some(mark) => mark.0,
        None => arbitrary(),
    }
}

/// The mark that a contact leaves has not run yet.
pub proof fn contact_leaves_fresh_mark(
    player: Player,
    enemies: Seq<Enemy>,
    projectiles: Seq<Projectile>,
    pairs: Seq<(u64, u64)>,
    damage: i64,
)
    requires
        player.collided is None,
        contact_count(pairs, player.id, projectiles) > 0,
    ensures
        player_after_collisions(player, enemies, projectiles, pairs, damage).collided is Some,
        mark_timer(
            player_after_collisions(player, enemies, projectiles, pairs, damage),
        ).at_start(),
        mark_timer(
            player_after_collisions(player, enemies, projectiles, pairs, damage),
        ).duration() == COLLISION_COOLDOWN,
        mark_timer(player_after_collisions(player, enemies, projectiles, pairs, damage)).mode()
            == TimerMode::Once,
{
    lemma_timer_parts(COLLISION_COOLDOWN, TimerMode::Once, 0, false);
}

/// In the tick in which the mark of a collision has not run yet, and does not
/// run out, gravity is off: the velocity of that tick is the one under no
/// gravity at all.
pub proof fn cooldown_switches_gravity_off(player: Player, elapsed: u32)
    requires
        player.collided is Some,
        mark_timer(player).at_start(),
        !mark_timer(player).ticked(elapsed).finished(),
    ensures
        player_after_velocity(player, elapsed).gravity == Gravity(Vector::zero()),
        player_after_velocity(player, elapsed).collided is Some,
        player_after_velocity(player, elapsed).velocity == velocity_after(
            player.velocity,
            Gravity(Vector::zero()),
            elapsed,
        ),
        player_after_velocity(player, elapsed).velocity.0.x == player.velocity.0.x,
{
    let zero = Gravity(Vector::zero());
    assert(zero.0.x * elapsed == 0 && zero.0.y * elapsed == 0) by (nonlinear_arith)
        requires
            zero.0.x == 0,
            zero.0.y == 0,
    ;
}

/// In the tick in which the timer of the mark finishes, and in no tick before
/// it, the mark goes and standard gravity is back in force.
pub proof fn cooldown_end_restores_gravity(player: Player, elapsed: u32)
    requires
        player.collided is Some,
    ensures
        mark_timer(player).ticked(elapsed).finished() ==> player_after_velocity(
            player,
            elapsed,
        ).gravity == standard_gravity() && player_after_velocity(player, elapsed).collided is None,
        !mark_timer(player).ticked(elapsed).finished() ==> player_after_velocity(
            player,
            elapsed,
        ).collided is Some && (player_after_velocity(player, elapsed).gravity == player.gravity
            || player_after_velocity(player, elapsed).gravity == Gravity(Vector::zero())),
{
}

/// A contact switches gravity off in its own tick if that tick is shorter than
/// the cooldown; a tick as long as the cooldown or longer ends the cooldown at
/// once, and leaves standard gravity in force and no mark.
pub proof fn contact_suspends_gravity(
    player: Player,
    enemies: Seq<Enemy>,
    projectiles: Seq<Projectile>,
    pairs: Seq<(u64, u64)>,
    damage: i64,
    elapsed: u32,
)
    requires
        player.collided is None,
        contact_count(pairs, player.id, projectiles) > 0,
    ensures
        elapsed < COLLISION_COOLDOWN ==> player_after_velocity(
            player_after_collisions(player, enemies, projectiles, pairs, damage),
            elapsed,
        ).gravity == Gravity(Vector::zero()) && player_after_velocity(
            player_after_collisions(player, enemies, projectiles, pairs, damage),
            elapsed,
        ).collided is Some,
        elapsed >= COLLISION_COOLDOWN ==> player_after_velocity(
            player_after_collisions(player, enemies, projectiles, pairs, damage),
            elapsed,
        ).gravity == standard_gravity() && player_after_velocity(
            player_after_collisions(player, enemies, projectiles, pairs, damage),
            elapsed,
        ).collided is None,
{
    lemma_timer_parts(COLLISION_COOLDOWN, TimerMode::Once, 0, false);
    let total = (0 + elapsed) as int;
    lemma_timer_parts(
        COLLISION_COOLDOWN,
        TimerMode::Once,
        (if total < COLLISION_COOLDOWN {
            total
        } else {
            COLLISION_COOLDOWN as int
        }) as u64,
        total >= COLLISION_COOLDOWN,
    );
}

/// The ledger after `months` month's ends in a row.
pub open spec fn ledger_after_months(money: MoneyText, months: nat) -> MoneyText
    decreases months,
{
    if months == 0 {
        money
    } else {
        ledger_after_month(ledger_after_months(money, (months - 1) as nat))
    }
}

/// The player's health after `months` month's ends in a row, with the ledger
/// as it was before the first of them.
pub open spec fn health_after_months(health: CurrentHealth, money: MoneyText, months: nat) -> CurrentHealth
    decreases months,
{
    if months == 0 {
        health
    } else {
        health_after_month(
            health_after_months(health, money, (months - 1) as nat),
            ledger_after_months(money, (months - 1) as nat),
        )
    }
}

/// With too little cash for the rent, every month's end raises the rent by the
/// increment and lowers the player's health by the penalty, and leaves the cash
/// too little for the next rent: after `months` of them the rent is up by
/// `months` increments and the health down by `months` penalties. This holds as
/// long as that rent and that health can be held in their types.
pub proof fn unpaid_rent_ratchets(money: MoneyText, health: CurrentHealth, months: nat)
    requires
        is_short(money),
        money.1 + months * RENT_INCREMENT <= i32::MAX,
        health.0 - months * RENT_PENALTY >= i64::MIN,
    ensures
        ledger_after_months(money, months) == MoneyText(
            money.0,
            (money.1 + months * RENT_INCREMENT) as i32,
        ),
        health_after_months(health, money, months) == CurrentHealth(
            (health.0 - months * RENT_PENALTY) as i64,
        ),
        is_short(ledger_after_months(money, months)),
        months > 0 ==> ledger_after_months(money, months).1 == ledger_after_months(
            money,
            (months - 1) as nat,
        ).1 + RENT_INCREMENT && health_after_months(health, money, months).0
            == health_after_months(health, money, (months - 1) as nat).0 - RENT_PENALTY,
    decreases months,
{
    if months > 0 {
        let before = (months - 1) as nat;
        assert(before * RENT_INCREMENT + RENT_INCREMENT == months * RENT_INCREMENT
            && before * RENT_PENALTY + RENT_PENALTY == months * RENT_PENALTY
            && before * RENT_INCREMENT >= 0 && before * RENT_PENALTY >= 0) by (nonlinear_arith)
            requires
                before == months - 1,
                months > 0,
                RENT_INCREMENT == 200,
                RENT_PENALTY == 30,
        ;
        unpaid_rent_ratchets(money, health, before);
    }
}

/// Every enemy is either kept or paid for, and none both.
pub proof fn each_enemy_kept_or_paid(enemies: Seq<Enemy>)
    ensures
        enemies.filter(alive()).len() + fallen_count(enemies) == enemies.len(),
        forall|i: int|
            0 <= i < enemies.filter(alive()).len() ==> (#[trigger] enemies.filter(
                alive(),
            )[i]).health.0 > 0,
        fallen_count(enemies.filter(alive())) == 0,
    decreases enemies.len(),
{
    reveal(Seq::filter);
    if enemies.len() > 0 {
        each_enemy_kept_or_paid(enemies.drop_last());
        let kept = enemies.filter(alive());
        no_fallen_among(kept);
    } else {
        assert(enemies.filter(alive()) =~= Seq::<Enemy>::empty());
    }
}

/// Where every enemy has health left, none counts as fallen.
proof fn no_fallen_among(enemies: Seq<Enemy>)
    requires
        forall|i: int| 0 <= i < enemies.len() ==> (#[trigger] enemies[i]).health.0 > 0,
    ensures
        fallen_count(enemies) == 0,
        enemies.filter(alive()) == enemies,
    decreases enemies.len(),
{
    reveal(Seq::filter);
    if enemies.len() > 0 {
        no_fallen_among(enemies.drop_last());
        assert(enemies.drop_last().push(enemies.last()) =~= enemies);
    } else {
        assert(enemies.filter(alive()) =~= enemies);
    }
}

/// An enemy whose health the projectiles of one tick use up is removed and
/// paid for once, however many projectiles met it: if it is the only one to
/// fall in that tick, the cash rises by one reward of the current tier (as far
/// as an `i32` holds it), and the enemies left are the others, in their order.
pub proof fn destroyed_enemy_pays_once(
    enemies: Seq<Enemy>,
    target: int,
    projectiles: Seq<Projectile>,
    pairs: Seq<(u64, u64)>,
    card: CurrentCard,
    cash: i32,
)
    requires
        0 <= target < enemies.len(),
        enemies[target].health.0 > 0,
        damage_at(card) * strike_count(pairs, enemies[target].id, projectiles)
            >= enemies[target].health.0,
        forall|j: int|
            0 <= j < enemies.len() && j != target ==> (#[trigger] enemy_after_strikes(
                enemies[j],
                projectiles,
                pairs,
                card,
            )).health.0 > 0,
    ensures
        fallen_count(enemies_after_strikes(enemies, projectiles, pairs, card)) == 1,
        enemies_after_strikes(enemies, projectiles, pairs, card).filter(alive())
            == enemies_after_strikes(enemies, projectiles, pairs, card).remove(target),
        cash_after_rewards(
            cash,
            card,
            fallen_count(enemies_after_strikes(enemies, projectiles, pairs, card)),
        ) == clamp_i32(cash + reward_at(card)),
{
    let struck = enemies_after_strikes(enemies, projectiles, pairs, card);
    assert(struck[target].health.0 <= 0);
    one_fallen_among(struck, target);
}

/// Where exactly the enemy at `target` has no health left, one enemy counts as
/// fallen and the others are kept in their order.
proof fn one_fallen_among(enemies: Seq<Enemy>, target: int)
    requires
        0 <= target < enemies.len(),
        enemies[target].health.0 <= 0,
        forall|j: int|
            0 <= j < enemies.len() && j != target ==> (#[trigger] enemies[j]).health.0 > 0,
    ensures
        fallen_count(enemies) == 1,
        enemies.filter(alive()) == enemies.remove(target),
    decreases enemies.len(),
{
    reveal(Seq::filter);
    let front = enemies.drop_last();
    if target == enemies.len() - 1 {
        no_fallen_among(front);
        assert(enemies.remove(target) =~= front);
    } else {
        one_fallen_among(front, target);
        assert(enemies.remove(target) =~= front.remove(target).push(enemies.last()));
    }
}

/// Without a player, a tick asks for no displacement, fires nothing, and
/// leaves alone what only the player's phases change: the upgrade tier, the
/// month and its day, the rent, the health bar and the state of the match.
pub proof fn tick_without_player_skips_its_phases(
    scene: Scene,
    input: Input,
    pairs: Seq<(u64, u64)>,
    elapsed: u32,
    projectile_id: u64,
    newcomer: Option<Enemy>,
)
    requires
        scene.player is None,
    ensures
        displacement_in_tick(scene, input, pairs, elapsed, projectile_id) is None,
        shot_in_tick(scene, input, pairs, projectile_id) is None,
        scene_after_tick(scene, input, pairs, elapsed, projectile_id, newcomer).player is None,
        scene_after_tick(scene, input, pairs, elapsed, projectile_id, newcomer).card == scene.card,
        scene_after_tick(scene, input, pairs, elapsed, projectile_id, newcomer).month_timer
            == scene.month_timer,
        scene_after_tick(scene, input, pairs, elapsed, projectile_id, newcomer).day == scene.day,
        scene_after_tick(scene, input, pairs, elapsed, projectile_id, newcomer).money.1
            == scene.money.1,
        scene_after_tick(scene, input, pairs, elapsed, projectile_id, newcomer).hp_bar
            == scene.hp_bar,
        scene_after_tick(scene, input, pairs, elapsed, projectile_id, newcomer).state
            == scene.state,
{
}

/// A match that is over stays over, whatever a tick brings.
pub proof fn game_over_stays(
    scene: Scene,
    input: Input,
    pairs: Seq<(u64, u64)>,
    elapsed: u32,
    projectile_id: u64,
    newcomer: Option<Enemy>,
)
    requires
        scene.state == GameState::GameOver,
    ensures
        scene_after_tick(scene, input, pairs, elapsed, projectile_id, newcomer).state
            == GameState::GameOver,
{
}

/// A player whose health is used up when the month has had its tick has lost
/// the match at the end of that tick.
pub proof fn used_up_health_ends_the_match(
    scene: Scene,
    input: Input,
    pairs: Seq<(u64, u64)>,
    elapsed: u32,
    projectile_id: u64,
    newcomer: Option<Enemy>,
)
    requires
        scene_after_tick(scene, input, pairs, elapsed, projectile_id, newcomer).player is Some,
        scene_after_tick(
            scene,
            input,
            pairs,
            elapsed,
            projectile_id,
            newcomer,
        ).player.unwrap().health.0 <= 0,
    ensures
        scene_after_tick(scene, input, pairs, elapsed, projectile_id, newcomer).state
            == GameState::GameOver,
{
}

/// The fire button fires exactly when the cursor is not where the player is,
/// and the shot then flies along a unit vector: the length of its direction is
/// at most the scale and falls short of it by less than 2.
pub proof fn shot_flies_along_unit_direction(
    player: Player,
    card: CurrentCard,
    cursor: CursorPos,
    input: Input,
    id: u64,
)
    ensures
        shot_fired(player, card, cursor, input, id) is Some <==> input.fire && cursor.world_coords
            != player.position,
        shot_fired(player, card, cursor, input, id) is Some ==> (DIRECTION_SCALE - 2) * (
        DIRECTION_SCALE - 2) <= shot_direction(player, card, cursor, input, id).x * shot_direction(
            player,
            card,
            cursor,
            input,
            id,
        ).x + shot_direction(player, card, cursor, input, id).y * shot_direction(
            player,
            card,
            cursor,
            input,
            id,
        ).y <= DIRECTION_SCALE * DIRECTION_SCALE,
{
    if cursor.world_coords != player.position {
        lemma_direction_has_unit_length(player.position, cursor.world_coords);
    } else {
        assert(squared_length(0, 0) == 0) by (nonlinear_arith);
    }
}

/// The direction of the shot that a tick's input fires.
pub open spec fn shot_direction(
    player: Player,
    card: CurrentCard,
    cursor: CursorPos,
    input: Input,
    id: u64,
) -> Vector {
    match shot_fired(player, card, cursor, input, id) {
        Some(shot) => shot.direction,
        None => Vector::zero(),
    }
}

/// Without a player, the player's phases change nothing at all: not the
/// contacts, not the input, not cooldown and gravity, not the month.
pub proof fn phases_without_player_change_nothing(
    scene: Scene,
    input: Input,
    pairs: Seq<(u64, u64)>,
    elapsed: u32,
    projectile_id: u64,
)
    requires
        scene.player is None,
    ensures
        scene_after_collisions(scene, pairs) == scene,
        scene_after_inputs(scene, input, elapsed, projectile_id) == scene,
        scene_after_velocity(scene, elapsed) == scene,
        scene_after_month(scene, elapsed) == scene,
{
}

} // verus!
