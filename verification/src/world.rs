//! The whole simulation: its state, how it starts, and what one tick does to it.

use vstd::prelude::*;
use crate::collision::{
    enemies_after_strikes, handle_collisions, handle_proj_collisions, player_after_collisions,
    projectiles_after_strikes,
};
use crate::components::{
    fresh_repeating, CurrentCard, CurrentHealth, CursorPos, DayText, Enemy, EnemyDirection,
    GameState, Gravity, HPBar, Input, JumpPolicy, JumpTimer, MaxHealth, MoneyText, MonthTimer,
    Notice, PatrolPolicy, Player, Projectile, SpawnTimer, Velocity, CONTACT_DAMAGE, ENEMY_HEALTH,
    ENEMY_JUMP_INTERVAL, FRACTION_SCALE, GRAVITY, INITIAL_RENT, MONTH, PLAYER_HEALTH,
    SPAWN_INTERVAL,
};
use crate::economy::{
    alive, cash_after_rewards, day_of, fallen_count, fraction_of, handle_despawn_timers,
    handle_health_change, health_after_month, ledger_after_month, month_notices, notices_after,
    reward_notices, state_after, tick_month,
};
use crate::enemy::{enemies_after_move, enemy_movement, is_newcomer, spawn_random_enemies};
use crate::motion::{
    card_after_inputs, displacement_of, handle_inputs, handle_velocity, ledger_after_inputs,
    player_after_inputs, player_after_velocity, shot_fired,
};
use crate::projectile::{move_projectiles, projectiles_after_move};
use crate::timer::{Timer, TimerMode};
use crate::vector::Vector;

verus! {

/// Where the player starts, in pico-units.
pub const PLAYER_START_X: i64 = -50_000_000_000_000;

pub const PLAYER_START_Y: i64 = -300_000_000_000_000;

/// Where the first enemy starts, in pico-units.
pub const ENEMY_START_X: i64 = 0;

pub const ENEMY_START_Y: i64 = -305_000_000_000_000;

/// The time between two turns of the first enemy, in microseconds.
pub const ENEMY_TURN_TIME: u64 = 2_000_000;

/// The state of the simulation.
#[derive(Clone, Debug, PartialEq, Eq)]
pub struct World {
    /// The player's character, as long as there is one.
    pub player: Option<Player>,
    pub enemies: Vec<Enemy>,
    pub projectiles: Vec<Projectile>,
    pub hp_bar: HPBar,
    pub money: MoneyText,
    pub day: DayText,
    pub card: CurrentCard,
    pub cursor: CursorPos,
    pub spawn_timer: SpawnTimer,
    pub month_timer: MonthTimer,
    pub notices: Vec<Notice>,
    pub state: GameState,
}

/// The state of the simulation as the contracts see it.
pub struct Scene {
    pub player: Option<Player>,
    pub enemies: Seq<Enemy>,
    pub projectiles: Seq<Projectile>,
    pub hp_bar: HPBar,
    pub money: MoneyText,
    pub day: DayText,
    pub card: CurrentCard,
    pub cursor: CursorPos,
    pub spawn_timer: SpawnTimer,
    pub month_timer: MonthTimer,
    pub notices: Seq<Notice>,
    pub state: GameState,
}

impl View for World {
    type V = Scene;

    open spec fn view(&self) -> Scene {
        Scene {
            player: self.player,
            enemies: self.enemies@,
            projectiles: self.projectiles@,
            hp_bar: self.hp_bar,
            money: self.money,
            day: self.day,
            card: self.card,
            cursor: self.cursor,
            spawn_timer: self.spawn_timer,
            month_timer: self.month_timer,
            notices: self.notices@,
            state: self.state,
        }
    }
}

/// What a tick asks of, and tells, the world around the simulation.
#[derive(Clone, Copy, Debug, PartialEq, Eq)]
pub struct TickReport {
    /// The way the player is to be moved by the physics engine, in pico-units.
    pub displacement: Option<Vector>,
    /// The projectile that was fired in this tick.
    pub fired: Option<Projectile>,
    /// The enemy that appeared in this tick.
    pub spawned: Option<Enemy>,
}

/// The player at the start of a match.
pub open spec fn first_player(id: u64) -> Player {
    Player {
        id,
        position: Vector { x: PLAYER_START_X, y: PLAYER_START_Y },
        velocity: Velocity(Vector::zero()),
        gravity: Gravity(Vector { x: 0, y: GRAVITY }),
        max_health: MaxHealth(PLAYER_HEALTH),
        health: CurrentHealth(PLAYER_HEALTH),
        collided: None,
        facing_right: false,
    }
}

/// The enemy that is there at the start of a match.
pub open spec fn first_enemy(id: u64) -> Enemy {
    Enemy {
        id,
        position: Vector { x: ENEMY_START_X, y: ENEMY_START_Y },
        velocity: Velocity(Vector::zero()),
        max_health: MaxHealth(ENEMY_HEALTH),
        health: CurrentHealth(ENEMY_HEALTH),
        direction: EnemyDirection(1, fresh_repeating(ENEMY_TURN_TIME)),
        jump_timer: JumpTimer(fresh_repeating(ENEMY_JUMP_INTERVAL)),
        patrol: PatrolPolicy::ByTimer,
        jump: JumpPolicy::BySnap,
    }
}

/// The simulation at the start of a match: the player and one enemy in full
/// health, a full health bar, no cash, the first rent due, the first day, no
/// upgrade, and all timers at their start.
pub open spec fn first_scene(player_id: u64, enemy_id: u64) -> Scene {
    Scene {
        player: Some(first_player(player_id)),
        enemies: seq![first_enemy(enemy_id)],
        projectiles: Seq::empty(),
        hp_bar: HPBar(FRACTION_SCALE),
        money: MoneyText(0, INITIAL_RENT),
        day: DayText(1),
        card: CurrentCard(0),
        cursor: CursorPos {
            world_coords: Vector::zero(),
            screen_coords: Vector::zero(),
            ui_coords: Vector::zero(),
        },
        spawn_timer: SpawnTimer(fresh_repeating(SPAWN_INTERVAL)),
        month_timer: MonthTimer(fresh_repeating(MONTH)),
        notices: Seq::empty(),
        state: GameState::Running,
    }
}

/// Sets the simulation up for a match, with the given ids for the player and the first enemy.
pub fn setup(player_id: u64, enemy_id: u64) -> (world: World)
    ensures
        world@ == first_scene(player_id, enemy_id),
{
    let player = Player {
        id: player_id,
        position: Vector { x: PLAYER_START_X, y: PLAYER_START_Y },
        velocity: Velocity(Vector { x: 0, y: 0 }),
        gravity: Gravity(Vector { x: 0, y: GRAVITY }),
        max_health: MaxHealth(PLAYER_HEALTH),
        health: CurrentHealth(PLAYER_HEALTH),
        collided: None,
        facing_right: false,
    };
    let enemy = Enemy {
        id: enemy_id,
        position: Vector { x: ENEMY_START_X, y: ENEMY_START_Y },
        velocity: Velocity(Vector { x: 0, y: 0 }),
        max_health: MaxHealth(ENEMY_HEALTH),
        health: CurrentHealth(ENEMY_HEALTH),
        direction: EnemyDirection(1, Timer::new(ENEMY_TURN_TIME, TimerMode::Repeating)),
        jump_timer: JumpTimer(Timer::new(ENEMY_JUMP_INTERVAL, TimerMode::Repeating)),
        patrol: PatrolPolicy::ByTimer,
        jump: JumpPolicy::BySnap,
    };
    let mut enemies: Vec<Enemy> = Vec::new();
    enemies.push(enemy);
    let world = World {
        player: Some(player),
        enemies,
        projectiles: Vec::new(),
        hp_bar: HPBar(FRACTION_SCALE),
        money: MoneyText(0, INITIAL_RENT),
        day: DayText(1),
        card: CurrentCard(0),
        cursor: CursorPos {
            world_coords: Vector { x: 0, y: 0 },
            screen_coords: Vector { x: 0, y: 0 },
            ui_coords: Vector { x: 0, y: 0 },
        },
        spawn_timer: SpawnTimer(Timer::new(SPAWN_INTERVAL, TimerMode::Repeating)),
        month_timer: MonthTimer(Timer::new(MONTH, TimerMode::Repeating)),
        notices: Vec::new(),
        state: GameState::Running,
    };
    proof {
        assert(world.enemies@ =~= seq![first_enemy(enemy_id)]);
        assert(world@.projectiles =~= Seq::<Projectile>::empty());
        assert(world@.notices =~= Seq::<Notice>::empty());
    }
    world
}

/// The scene after the enemies' contacts with the player. Without a player nothing happens.
pub open spec fn scene_after_collisions(scene: Scene, pairs: Seq<(u64, u64)>) -> Scene {
    match scene.player {
        Some(player) => Scene {
            player: Some(
                player_after_collisions(
                    player,
                    scene.enemies,
                    scene.projectiles,
                    pairs,
                    CONTACT_DAMAGE,
                ),
            ),
            ..scene
        },
        None => scene,
    }
}

/// The scene after the input of a tick. Without a player nothing happens.
pub open spec fn scene_after_inputs(
    scene: Scene,
    input: Input,
    elapsed: u32,
    projectile_id: u64,
) -> Scene {
    match scene.player {
        Some(player) => {
            let card = card_after_inputs(scene.card, scene.money, input);
            Scene {
                player: Some(player_after_inputs(player, input, elapsed)),
                money: ledger_after_inputs(scene.money, input),
                card,
                projectiles: match shot_fired(player, card, scene.cursor, input, projectile_id) {
                    Some(shot) => scene.projectiles.push(shot),
                    None => scene.projectiles,
                },
                ..scene
            }
        },
        None => scene,
    }
}

/// The scene after the notices have aged by a tick.
pub open spec fn scene_after_despawns(scene: Scene, elapsed: u32) -> Scene {
    Scene { notices: notices_after(scene.notices, elapsed), ..scene }
}

/// The scene after the player's tick of cooldown and gravity. Without a player nothing happens.
pub open spec fn scene_after_velocity(scene: Scene, elapsed: u32) -> Scene {
    match scene.player {
        Some(player) => Scene { player: Some(player_after_velocity(player, elapsed)), ..scene },
        None => scene,
    }
}

/// The scene after the month's tick. Without a player nothing happens, and the
/// month does not advance.
pub open spec fn scene_after_month(scene: Scene, elapsed: u32) -> Scene {
    match scene.player {
        Some(player) => {
            let timer = scene.month_timer.0.ticked(elapsed);
            let health = if timer.finished() {
                health_after_month(player.health, scene.money)
            } else {
                player.health
            };
            Scene {
                month_timer: MonthTimer(timer),
                day: DayText(day_of(timer) as u64),
                money: if timer.finished() {
                    ledger_after_month(scene.money)
                } else {
                    scene.money
                },
                player: Some(Player { health, ..player }),
                state: state_after(scene.state, health),
                notices: scene.notices + month_notices(timer.finished(), scene.money, health),
                ..scene
            }
        },
        None => scene,
    }
}

/// The scene after the projectiles' meetings with enemies.
pub open spec fn scene_after_strikes(scene: Scene, pairs: Seq<(u64, u64)>) -> Scene {
    Scene {
        enemies: enemies_after_strikes(scene.enemies, scene.projectiles, pairs, scene.card),
        projectiles: projectiles_after_strikes(scene.enemies, scene.projectiles, pairs),
        ..scene
    }
}

/// The scene after the tick of the spawn timer, with the enemy that appeared, if one did.
pub open spec fn scene_after_spawn(scene: Scene, elapsed: u32, newcomer: Option<Enemy>) -> Scene {
    Scene {
        spawn_timer: SpawnTimer(scene.spawn_timer.0.ticked(elapsed)),
        enemies: match newcomer {
            Some(enemy) => scene.enemies.push(enemy),
            None => scene.enemies,
        },
        ..scene
    }
}

/// The scene after the enemies' moves.
pub open spec fn scene_after_enemy_moves(scene: Scene, elapsed: u32) -> Scene {
    Scene { enemies: enemies_after_move(scene.enemies, elapsed), ..scene }
}

/// The scene after the reaction to the actors' health.
pub open spec fn scene_after_health_change(scene: Scene) -> Scene {
    Scene {
        hp_bar: match scene.player {
            Some(player) => HPBar(fraction_of(player.health, player.max_health) as i64),
            None => scene.hp_bar,
        },
        enemies: scene.enemies.filter(alive()),
        money: MoneyText(
            cash_after_rewards(scene.money.0, scene.card, fallen_count(scene.enemies)) as i32,
            scene.money.1,
        ),
        notices: scene.notices + reward_notices(scene.card, fallen_count(scene.enemies)),
        ..scene
    }
}

/// The scene after the projectiles' flight.
pub open spec fn scene_after_flight(scene: Scene, elapsed: u32) -> Scene {
    Scene { projectiles: projectiles_after_move(scene.projectiles, elapsed), ..scene }
}

/// The scene when the player's part of a tick is done: contacts, then input,
/// then the notices, then cooldown and gravity.
pub open spec fn scene_after_player_phases(
    scene: Scene,
    input: Input,
    pairs: Seq<(u64, u64)>,
    elapsed: u32,
    projectile_id: u64,
) -> Scene {
    scene_after_velocity(
        scene_after_despawns(
            scene_after_inputs(scene_after_collisions(scene, pairs), input, elapsed, projectile_id),
            elapsed,
        ),
        elapsed,
    )
}

/// The scene after a whole tick. The phases run in this order: the enemies'
/// contacts with the player, the input, the notices, the player's cooldown and
/// gravity, the month, the projectiles' meetings with enemies, the spawn, the
/// enemies' moves, the reaction to health, the projectiles' flight. Each phase
/// sees what the phases before it did.
pub open spec fn scene_after_tick(
    scene: Scene,
    input: Input,
    pairs: Seq<(u64, u64)>,
    elapsed: u32,
    projectile_id: u64,
    newcomer: Option<Enemy>,
) -> Scene {
    scene_after_flight(
        scene_after_health_change(
            scene_after_enemy_moves(
                scene_after_spawn(
                    scene_after_strikes(
                        scene_after_month(
                            scene_after_player_phases(scene, input, pairs, elapsed, projectile_id),
                            elapsed,
                        ),
                        pairs,
                    ),
                    elapsed,
                    newcomer,
                ),
                elapsed,
            ),
        ),
        elapsed,
    )
}

/// The displacement that a tick asks for: that of the player's velocity after
/// the tick's cooldown and gravity; none without a player.
pub open spec fn displacement_in_tick(
    scene: Scene,
    input: Input,
    pairs: Seq<(u64, u64)>,
    elapsed: u32,
    projectile_id: u64,
) -> Option<Vector> {
    match scene_after_player_phases(scene, input, pairs, elapsed, projectile_id).player {
        Some(player) => Some(displacement_of(player.velocity, elapsed)),
        None => None,
    }
}

/// The projectile that a tick fires: the one the input fires after the tick's
/// contacts; none without a player.
pub open spec fn shot_in_tick(
    scene: Scene,
    input: Input,
    pairs: Seq<(u64, u64)>,
    projectile_id: u64,
) -> Option<Projectile> {
    match scene_after_collisions(scene, pairs).player {
        Some(player) => shot_fired(
            player,
            card_after_inputs(scene.card, scene.money, input),
            scene.cursor,
            input,
            projectile_id,
        ),
        None => None,
    }
}

impl World {
    /// Advances the simulation by one tick of `elapsed` microseconds, in which
    /// the physics engine saw the overlaps `pairs`. A projectile fired in this
    /// tick gets the id `projectile_id`, an enemy that appears the id `enemy_id`.
    pub fn tick(
        &mut self,
        input: &Input,
        pairs: &Vec<(u64, u64)>,
        elapsed: u32,
        projectile_id: u64,
        enemy_id: u64,
    ) -> (report: TickReport)
        ensures
            final(self)@ == scene_after_tick(
                old(self)@,
                *input,
                pairs@,
                elapsed,
                projectile_id,
                report.spawned,
            ),
            report.displacement == displacement_in_tick(
                old(self)@,
                *input,
                pairs@,
                elapsed,
                projectile_id,
            ),
            report.fired == shot_in_tick(old(self)@, *input, pairs@, projectile_id),
            report.spawned is Some <==> old(self).spawn_timer.0.ticked(elapsed).finished(),
            report.spawned is Some ==> is_newcomer(report.spawned->0, enemy_id),
    {
        let mut fired: Option<Projectile> = None;
        match self.player {
            Some(found) => {
                let mut player = found;
                handle_collisions(
                    &mut player,
                    &self.enemies,
                    &self.projectiles,
                    pairs,
                    CONTACT_DAMAGE,
                );
                fired =
                handle_inputs(
                    &mut player,
                    &mut self.money,
                    &mut self.card,
                    &self.cursor,
                    input,
                    elapsed,
                    projectile_id,
                );
                match fired {
                    Some(shot) => {
                        self.projectiles.push(shot);
                    },
                    None => {},
                }
                self.player = Some(player);
            },
            None => {},
        }
        handle_despawn_timers(&mut self.notices, elapsed);
        let mut displacement: Option<Vector> = None;
        match self.player {
            Some(found) => {
                let mut player = found;
                displacement = Some(handle_velocity(&mut player, elapsed));
                tick_month(
                    &mut self.month_timer,
                    &mut self.day,
                    &mut self.money,
                    &mut player,
                    &mut self.state,
                    &mut self.notices,
                    elapsed,
                );
                self.player = Some(player);
            },
            None => {},
        }
        handle_proj_collisions(&mut self.enemies, &mut self.projectiles, pairs, &self.card);
        let spawned = spawn_random_enemies(
            &mut self.spawn_timer,
            &mut self.enemies,
            elapsed,
            enemy_id,
        );
        enemy_movement(&mut self.enemies, elapsed);
        handle_health_change(
            &self.player,
            &mut self.hp_bar,
            &mut self.enemies,
            &mut self.money,
            &self.card,
            &mut self.notices,
        );
        move_projectiles(&mut self.projectiles, elapsed);
        TickReport { displacement, fired, spawned }
    }
}

} // verus!
