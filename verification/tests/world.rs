use credit_defense::components::{
    CollidedThisFrame, CurrentCard, CurrentHealth, CursorPos, DayText, Enemy, EnemyDirection,
    GameState, Gravity, HPBar, Input, JumpPolicy, JumpTimer, MaxHealth, MoneyText, MonthTimer,
    NoticeKind, PatrolPolicy, Player, Projectile, SpawnTimer, Velocity,
};
use credit_defense::timer::{Timer, TimerMode};
use credit_defense::vector::Vector;
use credit_defense::world::{setup, TickReport, World};

const UNIT: i64 = 1_000_000_000_000;

fn no_input() -> Input {
    Input { left: false, right: false, up: false, down: false, jump: false, fire: false, upgrade: false }
}

fn first_player() -> Player {
    Player {
        id: 1,
        position: Vector::new(-50 * UNIT, -300 * UNIT),
        velocity: Velocity(Vector::new(0, 0)),
        gravity: Gravity(Vector::new(0, -200)),
        max_health: MaxHealth(100),
        health: CurrentHealth(100),
        collided: None,
        facing_right: false,
    }
}

fn first_enemy() -> Enemy {
    Enemy {
        id: 2,
        position: Vector::new(0, -305 * UNIT),
        velocity: Velocity(Vector::new(0, 0)),
        max_health: MaxHealth(50),
        health: CurrentHealth(50),
        direction: EnemyDirection(1, Timer::new(2_000_000, TimerMode::Repeating)),
        jump_timer: JumpTimer(Timer::new(10_000_000, TimerMode::Repeating)),
        patrol: PatrolPolicy::ByTimer,
        jump: JumpPolicy::BySnap,
    }
}

#[test]
fn match_starts_with_a_player_an_enemy_and_the_first_rent() {
    let world = setup(1, 2);
    assert_eq!(
        world,
        World {
            player: Some(first_player()),
            enemies: vec![first_enemy()],
            projectiles: Vec::new(),
            hp_bar: HPBar(1_000_000),
            money: MoneyText(0, 2800),
            day: DayText(1),
            card: CurrentCard(0),
            cursor: CursorPos {
                world_coords: Vector::new(0, 0),
                screen_coords: Vector::new(0, 0),
                ui_coords: Vector::new(0, 0),
            },
            spawn_timer: SpawnTimer(Timer::new(3_000_000, TimerMode::Repeating)),
            month_timer: MonthTimer(Timer::new(75_000_000, TimerMode::Repeating)),
            notices: Vec::new(),
            state: GameState::Running,
        }
    );
}

#[test]
fn quiet_tick_lets_the_player_fall_and_the_enemy_walk() {
    let mut world = setup(1, 2);
    let report = world.tick(&no_input(), &Vec::new(), 10_000, 100, 200);
    assert_eq!(
        report,
        TickReport { displacement: Some(Vector::new(0, -20_000_000_000)), fired: None, spawned: None }
    );
    let player = world.player.unwrap();
    assert_eq!(player.velocity, Velocity(Vector::new(0, -2_000_000)));
    assert_eq!(player.health, CurrentHealth(100));
    assert_eq!(world.enemies.len(), 1);
    assert_eq!(world.enemies[0].position, Vector::new(2 * UNIT, -305 * UNIT));
    assert_eq!(world.month_timer.0.elapsed_micros(), 10_000);
    assert_eq!(world.spawn_timer.0.elapsed_micros(), 10_000);
    assert_eq!(world.day, DayText(0));
    assert_eq!(world.hp_bar, HPBar(1_000_000));
    assert_eq!(world.state, GameState::Running);
    assert!(world.notices.is_empty());
}

#[test]
fn contact_is_seen_by_the_same_ticks_gravity() {
    let mut world = setup(1, 2);
    let report = world.tick(&no_input(), &vec![(2, 1)], 10_000, 100, 200);
    let player = world.player.unwrap();
    assert_eq!(player.health, CurrentHealth(90));
    // the mark is fresh when gravity runs, so gravity is off in this very tick
    assert_eq!(player.gravity, Gravity(Vector::new(0, 0)));
    assert_eq!(player.velocity, Velocity(Vector::new(0, 0)));
    assert_eq!(report.displacement, Some(Vector::new(0, 0)));
    let mut timer = Timer::new(100_000, TimerMode::Once);
    timer.tick(10_000);
    assert_eq!(player.collided, Some(CollidedThisFrame(timer)));
    assert_eq!(world.hp_bar, HPBar(900_000));
}

#[test]
fn contact_comes_before_the_jump() {
    let mut world = setup(1, 2);
    let input = Input { jump: true, ..no_input() };
    world.tick(&input, &vec![(1, 77)], 10_000, 100, 200);
    let player = world.player.unwrap();
    // the jump found gravity standing, and the fresh mark then switched it off
    assert_eq!(player.gravity, Gravity(Vector::new(0, 0)));
    assert_eq!(player.velocity, Velocity(Vector::new(0, 150_000_000)));
    assert_eq!(player.health, CurrentHealth(100));
}

#[test]
fn shot_joins_the_projectiles_and_flies_in_the_same_tick() {
    let mut world = setup(1, 2);
    world.cursor.world_coords = Vector::new(-50 * UNIT, -200 * UNIT);
    let input = Input { fire: true, ..no_input() };
    let report = world.tick(&input, &Vec::new(), 10_000, 100, 200);
    let shot = Projectile {
        id: 100,
        position: Vector::new(-50 * UNIT, -300 * UNIT),
        direction: Vector::new(0, 1_000_000),
        speed: 300,
        damage: 10,
    };
    assert_eq!(report.fired, Some(shot));
    assert_eq!(
        world.projectiles,
        vec![Projectile { position: Vector::new(-50 * UNIT, -297 * UNIT), ..shot }]
    );
}

#[test]
fn projectile_that_destroys_the_enemy_pays_in_the_same_tick() {
    let mut world = setup(1, 2);
    world.enemies[0].health = CurrentHealth(10);
    world.projectiles.push(Projectile {
        id: 100,
        position: Vector::new(0, -305 * UNIT),
        direction: Vector::new(1_000_000, 0),
        speed: 300,
        damage: 10,
    });
    world.tick(&no_input(), &vec![(100, 2)], 10_000, 101, 200);
    assert!(world.enemies.is_empty());
    assert!(world.projectiles.is_empty());
    assert_eq!(world.money, MoneyText(100, 2800));
    assert_eq!(world.notices.len(), 1);
    assert_eq!(world.notices[0].kind, NoticeKind::Reward(100));
    assert_eq!(world.notices[0].timer.0.elapsed_micros(), 0);
    world.tick(&no_input(), &Vec::new(), 1_000_000, 101, 200);
    assert!(world.notices.is_empty());
    assert_eq!(world.money, MoneyText(100, 2800));
}

#[test]
fn enemy_appears_when_the_spawn_timer_finishes() {
    let mut world = setup(1, 2);
    let report = world.tick(&no_input(), &Vec::new(), 2_999_999, 100, 200);
    assert_eq!(report.spawned, None);
    assert_eq!(world.enemies.len(), 1);
    let report = world.tick(&no_input(), &Vec::new(), 1, 100, 200);
    let newcomer = report.spawned.unwrap();
    assert_eq!(newcomer.id, 200);
    assert_eq!(newcomer.health, CurrentHealth(50));
    assert!(-300 * UNIT <= newcomer.position.x && newcomer.position.x < 300 * UNIT);
    assert!(-200 * UNIT <= newcomer.position.y && newcomer.position.y < 300 * UNIT);
    assert_eq!(world.enemies.len(), 2);
    assert_eq!(world.enemies[1].id, 200);
    // it has walked for this tick's microsecond already
    assert_eq!(world.enemies[1].position, Vector::new(newcomer.position.x + 200_000_000, newcomer.position.y));
}

#[test]
fn month_of_unpaid_rent_in_a_whole_tick() {
    let mut world = setup(1, 2);
    world.money = MoneyText(0, 200);
    world.tick(&no_input(), &Vec::new(), 75_000_000, 100, 200);
    assert_eq!(world.money, MoneyText(0, 400));
    assert_eq!(world.player.unwrap().health, CurrentHealth(70));
    assert_eq!(world.hp_bar, HPBar(700_000));
    assert_eq!(world.notices.len(), 1);
    assert_eq!(world.notices[0].kind, NoticeKind::RentUnpaid);
    assert_eq!(world.state, GameState::Running);
}

#[test]
fn world_without_a_player_runs_on_without_the_players_phases() {
    let mut world = setup(1, 2);
    world.player = None;
    world.money = MoneyText(5000, 200);
    world.cursor.world_coords = Vector::new(UNIT, UNIT);
    let input = Input { right: true, jump: true, fire: true, upgrade: true, ..no_input() };
    let report = world.tick(&input, &vec![(1, 2)], 75_000_000, 100, 200);
    assert_eq!(report.displacement, None);
    assert_eq!(report.fired, None);
    assert_eq!(world.player, None);
    // nothing is bought, nothing is fired, and the month does not advance
    assert_eq!(world.money, MoneyText(5000, 200));
    assert_eq!(world.card, CurrentCard(0));
    assert!(world.projectiles.is_empty());
    assert_eq!(world.month_timer, MonthTimer(Timer::new(75_000_000, TimerMode::Repeating)));
    assert_eq!(world.day, DayText(1));
    assert_eq!(world.hp_bar, HPBar(1_000_000));
    assert_eq!(world.state, GameState::Running);
    // the enemies go on
    assert!(report.spawned.is_some());
    assert_eq!(world.enemies.len(), 2);
}

#[test]
fn lost_match_goes_on_ticking() {
    let mut world = setup(1, 2);
    world.player.as_mut().unwrap().health = CurrentHealth(5);
    world.tick(&no_input(), &vec![(1, 2)], 10_000, 100, 200);
    assert_eq!(world.player.unwrap().health, CurrentHealth(-5));
    assert_eq!(world.state, GameState::GameOver);
    assert_eq!(world.notices.len(), 1);
    assert_eq!(world.notices[0].kind, NoticeKind::GameOver);
    assert_eq!(world.hp_bar, HPBar(-50_000));
    world.tick(&no_input(), &Vec::new(), 10_000, 100, 200);
    assert_eq!(world.state, GameState::GameOver);
    assert_eq!(world.notices.len(), 2);
    assert_eq!(world.enemies[0].position.x, 4 * UNIT);
}
