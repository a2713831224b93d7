use credit_defense::collision::{
    count_strikes, handle_collisions, handle_proj_collisions, has_enemy, has_projectile, spent,
};
use credit_defense::components::{
    CollidedThisFrame, CurrentCard, CurrentHealth, Enemy, Gravity, MaxHealth, Player, Projectile,
    Velocity, CONTACT_DAMAGE, GRAVITY,
};
use credit_defense::economy::health_fraction;
use credit_defense::enemy::spawn_enemy;
use credit_defense::motion::handle_velocity;
use credit_defense::timer::{Timer, TimerMode};
use credit_defense::vector::Vector;

const PLAYER: u64 = 1;
const PLATFORM: u64 = 50;

fn player() -> Player {
    Player {
        id: PLAYER,
        position: Vector::new(0, 0),
        velocity: Velocity(Vector::new(0, 0)),
        gravity: Gravity(Vector::new(0, GRAVITY)),
        max_health: MaxHealth(100),
        health: CurrentHealth(100),
        collided: None,
        facing_right: false,
    }
}

fn enemy(id: u64) -> Enemy {
    spawn_enemy(id, 0, 0, 1_000_000)
}

fn projectile(id: u64) -> Projectile {
    Projectile {
        id,
        position: Vector::new(0, 0),
        direction: Vector::new(1_000_000, 0),
        speed: 300,
        damage: 10,
    }
}

fn fresh_mark() -> Option<CollidedThisFrame> {
    Some(CollidedThisFrame(Timer::new(100_000, TimerMode::Once)))
}

#[test]
fn lookups_by_id() {
    let enemies = vec![enemy(10), enemy(11)];
    let projectiles = vec![projectile(20)];
    assert!(has_enemy(&enemies, 10));
    assert!(has_enemy(&enemies, 11));
    assert!(!has_enemy(&enemies, 20));
    assert!(!has_enemy(&Vec::new(), 10));
    assert!(has_projectile(&projectiles, 20));
    assert!(!has_projectile(&projectiles, 10));
}

#[test]
fn enemy_contact_hurts_and_marks_the_player() {
    let mut p = player();
    let enemies = vec![enemy(10)];
    handle_collisions(&mut p, &enemies, &Vec::new(), &vec![(PLAYER, 10)], CONTACT_DAMAGE);
    assert_eq!(p.health, CurrentHealth(90));
    assert_eq!(p.collided, fresh_mark());
}

#[test]
fn either_order_of_a_pair_counts() {
    let mut p = player();
    let enemies = vec![enemy(10)];
    handle_collisions(&mut p, &enemies, &Vec::new(), &vec![(10, PLAYER)], CONTACT_DAMAGE);
    assert_eq!(p.health, CurrentHealth(90));
    assert_eq!(p.collided, fresh_mark());
}

#[test]
fn contact_with_the_ground_marks_without_hurting() {
    let mut p = player();
    let enemies = vec![enemy(10)];
    handle_collisions(&mut p, &enemies, &Vec::new(), &vec![(PLATFORM, PLAYER)], CONTACT_DAMAGE);
    assert_eq!(p.health, CurrentHealth(100));
    assert_eq!(p.collided, fresh_mark());
}

#[test]
fn pairs_without_the_player_do_nothing_to_it() {
    let mut p = player();
    let enemies = vec![enemy(10)];
    handle_collisions(&mut p, &enemies, &Vec::new(), &vec![(PLATFORM, 10), (10, 10)], CONTACT_DAMAGE);
    assert_eq!(p, player());
    handle_collisions(&mut p, &enemies, &Vec::new(), &Vec::new(), CONTACT_DAMAGE);
    assert_eq!(p, player());
}

#[test]
fn projectiles_do_not_touch_the_player() {
    let mut p = player();
    let projectiles = vec![projectile(20)];
    handle_collisions(&mut p, &Vec::new(), &projectiles, &vec![(PLAYER, 20), (20, PLAYER)], CONTACT_DAMAGE);
    assert_eq!(p, player());
}

#[test]
fn all_contacts_of_a_tick_add_up() {
    let mut p = player();
    let enemies = vec![enemy(10), enemy(11)];
    let pairs = vec![(PLAYER, 10), (11, PLAYER), (PLAYER, PLATFORM), (PLAYER, 10)];
    handle_collisions(&mut p, &enemies, &Vec::new(), &pairs, CONTACT_DAMAGE);
    assert_eq!(p.health, CurrentHealth(70));
    assert_eq!(p.collided, fresh_mark());
}

#[test]
fn marked_player_is_left_alone() {
    let mut timer = Timer::new(100_000, TimerMode::Once);
    timer.tick(50_000);
    let mut p = player();
    p.collided = Some(CollidedThisFrame(timer));
    let before = p;
    let enemies = vec![enemy(10)];
    handle_collisions(&mut p, &enemies, &Vec::new(), &vec![(PLAYER, 10)], CONTACT_DAMAGE);
    assert_eq!(p, before);
}

#[test]
fn contact_damage_can_be_chosen() {
    let mut p = player();
    let enemies = vec![enemy(10)];
    handle_collisions(&mut p, &enemies, &Vec::new(), &vec![(PLAYER, 10)], 1);
    assert_eq!(p.health, CurrentHealth(99));
}

#[test]
fn health_stops_at_the_end_of_the_range() {
    let mut p = player();
    p.health = CurrentHealth(i64::MIN + 5);
    let enemies = vec![enemy(10)];
    handle_collisions(&mut p, &enemies, &Vec::new(), &vec![(PLAYER, 10)], CONTACT_DAMAGE);
    assert_eq!(p.health, CurrentHealth(i64::MIN));
}

#[test]
fn three_hits_on_three_ticks_leave_seventy_of_a_hundred() {
    let mut p = player();
    let enemies = vec![enemy(10)];
    let pairs = vec![(PLAYER, 10)];
    for _ in 0..3 {
        handle_collisions(&mut p, &enemies, &Vec::new(), &pairs, 10);
        // the mark of the hit runs out before the next one
        handle_velocity(&mut p, 100_000);
        assert_eq!(p.collided, None);
    }
    assert_eq!(p.health, CurrentHealth(70));
    let fraction = health_fraction(p.health, p.max_health);
    assert_eq!(fraction, 700_000);
    assert_eq!(fraction as f64 / 1_000_000.0, 0.7);
}

#[test]
fn hits_within_the_cooldown_do_not_stack() {
    let mut p = player();
    let enemies = vec![enemy(10)];
    let pairs = vec![(PLAYER, 10)];
    handle_collisions(&mut p, &enemies, &Vec::new(), &pairs, 10);
    assert_eq!(p.health, CurrentHealth(90));
    for _ in 0..5 {
        handle_velocity(&mut p, 16_667);
        handle_collisions(&mut p, &enemies, &Vec::new(), &pairs, 10);
        assert_eq!(p.health, CurrentHealth(90));
    }
    // 6 * 16_667 > 100_000: the mark goes, and the next contact hurts again
    handle_velocity(&mut p, 16_667);
    handle_collisions(&mut p, &enemies, &Vec::new(), &pairs, 10);
    assert_eq!(p.health, CurrentHealth(80));
}

#[test]
fn strikes_are_counted_per_enemy() {
    let projectiles = vec![projectile(20), projectile(21)];
    let pairs = vec![(10, 20), (21, 10), (11, 20), (10, PLAYER), (10, 10), (20, 21)];
    assert_eq!(count_strikes(&pairs, 10, &projectiles), 2);
    assert_eq!(count_strikes(&pairs, 11, &projectiles), 1);
    assert_eq!(count_strikes(&pairs, 12, &projectiles), 0);
    assert_eq!(count_strikes(&Vec::new(), 10, &projectiles), 0);
}

#[test]
fn spent_projectiles_are_those_that_met_an_enemy() {
    let enemies = vec![enemy(10)];
    let projectiles = vec![projectile(20), projectile(21), projectile(22)];
    let pairs = vec![(10, 20), (PLATFORM, 21), (22, 10)];
    assert!(spent(&pairs, 20, &enemies, &projectiles));
    assert!(!spent(&pairs, 21, &enemies, &projectiles));
    assert!(spent(&pairs, 22, &enemies, &projectiles));
    assert!(!spent(&pairs, 10, &enemies, &projectiles));
}

#[test]
fn projectile_hurts_the_enemy_and_is_used_up() {
    let mut enemies = vec![enemy(10), enemy(11)];
    let mut projectiles = vec![projectile(20), projectile(21)];
    handle_proj_collisions(&mut enemies, &mut projectiles, &vec![(20, 10)], &CurrentCard(0));
    assert_eq!(enemies[0].health, CurrentHealth(40));
    assert_eq!(enemies[1].health, CurrentHealth(50));
    assert_eq!(projectiles, vec![projectile(21)]);
    assert_eq!(enemies[0], Enemy { health: CurrentHealth(40), ..enemy(10) });
}

#[test]
fn upgraded_projectiles_hurt_more_whatever_they_were_fired_with() {
    let mut enemies = vec![enemy(10)];
    let mut projectiles = vec![projectile(20)];
    handle_proj_collisions(&mut enemies, &mut projectiles, &vec![(10, 20)], &CurrentCard(1));
    assert_eq!(enemies[0].health, CurrentHealth(35));
    assert!(projectiles.is_empty());
}

#[test]
fn several_projectiles_in_one_tick_all_count() {
    let mut enemies = vec![enemy(10)];
    let mut projectiles = vec![projectile(20), projectile(21), projectile(22)];
    let pairs = vec![(10, 20), (21, 10), (10, 22)];
    handle_proj_collisions(&mut enemies, &mut projectiles, &pairs, &CurrentCard(0));
    assert_eq!(enemies[0].health, CurrentHealth(20));
    assert!(projectiles.is_empty());
}

#[test]
fn one_projectile_on_two_enemies_hurts_both() {
    let mut enemies = vec![enemy(10), enemy(11)];
    let mut projectiles = vec![projectile(20)];
    let pairs = vec![(10, 20), (11, 20)];
    handle_proj_collisions(&mut enemies, &mut projectiles, &pairs, &CurrentCard(0));
    assert_eq!(enemies[0].health, CurrentHealth(40));
    assert_eq!(enemies[1].health, CurrentHealth(40));
    assert!(projectiles.is_empty());
}

#[test]
fn projectiles_pass_through_everything_but_enemies() {
    let mut enemies = vec![enemy(10)];
    let mut projectiles = vec![projectile(20), projectile(21)];
    let pairs = vec![(PLATFORM, 20), (PLAYER, 21), (20, 21), (10, PLAYER)];
    handle_proj_collisions(&mut enemies, &mut projectiles, &pairs, &CurrentCard(0));
    assert_eq!(enemies, vec![enemy(10)]);
    assert_eq!(projectiles, vec![projectile(20), projectile(21)]);
}

#[test]
fn enemies_have_no_cooldown() {
    let mut enemies = vec![enemy(10)];
    for hit in 1..=3 {
        let mut projectiles = vec![projectile(20)];
        handle_proj_collisions(&mut enemies, &mut projectiles, &vec![(10, 20)], &CurrentCard(0));
        assert_eq!(enemies[0].health, CurrentHealth(50 - 10 * hit));
    }
}
