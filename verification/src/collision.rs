//! What the overlaps of a tick do: enemies hurt the player, projectiles hurt enemies.
//!
//! The physics engine reports each overlap as a pair of ids, in no particular
//! order and with either id first. Every pair counts, whether or not it was
//! there in the tick before.

use vstd::prelude::*;
use crate::components::{
    damage_at, fresh_once, CollidedThisFrame, CurrentCard, CurrentHealth, Enemy, Player,
    Projectile, COLLISION_COOLDOWN,
};
use crate::numeric::{clamp_i64, retreat};
use crate::sequences::{lemma_filter_next, lemma_filter_none, lemma_take_all};
use crate::timer::{Timer, TimerMode};

verus! {

/// Whether an enemy has the id.
pub open spec fn is_enemy(enemies: Seq<Enemy>, id: u64) -> bool {
    exists|i: int| 0 <= i < enemies.len() && (#[trigger] enemies[i]).id == id
}

/// Whether a projectile has the id.
pub open spec fn is_projectile(projectiles: Seq<Projectile>, id: u64) -> bool {
    exists|i: int| 0 <= i < projectiles.len() && (#[trigger] projectiles[i]).id == id
}

/// Whether an enemy has the id.
pub fn has_enemy(enemies: &Vec<Enemy>, id: u64) -> (found: bool)
    ensures
        found == is_enemy(enemies@, id),
{
    let mut i: usize = 0;
    while i < enemies.len()
        invariant
            i <= enemies.len(),
            forall|j: int| 0 <= j < i ==> (#[trigger] enemies@[j]).id != id,
        decreases enemies.len() - i,
    {
        if enemies[i].id == id {
            return true;
        }
        i += 1;
    }
    false
}

/// Whether a projectile has the id.
pub fn has_projectile(projectiles: &Vec<Projectile>, id: u64) -> (found: bool)
    ensures
        found == is_projectile(projectiles@, id),
{
    let mut i: usize = 0;
    while i < projectiles.len()
        invariant
            i <= projectiles.len(),
            forall|j: int| 0 <= j < i ==> (#[trigger] projectiles@[j]).id != id,
        decreases projectiles.len() - i,
    {
        if projectiles[i].id == id {
            return true;
        }
        i += 1;
    }
    false
}

/// Whether the pair is a contact of the player: the player is one side, and
/// neither side is a projectile.
pub open spec fn touches(pair: (u64, u64), player: u64, projectiles: Seq<Projectile>) -> bool {
    (pair.0 == player || pair.1 == player) && !is_projectile(projectiles, pair.0)
        && !is_projectile(projectiles, pair.1)
}

/// Whether the pair is a contact of the player with an enemy.
pub open spec fn hurts(
    pair: (u64, u64),
    player: u64,
    enemies: Seq<Enemy>,
    projectiles: Seq<Projectile>,
) -> bool {
    touches(pair, player, projectiles) && ((pair.0 == player && is_enemy(enemies, pair.1)) || (
    pair.1 == player && is_enemy(enemies, pair.0)))
}

pub open spec fn touching(player: u64, projectiles: Seq<Projectile>) -> spec_fn((u64, u64)) -> bool {
    |pair: (u64, u64)| touches(pair, player, projectiles)
}

pub open spec fn hurting(player: u64, enemies: Seq<Enemy>, projectiles: Seq<Projectile>) -> spec_fn(
    (u64, u64),
) -> bool {
    |pair: (u64, u64)| hurts(pair, player, enemies, projectiles)
}

/// How many of the pairs are contacts of the player.
pub open spec fn contact_count(
    pairs: Seq<(u64, u64)>,
    player: u64,
    projectiles: Seq<Projectile>,
) -> nat {
    pairs.filter(touching(player, projectiles)).len()
}

/// How many of the pairs are contacts of the player with an enemy.
pub open spec fn hit_count(
    pairs: Seq<(u64, u64)>,
    player: u64,
    enemies: Seq<Enemy>,
    projectiles: Seq<Projectile>,
) -> nat {
    pairs.filter(hurting(player, enemies, projectiles)).len()
}

/// The player after the contacts of a tick. A player that bears the mark of a
/// collision is left alone. Otherwise each contact with an enemy costs
/// `damage`, and any contact at all leaves a fresh mark.
pub open spec fn player_after_collisions(
    player: Player,
    enemies: Seq<Enemy>,
    projectiles: Seq<Projectile>,
    pairs: Seq<(u64, u64)>,
    damage: i64,
) -> Player {
    if player.collided is Some {
        player
    } else {
        Player {
            health: CurrentHealth(
                clamp_i64(
                    player.health.0 - damage * hit_count(pairs, player.id, enemies, projectiles),
                ) as i64,
            ),
            collided: if contact_count(pairs, player.id, projectiles) > 0 {
                Some(CollidedThisFrame(fresh_once(COLLISION_COOLDOWN)))
            } else {
                None
            },
            ..player
        }
    }
}

/// Applies the contacts among `pairs` to the player.
pub fn handle_collisions(
    player: &mut Player,
    enemies: &Vec<Enemy>,
    projectiles: &Vec<Projectile>,
    pairs: &Vec<(u64, u64)>,
    damage: i64,
)
    ensures
        *final(player) == player_after_collisions(
            *old(player),
            enemies@,
            projectiles@,
            pairs@,
            damage,
        ),
{
    if player.collided.is_some() {
        return ;
    }
    let id = player.id;
    let mut contacts: usize = 0;
    let mut hits: usize = 0;
    let mut i: usize = 0;
    proof {
        lemma_filter_none(pairs@, touching(id, projectiles@));
        lemma_filter_none(pairs@, hurting(id, enemies@, projectiles@));
    }
    while i < pairs.len()
        invariant
            i <= pairs.len(),
            contacts <= i,
            hits <= i,
            contacts == contact_count(pairs@.take(i as int), id, projectiles@),
            hits == hit_count(pairs@.take(i as int), id, enemies@, projectiles@),
        decreases pairs.len() - i,
    {
        let pair = pairs[i];
        proof {
            lemma_filter_next(pairs@, touching(id, projectiles@), i as int);
            lemma_filter_next(pairs@, hurting(id, enemies@, projectiles@), i as int);
        }
        if (pair.0 == id || pair.1 == id) && !has_projectile(projectiles, pair.0)
            && !has_projectile(projectiles, pair.1) {
            contacts += 1;
            if (pair.0 == id && has_enemy(enemies, pair.1)) || (pair.1 == id && has_enemy(
                enemies,
                pair.0,
            )) {
                hits += 1;
            }
        }
        i += 1;
    }
    proof {
        lemma_take_all(pairs@);
    }
    player.health = CurrentHealth(retreat(player.health.0, damage, hits as u64));
    if contacts > 0 {
        player.collided = Some(CollidedThisFrame(Timer::new(COLLISION_COOLDOWN, TimerMode::Once)));
    }
}

/// Whether the pair is a projectile meeting the enemy with the given id.
pub open spec fn strikes(pair: (u64, u64), enemy: u64, projectiles: Seq<Projectile>) -> bool {
    (pair.0 == enemy && is_projectile(projectiles, pair.1)) || (pair.1 == enemy && is_projectile(
        projectiles,
        pair.0,
    ))
}

pub open spec fn striking(enemy: u64, projectiles: Seq<Projectile>) -> spec_fn((u64, u64)) -> bool {
    |pair: (u64, u64)| strikes(pair, enemy, projectiles)
}

/// How many of the pairs are a projectile meeting the enemy with the given id.
pub open spec fn strike_count(pairs: Seq<(u64, u64)>, enemy: u64, projectiles: Seq<Projectile>) -> nat {
    pairs.filter(striking(enemy, projectiles)).len()
}

/// The enemy after the projectiles of a tick: each pair in which a projectile
/// meets it costs it the damage of the current upgrade tier.
pub open spec fn enemy_after_strikes(
    enemy: Enemy,
    projectiles: Seq<Projectile>,
    pairs: Seq<(u64, u64)>,
    card: CurrentCard,
) -> Enemy {
    Enemy {
        health: CurrentHealth(
            clamp_i64(
                enemy.health.0 - damage_at(card) * strike_count(pairs, enemy.id, projectiles),
            ) as i64,
        ),
        ..enemy
    }
}

/// The enemies after the projectiles of a tick.
pub open spec fn enemies_after_strikes(
    enemies: Seq<Enemy>,
    projectiles: Seq<Projectile>,
    pairs: Seq<(u64, u64)>,
    card: CurrentCard,
) -> Seq<Enemy> {
    Seq::new(enemies.len(), |i: int| enemy_after_strikes(enemies[i], projectiles, pairs, card))
}

/// Whether the pair is a projectile meeting an enemy, and `id` the projectile
/// that this uses up: the first of the pair if that is a projectile, else the second.
pub open spec fn spends(
    pair: (u64, u64),
    id: u64,
    enemies: Seq<Enemy>,
    projectiles: Seq<Projectile>,
) -> bool {
    ((is_enemy(enemies, pair.0) && is_projectile(projectiles, pair.1)) || (is_enemy(
        enemies,
        pair.1,
    ) && is_projectile(projectiles, pair.0))) && id == (if is_projectile(projectiles, pair.0) {
        pair.0
    } else {
        pair.1
    })
}

/// Whether one of the pairs uses up the projectile with the given id.
pub open spec fn is_spent(
    pairs: Seq<(u64, u64)>,
    id: u64,
    enemies: Seq<Enemy>,
    projectiles: Seq<Projectile>,
) -> bool {
    exists|k: int| 0 <= k < pairs.len() && spends(#[trigger] pairs[k], id, enemies, projectiles)
}

pub open spec fn unspent(
    pairs: Seq<(u64, u64)>,
    enemies: Seq<Enemy>,
    projectiles: Seq<Projectile>,
) -> spec_fn(Projectile) -> bool {
    |p: Projectile| !is_spent(pairs, p.id, enemies, projectiles)
}

/// The projectiles that none of the pairs uses up.
pub open spec fn projectiles_after_strikes(
    enemies: Seq<Enemy>,
    projectiles: Seq<Projectile>,
    pairs: Seq<(u64, u64)>,
) -> Seq<Projectile> {
    projectiles.filter(unspent(pairs, enemies, projectiles))
}

/// Whether one of the pairs uses up the projectile with the given id.
pub fn spent(
    pairs: &Vec<(u64, u64)>,
    id: u64,
    enemies: &Vec<Enemy>,
    projectiles: &Vec<Projectile>,
) -> (used: bool)
    ensures
        used == is_spent(pairs@, id, enemies@, projectiles@),
{
    let mut k: usize = 0;
    while k < pairs.len()
        invariant
            k <= pairs.len(),
            forall|j: int| 0 <= j < k ==> !spends(#[trigger] pairs@[j], id, enemies@, projectiles@),
        decreases pairs.len() - k,
    {
        let pair = pairs[k];
        let first = has_projectile(projectiles, pair.0);
        let second = has_projectile(projectiles, pair.1);
        let met = (second && has_enemy(enemies, pair.0)) || (first && has_enemy(enemies, pair.1));
        let used = if first {
            pair.0
        } else {
            pair.1
        };
        if met && id == used {
            return true;
        }
        k += 1;
    }
    false
}

/// How many of the pairs are a projectile meeting the enemy with the given id.
pub fn count_strikes(pairs: &Vec<(u64, u64)>, enemy: u64, projectiles: &Vec<Projectile>) -> (n:
    usize)
    ensures
        n == strike_count(pairs@, enemy, projectiles@),
{
    let mut n: usize = 0;
    let mut k: usize = 0;
    proof {
        lemma_filter_none(pairs@, striking(enemy, projectiles@));
    }
    while k < pairs.len()
        invariant
            k <= pairs.len(),
            n <= k,
            n == strike_count(pairs@.take(k as int), enemy, projectiles@),
        decreases pairs.len() - k,
    {
        let pair = pairs[k];
        proof {
            lemma_filter_next(pairs@, striking(enemy, projectiles@), k as int);
        }
        if (pair.0 == enemy && has_projectile(projectiles, pair.1)) || (pair.1 == enemy
            && has_projectile(projectiles, pair.0)) {
            n += 1;
        }
        k += 1;
    }
    proof {
        lemma_take_all(pairs@);
    }
    n
}

/// Applies the projectiles among `pairs` to the enemies. Every pair in which a
/// projectile meets an enemy costs that enemy the damage of the current tier,
/// however many pairs there are for one enemy, and uses up the projectile.
pub fn handle_proj_collisions(
    enemies: &mut Vec<Enemy>,
    projectiles: &mut Vec<Projectile>,
    pairs: &Vec<(u64, u64)>,
    card: &CurrentCard,
)
    ensures
        final(enemies)@ == enemies_after_strikes(old(enemies)@, old(projectiles)@, pairs@, *card),
        final(projectiles)@ == projectiles_after_strikes(
            old(enemies)@,
            old(projectiles)@,
            pairs@,
        ),
{
    let ghost keep = unspent(pairs@, enemies@, projectiles@);
    let mut kept: Vec<Projectile> = Vec::new();
    let mut j: usize = 0;
    proof {
        lemma_filter_none(projectiles@, keep);
    }
    while j < projectiles.len()
        invariant
            j <= projectiles.len(),
            keep == unspent(pairs@, enemies@, projectiles@),
            kept@ == projectiles@.take(j as int).filter(keep),
        decreases projectiles.len() - j,
    {
        let projectile = projectiles[j];
        proof {
            lemma_filter_next(projectiles@, keep, j as int);
        }
        if !spent(pairs, projectile.id, enemies, projectiles) {
            kept.push(projectile);
        }
        j += 1;
    }
    proof {
        lemma_take_all(projectiles@);
    }
    let damage = card.damage();
    let mut i: usize = 0;
    while i < enemies.len()
        invariant
            i <= enemies.len(),
            damage == damage_at(*card),
            enemies@.len() == old(enemies)@.len(),
            forall|k: int|
                0 <= k < i ==> #[trigger] enemies@[k] == enemy_after_strikes(
                    old(enemies)@[k],
                    projectiles@,
                    pairs@,
                    *card,
                ),
            forall|k: int| i <= k < enemies@.len() ==> #[trigger] enemies@[k] == old(enemies)@[k],
        decreases enemies.len() - i,
    {
        let mut enemy = enemies[i];
        let strikes = count_strikes(pairs, enemy.id, projectiles);
        enemy.health = CurrentHealth(retreat(enemy.health.0, damage, strikes as u64));
        enemies.set(i, enemy);
        i += 1;
    }
    proof {
        assert(enemies@ =~= enemies_after_strikes(old(enemies)@, projectiles@, pairs@, *card));
    }
    *projectiles = kept;
}

} // verus!
