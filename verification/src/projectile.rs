//! Projectiles in flight.

use vstd::prelude::*;
use crate::components::{Projectile, WORLD_EXTENT};
use crate::numeric::{advance_scaled, clamp_i64};
use crate::sequences::{lemma_filter_none, lemma_filter_push, lemma_take_all};
use crate::vector::Vector;

verus! {

/// Whether the place lies within the world: no further than `WORLD_EXTENT`
/// from the origin along either axis.
pub open spec fn in_world(position: Vector) -> bool {
    -WORLD_EXTENT <= position.x <= WORLD_EXTENT && -WORLD_EXTENT <= position.y <= WORLD_EXTENT
}

/// Whether the place lies within the world.
pub fn is_in_world(position: Vector) -> (inside: bool)
    ensures
        inside == in_world(position),
{
    -WORLD_EXTENT <= position.x && position.x <= WORLD_EXTENT && -WORLD_EXTENT <= position.y
        && position.y <= WORLD_EXTENT
}

/// The projectile a tick later: further along its direction by its speed times the tick.
pub open spec fn projectile_after_move(projectile: Projectile, elapsed: u32) -> Projectile {
    Projectile {
        position: Vector {
            x: clamp_i64(
                projectile.position.x + projectile.direction.x * projectile.speed * elapsed,
            ) as i64,
            y: clamp_i64(
                projectile.position.y + projectile.direction.y * projectile.speed * elapsed,
            ) as i64,
        },
        ..projectile
    }
}

pub open spec fn flying(elapsed: u32) -> spec_fn(Projectile) -> Projectile {
    |projectile: Projectile| projectile_after_move(projectile, elapsed)
}

pub open spec fn inside() -> spec_fn(Projectile) -> bool {
    |projectile: Projectile| in_world(projectile.position)
}

/// The projectiles a tick later: each one moved, and those that left the world removed.
pub open spec fn projectiles_after_move(projectiles: Seq<Projectile>, elapsed: u32) -> Seq<
    Projectile,
> {
    projectiles.map_values(flying(elapsed)).filter(inside())
}

/// Moves one projectile by a tick.
pub fn move_projectile(projectile: &mut Projectile, elapsed: u32)
    ensures
        *final(projectile) == projectile_after_move(*old(projectile), elapsed),
{
    projectile.position = Vector {
        x: advance_scaled(
            projectile.position.x,
            projectile.direction.x,
            projectile.speed,
            elapsed,
        ),
        y: advance_scaled(
            projectile.position.y,
            projectile.direction.y,
            projectile.speed,
            elapsed,
        ),
    };
}

/// Moves every projectile by a tick, and removes those that have left the world.
pub fn move_projectiles(projectiles: &mut Vec<Projectile>, elapsed: u32)
    ensures
        final(projectiles)@ == projectiles_after_move(old(projectiles)@, elapsed),
{
    let mut kept: Vec<Projectile> = Vec::new();
    let mut i: usize = 0;
    proof {
        assert(projectiles@.take(0).map_values(flying(elapsed)) =~= Seq::<Projectile>::empty());
        lemma_filter_none(Seq::<Projectile>::empty(), inside());
        assert(Seq::<Projectile>::empty().take(0) =~= Seq::<Projectile>::empty());
    }
    while i < projectiles.len()
        invariant
            i <= projectiles.len(),
            kept@ == projectiles_after_move(projectiles@.take(i as int), elapsed),
        decreases projectiles.len() - i,
    {
        let mut projectile = projectiles[i];
        move_projectile(&mut projectile, elapsed);
        proof {
            let before = projectiles@.take(i as int).map_values(flying(elapsed));
            assert(projectiles@.take(i + 1).map_values(flying(elapsed)) =~= before.push(
                projectile,
            ));
            lemma_filter_push(before, projectile, inside());
        }
        if is_in_world(projectile.position) {
            kept.push(projectile);
        }
        i += 1;
    }
    proof {
        lemma_take_all(projectiles@);
    }
    *projectiles = kept;
}

} // verus!
