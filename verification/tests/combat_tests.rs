//! Combat resolution scenarios: the four projectile types against actors
//! and geometry, area effects, and the per-hit state transitions.

use stapid::collision::{collision_bullet, collision_explosion, collision_player};
use stapid::engine::World;
use stapid::game_objects::{Bullet, Player};
use stapid::game_utils::{Direction, DirectionHelper, TimerType};
use stapid::geometry::Rect;

fn facing_right() -> DirectionHelper {
    DirectionHelper { direction_y: Direction::Neutral, direction_x: Direction::Right }
}

fn square(cx: i64, cy: i64, half: i64) -> Rect {
    Rect { min_x: cx - half, min_y: cy - half, max_x: cx + half, max_y: cy + half }
}

fn world_with_player_at_origin() -> World {
    let mut w = World::new();
    w.players.push(Player::new(1, facing_right(), square(0, 0, 2500)));
    w
}

fn bullet_at_origin(b: Bullet) -> Bullet {
    let mut b = b;
    b.rect = square(0, 0, 1500);
    b
}

#[test]
fn normal_hit_at_full_health() {
    // Actor at health 3 struck by a Normal bullet: health 2, invulnerable,
    // UI refresh emitted, no elimination signal, bullet destroyed.
    let mut w = world_with_player_at_origin();
    w.bullets.push(bullet_at_origin(Bullet::normal_bullet(facing_right())));
    collision_bullet(&mut w);
    assert_eq!(w.players[0].lifes, 2);
    assert!(w.players[0].invulnerable);
    assert!(!w.players[0].stunned);
    assert_eq!(w.ui_events.len(), 1);
    assert_eq!(w.ui_events[0].player_number, 1);
    assert_eq!(w.hit_events.len(), 1);
    assert_eq!(w.dead_events.len(), 0);
    assert_eq!(w.bullets.len(), 0);
    assert_eq!(w.timers.len(), 1);
    assert_eq!(w.timers[0].timer_type, TimerType::Invulnerable);
    assert_eq!(w.timers[0].remaining_ms, 2000);
    assert_eq!(w.timers[0].associated_player, 1);
}

#[test]
fn normal_hit_at_one_health_eliminates() {
    // Actor at health 1 struck by a Normal bullet: elimination signal
    // emitted, no invulnerability timer armed.
    let mut w = world_with_player_at_origin();
    w.players[0].lifes = 1;
    w.bullets.push(bullet_at_origin(Bullet::normal_bullet(facing_right())));
    collision_bullet(&mut w);
    assert_eq!(w.players[0].lifes, 0);
    assert!(!w.players[0].invulnerable);
    assert_eq!(w.dead_events.len(), 1);
    assert_eq!(w.dead_events[0].player_number, 1);
    assert_eq!(w.timers.len(), 0);
    assert_eq!(w.hit_events.len(), 0);
    assert_eq!(w.ui_events.len(), 1);
    assert_eq!(w.bullets.len(), 0);
}

#[test]
fn normal_hit_wakes_stunned_actor() {
    // A damaging hit always clears stun, even mid-stun.
    let mut w = world_with_player_at_origin();
    w.players[0].stunned = true;
    w.bullets.push(bullet_at_origin(Bullet::normal_bullet(facing_right())));
    collision_bullet(&mut w);
    assert!(!w.players[0].stunned);
    assert_eq!(w.players[0].lifes, 2);
}

#[test]
fn invulnerable_actor_takes_no_state_change() {
    // Actor already invulnerable, struck by every bullet type: no state
    // change; the bullet is still destroyed (Normal/Ice/Explosive) or
    // bounced (Bouncy).
    for kind in 0..4 {
        let mut w = world_with_player_at_origin();
        w.players[0].invulnerable = true;
        let b = match kind {
            0 => Bullet::normal_bullet(facing_right()),
            1 => Bullet::ice_bullet(facing_right()),
            2 => Bullet::explosive_bullet(facing_right()),
            _ => Bullet::bouncy_bullet(facing_right()),
        };
        w.bullets.push(bullet_at_origin(b));
        collision_bullet(&mut w);
        assert_eq!(w.players[0].lifes, 3);
        assert!(w.players[0].invulnerable);
        assert!(!w.players[0].stunned);
        assert_eq!(w.ui_events.len(), 0);
        assert_eq!(w.hit_events.len(), 0);
        assert_eq!(w.dead_events.len(), 0);
        assert_eq!(w.timers.len(), 0);
        if kind == 3 {
            // Bounced, not destroyed: one unit of budget spent, the
            // vertical axis mirrored (contact side was Inside).
            assert_eq!(w.bullets.len(), 1);
            assert_eq!(w.bullets[0].bounces_left, 3);
        } else {
            assert_eq!(w.bullets.len(), 0);
        }
        if kind == 2 {
            assert_eq!(w.explosions.len(), 1);
        }
    }
}

#[test]
fn ice_hit_stuns_without_damage() {
    let mut w = world_with_player_at_origin();
    w.bullets.push(bullet_at_origin(Bullet::ice_bullet(facing_right())));
    collision_bullet(&mut w);
    assert!(w.players[0].stunned);
    assert_eq!(w.players[0].lifes, 3);
    assert!(!w.players[0].invulnerable);
    assert_eq!(w.timers.len(), 1);
    assert_eq!(w.timers[0].timer_type, TimerType::Stun);
    assert_eq!(w.bullets.len(), 0);
}

#[test]
fn ice_hit_on_stunned_actor_is_no_op() {
    // Repeated Ice hits on an already-stunned, non-invulnerable actor
    // leave it stunned and arm no new timer.
    let mut w = world_with_player_at_origin();
    w.bullets.push(bullet_at_origin(Bullet::ice_bullet(facing_right())));
    collision_bullet(&mut w);
    assert!(w.players[0].stunned);
    assert_eq!(w.timers.len(), 1);
    let timer_before = w.timers[0];
    // A second Ice bullet strikes the same, still-stunned actor.
    w.bullets.push(bullet_at_origin(Bullet::ice_bullet(facing_right())));
    collision_bullet(&mut w);
    assert!(w.players[0].stunned);
    assert_eq!(w.players[0].lifes, 3);
    assert_eq!(w.timers.len(), 1);
    assert_eq!(w.timers[0], timer_before);
    assert_eq!(w.bullets.len(), 0);
}

#[test]
fn bouncy_wall_round_trip_destroys_on_budget_exhaustion() {
    // A Bouncy projectile with bounce budget 4, striking 4 walls
    // consecutively without touching an actor, is destroyed exactly after
    // the 4th wall contact.
    let mut w = World::new();
    w.walls.push(square(0, 10000, 2000));
    let mut b = Bullet::bouncy_bullet(facing_right());
    b.rect = square(0, 9000, 1500);
    w.bullets.push(b);
    for contact in 1..=4u32 {
        collision_bullet(&mut w);
        if contact < 4 {
            assert_eq!(w.bullets.len(), 1, "survives contact {}", contact);
            assert_eq!(w.bullets[0].bounces_left, 4 - contact);
            // Strike the wall again next step.
            w.bullets[0].rect = square(0, 9000, 1500);
        } else {
            assert_eq!(w.bullets.len(), 0, "destroyed by contact {}", contact);
        }
    }
}

#[test]
fn bouncy_reflection_mirrors_contact_axis() {
    // A left-side wall contact mirrors the horizontal axis only.
    let mut w = World::new();
    w.walls.push(Rect { min_x: 5000, min_y: -9000, max_x: 8000, max_y: 9000 });
    let mut b = Bullet::bouncy_bullet(DirectionHelper {
        direction_y: Direction::Up,
        direction_x: Direction::Right,
    });
    b.rect = Rect { min_x: 3000, min_y: -1500, max_x: 6000, max_y: 1500 };
    w.bullets.push(b);
    collision_bullet(&mut w);
    assert_eq!(w.bullets.len(), 1);
    assert_eq!(w.bullets[0].direction.direction_x, Direction::Left);
    assert_eq!(w.bullets[0].direction.direction_y, Direction::Up);
    assert_eq!(w.bullets[0].bounces_left, 3);
}

#[test]
fn bouncy_hit_on_damageable_actor_consumes_projectile() {
    let mut w = world_with_player_at_origin();
    w.bullets.push(bullet_at_origin(Bullet::bouncy_bullet(facing_right())));
    collision_bullet(&mut w);
    assert_eq!(w.players[0].lifes, 2);
    assert!(w.players[0].invulnerable);
    assert_eq!(w.bullets.len(), 0);
    assert_eq!(w.timers.len(), 1);
    assert_eq!(w.timers[0].timer_type, TimerType::Invulnerable);
}

#[test]
fn bouncy_hit_on_actor_at_one_health_eliminates_and_is_consumed() {
    let mut w = world_with_player_at_origin();
    w.players[0].lifes = 1;
    w.bullets.push(bullet_at_origin(Bullet::bouncy_bullet(facing_right())));
    collision_bullet(&mut w);
    assert_eq!(w.players[0].lifes, 0);
    assert_eq!(w.dead_events.len(), 1);
    assert_eq!(w.bullets.len(), 0);
    assert_eq!(w.timers.len(), 0);
}

#[test]
fn explosive_impact_on_empty_space_spawns_area_effect() {
    // Explosive projectile impacts a wall: an AreaEffect appears at the
    // impact point with the fixed square and lifetime, having damaged
    // nobody.
    let mut w = World::new();
    w.walls.push(Rect { min_x: 10000, min_y: -5000, max_x: 12000, max_y: 5000 });
    let mut b = Bullet::explosive_bullet(facing_right());
    b.rect = Rect { min_x: 9000, min_y: -1500, max_x: 12000, max_y: 1500 };
    w.bullets.push(b);
    collision_bullet(&mut w);
    assert_eq!(w.bullets.len(), 0);
    assert_eq!(w.explosions.len(), 1);
    // Impact center: (10500, 0); the zone is a square of half-extent 5000.
    assert_eq!(w.explosions[0].rect, square(10500, 0, 5000));
    assert_eq!(w.explosions[0].radius, 5000);
    assert_eq!(w.explosions[0].timer.counter, 2);
    assert_eq!(w.explosions[0].timer.remaining_ms, 50);
    assert!(w.explosions[0].damaged.is_empty());
}

#[test]
fn area_effect_costs_two_health_once() {
    // An actor inside a live zone and not invulnerable loses 2 health;
    // the same zone never damages the same actor twice.
    let mut w = world_with_player_at_origin();
    let mut b = Bullet::explosive_bullet(facing_right());
    b.rect = square(0, 0, 1500);
    w.bullets.push(b);
    collision_bullet(&mut w);
    assert_eq!(w.explosions.len(), 1);
    assert_eq!(w.players[0].lifes, 3);
    collision_explosion(&mut w);
    assert_eq!(w.players[0].lifes, 1);
    assert!(w.players[0].invulnerable);
    assert_eq!(w.timers.len(), 1);
    assert_eq!(w.explosions[0].damaged, vec![1]);
    // The actor lingers; invulnerability expires, but the zone already
    // damaged this identity.
    w.players[0].invulnerable = false;
    collision_explosion(&mut w);
    assert_eq!(w.players[0].lifes, 1);
}

#[test]
fn area_effect_eliminates_at_low_health() {
    // An actor with health 2 or less inside the zone is eliminated.
    let mut w = world_with_player_at_origin();
    w.players[0].lifes = 2;
    let mut b = Bullet::explosive_bullet(facing_right());
    b.rect = square(0, 0, 1500);
    w.bullets.push(b);
    collision_bullet(&mut w);
    collision_explosion(&mut w);
    assert_eq!(w.players[0].lifes, 0);
    assert!(!w.players[0].invulnerable);
    assert_eq!(w.dead_events.len(), 1);
    assert_eq!(w.timers.len(), 0);
}

#[test]
fn area_effect_skips_invulnerable_actor_without_marking() {
    let mut w = world_with_player_at_origin();
    w.players[0].invulnerable = true;
    let mut b = Bullet::explosive_bullet(facing_right());
    b.rect = square(0, 0, 1500);
    w.bullets.push(b);
    collision_bullet(&mut w);
    collision_explosion(&mut w);
    assert_eq!(w.players[0].lifes, 3);
    assert!(w.explosions[0].damaged.is_empty());
}

#[test]
fn eliminated_actor_is_absent_from_combat() {
    // No further combat effects apply to an identity at zero health.
    let mut w = world_with_player_at_origin();
    w.players[0].lifes = 0;
    w.bullets.push(bullet_at_origin(Bullet::normal_bullet(facing_right())));
    collision_bullet(&mut w);
    assert_eq!(w.players[0].lifes, 0);
    assert_eq!(w.ui_events.len(), 0);
    assert_eq!(w.dead_events.len(), 0);
    // The projectile passed through and survives.
    assert_eq!(w.bullets.len(), 1);
}

#[test]
fn destroyed_projectile_stops_at_first_target() {
    // Two actors overlap the same Normal bullet; only the first in order
    // is struck.
    let mut w = World::new();
    w.players.push(Player::new(1, facing_right(), square(0, 0, 2500)));
    w.players.push(Player::new(2, facing_right(), square(1000, 0, 2500)));
    w.bullets.push(bullet_at_origin(Bullet::normal_bullet(facing_right())));
    collision_bullet(&mut w);
    assert_eq!(w.players[0].lifes, 2);
    assert_eq!(w.players[1].lifes, 3);
}

#[test]
fn wall_contact_blocks_matching_direction() {
    // A wall within the 1.15-unit contact margin on the right raises only
    // the right block flag; once the wall is gone, the flag clears.
    let mut w = world_with_player_at_origin();
    w.walls.push(Rect { min_x: 2600, min_y: -1000, max_x: 3600, max_y: 1000 });
    collision_player(&mut w);
    let blocks = w.players[0].direction_block;
    assert!(blocks.right);
    assert!(!blocks.left);
    assert!(!blocks.up);
    assert!(!blocks.down);
    w.walls.clear();
    collision_player(&mut w);
    let blocks = w.players[0].direction_block;
    assert!(!blocks.right && !blocks.left && !blocks.up && !blocks.down);
}

#[test]
fn wall_outside_margin_does_not_block() {
    let mut w = world_with_player_at_origin();
    // The actor's inflated right edge reaches 2615; this wall starts at 2700.
    w.walls.push(Rect { min_x: 2700, min_y: -1000, max_x: 3600, max_y: 1000 });
    collision_player(&mut w);
    assert!(!w.players[0].direction_block.right);
}
