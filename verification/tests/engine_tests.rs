//! Engine systems: kinematics, the cooldown-timer registry, area-effect
//! lifetime, fire actions, power-up placement and pickup, elimination
//! markers and the blink effect.

use stapid::collision::{collision_bullet, collision_powerup};
use stapid::engine::{
    animate_explosions, clear_totems, fixed_update, move_all_bullets, player_invulnerable_blink,
    player_shoot, player_shoot_special, reset_game, reset_powerup, spawn_player, spawn_powerup,
    spawn_totem, tick_timer, World,
};
use stapid::game_objects::{Bullet, Player, PowerUp};
use stapid::game_utils::{
    BulletType, Direction, DirectionHelper, HitCooldownTimer, InvulnerableBlinkTimer,
    PlayerPowerUpEvent, TimerType,
};
use stapid::geometry::Rect;

fn facing(dx: Direction, dy: Direction) -> DirectionHelper {
    DirectionHelper { direction_y: dy, direction_x: dx }
}

fn square(cx: i64, cy: i64, half: i64) -> Rect {
    Rect { min_x: cx - half, min_y: cy - half, max_x: cx + half, max_y: cy + half }
}

fn one_player_world() -> World {
    let mut w = World::new();
    w.players.push(Player::new(1, facing(Direction::Right, Direction::Neutral), square(0, 0, 2500)));
    w
}

#[test]
fn bullets_advance_along_their_facing() {
    let mut w = World::new();
    let mut b = Bullet::normal_bullet(facing(Direction::Right, Direction::Up));
    b.rect = square(0, 0, 1500);
    w.bullets.push(b);
    move_all_bullets(&mut w);
    // Diagonal travel is the vector sum of two independent axis steps.
    assert_eq!(w.bullets[0].rect, square(1000, 1000, 1500));
    move_all_bullets(&mut w);
    assert_eq!(w.bullets[0].rect, square(2000, 2000, 1500));
}

#[test]
fn neutral_axes_do_not_move() {
    let mut w = World::new();
    let mut b = Bullet::ice_bullet(facing(Direction::Left, Direction::Neutral));
    b.rect = square(0, 0, 1500);
    w.bullets.push(b);
    move_all_bullets(&mut w);
    assert_eq!(w.bullets[0].rect, square(-2000, 0, 1500));
}

#[test]
fn expiring_invulnerability_timer_clears_flag() {
    let mut w = one_player_world();
    w.players[0].invulnerable = true;
    w.timers.push(HitCooldownTimer {
        remaining_ms: 2000,
        associated_player: 1,
        timer_type: TimerType::Invulnerable,
    });
    tick_timer(&mut w, 1999);
    assert!(w.players[0].invulnerable);
    assert_eq!(w.timers.len(), 1);
    assert_eq!(w.timers[0].remaining_ms, 1);
    tick_timer(&mut w, 1);
    assert!(!w.players[0].invulnerable);
    assert_eq!(w.timers.len(), 0);
}

#[test]
fn expiring_stun_timer_clears_flag() {
    let mut w = one_player_world();
    w.players[0].stunned = true;
    w.timers.push(HitCooldownTimer {
        remaining_ms: 100,
        associated_player: 1,
        timer_type: TimerType::Stun,
    });
    tick_timer(&mut w, 100);
    assert!(!w.players[0].stunned);
    assert_eq!(w.timers.len(), 0);
}

#[test]
fn expiring_shoot_timer_reopens_fire_window() {
    let mut w = one_player_world();
    w.players[0].shoot = false;
    w.timers.push(HitCooldownTimer {
        remaining_ms: 200,
        associated_player: 1,
        timer_type: TimerType::Shoot,
    });
    tick_timer(&mut w, 250);
    assert!(w.players[0].shoot);
    assert_eq!(w.timers.len(), 0);
}

#[test]
fn timer_for_absent_identity_is_silent() {
    // A timer outliving its actor fires as a silent no-op.
    let mut w = one_player_world();
    w.timers.push(HitCooldownTimer {
        remaining_ms: 10,
        associated_player: 9,
        timer_type: TimerType::Stun,
    });
    tick_timer(&mut w, 10);
    assert_eq!(w.timers.len(), 0);
    assert_eq!(w.players[0].lifes, 3);
}

#[test]
fn stale_timer_clears_rearmed_flag() {
    // Last expiry wins: a stale invulnerability timer from a superseded
    // hit still clears the flag a newer hit just re-armed.
    let mut w = one_player_world();
    w.players[0].invulnerable = true;
    w.timers.push(HitCooldownTimer {
        remaining_ms: 10,
        associated_player: 1,
        timer_type: TimerType::Invulnerable,
    });
    w.timers.push(HitCooldownTimer {
        remaining_ms: 2000,
        associated_player: 1,
        timer_type: TimerType::Invulnerable,
    });
    tick_timer(&mut w, 10);
    assert!(!w.players[0].invulnerable);
    assert_eq!(w.timers.len(), 1);
}

#[test]
fn area_effect_lives_three_frames() {
    let mut w = World::new();
    let mut b = Bullet::explosive_bullet(facing(Direction::Right, Direction::Neutral));
    b.rect = square(0, 0, 1500);
    w.walls.push(square(0, 0, 2000));
    w.bullets.push(b);
    collision_bullet(&mut w);
    assert_eq!(w.explosions.len(), 1);
    animate_explosions(&mut w, 50);
    assert_eq!(w.explosions.len(), 1);
    assert_eq!(w.explosions[0].timer.counter, 1);
    animate_explosions(&mut w, 50);
    assert_eq!(w.explosions.len(), 1);
    assert_eq!(w.explosions[0].timer.counter, 0);
    animate_explosions(&mut w, 50);
    assert_eq!(w.explosions.len(), 0);
}

#[test]
fn shot_closes_fire_window_until_timer_expires() {
    let mut w = one_player_world();
    assert!(player_shoot(&mut w, 0));
    assert_eq!(w.bullets.len(), 1);
    assert_eq!(w.bullets[0].bullet_type, BulletType::NormalBullet);
    // Fired from the actor's center, offset 41 units to the right.
    assert_eq!(w.bullets[0].rect, square(4100, 0, 1500));
    assert!(!w.players[0].shoot);
    assert_eq!(w.timers.len(), 1);
    assert_eq!(w.timers[0].timer_type, TimerType::Shoot);
    assert_eq!(w.timers[0].remaining_ms, 200);
    // The window is closed: a second press fires nothing.
    assert!(!player_shoot(&mut w, 0));
    assert_eq!(w.bullets.len(), 1);
    tick_timer(&mut w, 200);
    assert!(player_shoot(&mut w, 0));
    assert_eq!(w.bullets.len(), 2);
}

#[test]
fn diagonal_shot_spawns_offset_on_both_axes() {
    let mut w = World::new();
    w.players.push(Player::new(1, facing(Direction::Right, Direction::Up), square(0, 0, 2500)));
    assert!(player_shoot(&mut w, 0));
    assert_eq!(w.bullets[0].rect, square(4100, 4100, 1500));
    assert_eq!(w.bullets[0].direction.direction_x, Direction::Right);
    assert_eq!(w.bullets[0].direction.direction_y, Direction::Up);
}

#[test]
fn stunned_actor_cannot_fire() {
    let mut w = one_player_world();
    w.players[0].stunned = true;
    assert!(!player_shoot(&mut w, 0));
    w.players[0].powerup = true;
    w.players[0].power_up_type = Some(BulletType::IceBullet);
    assert!(!player_shoot_special(&mut w, 0));
    assert_eq!(w.bullets.len(), 0);
}

#[test]
fn special_shot_consumes_held_powerup() {
    let mut w = one_player_world();
    w.players[0].powerup = true;
    w.players[0].power_up_type = Some(BulletType::BouncyBullet);
    assert!(player_shoot_special(&mut w, 0));
    assert_eq!(w.bullets.len(), 1);
    assert_eq!(w.bullets[0].bullet_type, BulletType::BouncyBullet);
    assert_eq!(w.bullets[0].bounces_left, 4);
    assert!(!w.players[0].powerup);
    assert_eq!(w.players[0].power_up_type, None);
    assert_eq!(w.ui_events.len(), 1);
    // Consumed: it cannot be fired twice.
    assert!(!player_shoot_special(&mut w, 0));
    assert_eq!(w.bullets.len(), 1);
}

#[test]
fn pickup_grants_held_type_and_is_consumed() {
    let mut w = one_player_world();
    w.powerups.push(PowerUp { pickup_type: BulletType::ExplosiveBullet, rect: square(0, 0, 2000) });
    collision_powerup(&mut w);
    assert!(w.players[0].powerup);
    assert_eq!(w.players[0].power_up_type, Some(BulletType::ExplosiveBullet));
    assert_eq!(w.powerups.len(), 0);
    assert_eq!(w.ui_events.len(), 1);
    assert_eq!(w.powerup_events.len(), 1);
    // Taking damage never consumes the held power-up.
    w.bullets.push({
        let mut b = Bullet::normal_bullet(facing(Direction::Right, Direction::Neutral));
        b.rect = square(0, 0, 1500);
        b
    });
    collision_bullet(&mut w);
    assert_eq!(w.players[0].lifes, 2);
    assert_eq!(w.players[0].power_up_type, Some(BulletType::ExplosiveBullet));
}

#[test]
fn pickup_out_of_reach_stays() {
    let mut w = one_player_world();
    w.powerups.push(PowerUp { pickup_type: BulletType::IceBullet, rect: square(50000, 0, 2000) });
    collision_powerup(&mut w);
    assert!(!w.players[0].powerup);
    assert_eq!(w.powerups.len(), 1);
}

#[test]
fn powerup_types_are_uniformly_distributed() {
    // Statistical check over many placements: every special type appears,
    // in roughly equal shares, and never the Normal type.
    let mut w = World::new();
    let trials = 300;
    for _ in 0..trials {
        w.powerup_events.push(PlayerPowerUpEvent {});
    }
    let fallbacks = spawn_powerup(&mut w);
    assert_eq!(fallbacks, 0);
    assert_eq!(w.powerups.len(), trials);
    assert_eq!(w.powerup_events.len(), 0);
    let mut counts = [0usize; 3];
    for pu in &w.powerups {
        match pu.pickup_type {
            BulletType::IceBullet => counts[0] += 1,
            BulletType::ExplosiveBullet => counts[1] += 1,
            BulletType::BouncyBullet => counts[2] += 1,
            BulletType::NormalBullet => panic!("a pickup may not hold the Normal type"),
        }
    }
    for c in counts {
        assert!(c > 40, "expected a roughly uniform draw, got {:?}", counts);
    }
}

#[test]
fn blocked_arena_falls_back_to_center_with_warning() {
    // No valid non-colliding placement exists: the bounded resampling
    // gives up, reports the fallback, and places at the arena center.
    let mut w = World::new();
    w.walls.push(Rect { min_x: -80000, min_y: -50000, max_x: 80000, max_y: 50000 });
    w.powerup_events.push(PlayerPowerUpEvent {});
    let fallbacks = spawn_powerup(&mut w);
    assert_eq!(fallbacks, 1);
    assert_eq!(w.powerups.len(), 1);
    assert_eq!(w.powerups[0].rect, square(0, 0, 2000));
}

#[test]
fn powerup_placement_stays_inside_bounds() {
    let mut w = World::new();
    for _ in 0..50 {
        w.powerup_events.push(PlayerPowerUpEvent {});
    }
    spawn_powerup(&mut w);
    let mut distinct = false;
    for pu in &w.powerups {
        assert!(pu.rect.min_x >= -80000 + 1500 - 2000);
        assert!(pu.rect.max_x <= 80000 - 1500 + 2000);
        assert!(pu.rect.min_y >= -50000 + 1500 - 2000);
        assert!(pu.rect.max_y <= 50000 - 1500 + 2000);
        if pu.rect != w.powerups[0].rect {
            distinct = true;
        }
    }
    assert!(distinct, "50 random placements should not all coincide");
}

#[test]
fn placements_avoid_existing_colliders_and_each_other() {
    // In an open arena every placement finds a clear spot on some draw,
    // so no new pickup may overlap a wall, an actor, or a pickup placed
    // before it.
    let mut w = World::new();
    w.players.push(Player::new(1, facing(Direction::Right, Direction::Neutral), square(0, 0, 2500)));
    w.walls.push(square(40000, 0, 8000));
    for _ in 0..40 {
        w.powerup_events.push(PlayerPowerUpEvent {});
    }
    let fallbacks = spawn_powerup(&mut w);
    assert_eq!(fallbacks, 0);
    assert_eq!(w.powerups.len(), 40);
    let no_touch = |a: &Rect, b: &Rect| {
        a.max_x <= b.min_x || b.max_x <= a.min_x || a.max_y <= b.min_y || b.max_y <= a.min_y
    };
    for (i, pu) in w.powerups.iter().enumerate() {
        assert!(no_touch(&pu.rect, &w.walls[0]));
        assert!(no_touch(&pu.rect, &w.players[0].rect));
        for later in &w.powerups[i + 1..] {
            assert!(no_touch(&pu.rect, &later.rect));
        }
    }
}

#[test]
fn eliminated_actor_leaves_a_totem() {
    let mut w = World::new();
    w.players.push(Player::new(1, facing(Direction::Right, Direction::Neutral), square(0, 0, 2500)));
    w.players.push(Player::new(2, facing(Direction::Left, Direction::Neutral), square(10000, 0, 2500)));
    w.players[0].lifes = 0;
    spawn_totem(&mut w);
    assert_eq!(w.players.len(), 1);
    assert_eq!(w.players[0].player_number, 2);
    assert_eq!(w.totems.len(), 1);
    assert_eq!(w.totems[0].player_number, 1);
    assert_eq!(w.totems[0].rect, square(0, 0, 2500));
    clear_totems(&mut w);
    assert_eq!(w.totems.len(), 0);
}

#[test]
fn reset_requests_one_placement_per_pickup() {
    let mut w = World::new();
    w.powerups.push(PowerUp { pickup_type: BulletType::IceBullet, rect: square(0, 0, 2000) });
    w.powerups.push(PowerUp { pickup_type: BulletType::BouncyBullet, rect: square(9000, 0, 2000) });
    reset_powerup(&mut w);
    assert_eq!(w.powerups.len(), 0);
    assert_eq!(w.powerup_events.len(), 2);
}

#[test]
fn standard_spawn_places_four_actors() {
    let mut w = World::new();
    spawn_player(&mut w);
    assert_eq!(w.players.len(), 4);
    for (k, p) in w.players.iter().enumerate() {
        assert_eq!(p.player_number as usize, k + 1);
        assert_eq!(p.lifes, 3);
        assert!(!p.invulnerable && !p.stunned && p.shoot && !p.powerup);
    }
    assert_eq!(w.players[0].rect, square(-70000, 35000, 2500));
    assert_eq!(w.players[1].rect, square(70000, 35000, 2500));
    assert_eq!(w.players[2].rect, square(-70000, -35000, 2500));
    assert_eq!(w.players[3].rect, square(70000, -35000, 2500));
    assert_eq!(w.players[0].direction.direction_x, Direction::Right);
    assert_eq!(w.players[1].direction.direction_x, Direction::Left);
}

#[test]
fn reset_restores_the_match() {
    let mut w = World::new();
    w.players.push(Player::new(7, facing(Direction::Right, Direction::Neutral), square(0, 0, 2500)));
    w.players[0].lifes = 0;
    spawn_totem(&mut w);
    w.powerups.push(PowerUp { pickup_type: BulletType::IceBullet, rect: square(0, 0, 2000) });
    reset_game(&mut w);
    assert_eq!(w.totems.len(), 0);
    assert_eq!(w.players.len(), 4);
    assert_eq!(w.players[0].lifes, 3);
    assert_eq!(w.powerups.len(), 0);
    assert_eq!(w.powerup_events.len(), 1);
}

#[test]
fn hit_signal_starts_blink_and_toggle_chain() {
    let mut w = one_player_world();
    w.players[0].invulnerable = true;
    w.hit_events.push(stapid::game_utils::PlayerHitEvent {});
    let cues = player_invulnerable_blink(&mut w, 0);
    // The hit dims the sprite and arms a blink timer.
    assert_eq!(cues.len(), 1);
    assert_eq!(cues[0].player_number, 1);
    assert!(!cues[0].opaque);
    assert_eq!(w.blink_timers.len(), 1);
    assert_eq!(w.hit_events.len(), 0);
    // The timer fires while still invulnerable: restore opacity, re-arm.
    let cues = player_invulnerable_blink(&mut w, 200);
    assert_eq!(cues.len(), 1);
    assert!(cues[0].opaque);
    assert_eq!(w.blink_timers.len(), 1);
    assert!(!w.blink_timers[0].color);
    // Invulnerability ends: the chain restores opacity and stops.
    w.players[0].invulnerable = false;
    let cues = player_invulnerable_blink(&mut w, 200);
    assert_eq!(cues.len(), 1);
    assert!(cues[0].opaque);
    assert_eq!(w.blink_timers.len(), 0);
}

#[test]
fn blink_timer_counts_down_between_toggles() {
    let mut w = one_player_world();
    w.players[0].invulnerable = true;
    w.blink_timers.push(InvulnerableBlinkTimer {
        remaining_ms: 200,
        color: true,
        associated_player: 1,
    });
    let cues = player_invulnerable_blink(&mut w, 120);
    assert_eq!(cues.len(), 0);
    assert_eq!(w.blink_timers.len(), 1);
    assert_eq!(w.blink_timers[0].remaining_ms, 80);
}

#[test]
fn full_step_preserves_invulnerable_health() {
    // One fixed step with projectiles of every type in the arena: the
    // invulnerable actor ends the step with its health intact.
    let mut w = one_player_world();
    w.players[0].invulnerable = true;
    for b in [
        Bullet::normal_bullet(facing(Direction::Right, Direction::Neutral)),
        Bullet::ice_bullet(facing(Direction::Right, Direction::Neutral)),
        Bullet::bouncy_bullet(facing(Direction::Right, Direction::Neutral)),
    ] {
        let mut b = b;
        b.rect = square(0, 0, 1500);
        w.bullets.push(b);
    }
    fixed_update(&mut w);
    assert_eq!(w.players[0].lifes, 3);
    assert!(w.players[0].invulnerable);
}

#[test]
fn full_step_resolves_combat_and_moves_bullets() {
    let mut w = one_player_world();
    let mut hit = Bullet::normal_bullet(facing(Direction::Right, Direction::Neutral));
    hit.rect = square(0, 0, 1500);
    let mut stray = Bullet::normal_bullet(facing(Direction::Right, Direction::Neutral));
    stray.rect = square(40000, 0, 1500);
    w.bullets.push(hit);
    w.bullets.push(stray);
    fixed_update(&mut w);
    assert_eq!(w.players[0].lifes, 2);
    // The striking bullet is gone; the stray advanced by its speed.
    assert_eq!(w.bullets.len(), 1);
    assert_eq!(w.bullets[0].rect, square(41000, 0, 1500));
}
