//! The combat resolver: given an overlap between a projectile (or area
//! effect) and a target, dispatches on projectile type to produce damage,
//! status effects, reflection or an area-effect spawn, and drives the
//! per-actor state machine.
//!
//! The per-hit transition functions in this module are the only code that
//! applies combat effects to an actor; the timer registry clears the
//! status flags again when their windows expire.

use vstd::prelude::*;

use crate::engine::World;
use crate::game_objects::{Bullet, Explosion, Player, PowerUp};
use crate::game_utils::{
    opposite_of, AnimationTimer, BulletType, DirectionBlock, DirectionHelper, HitCooldownTimer,
    PlayerDeadEvent, PlayerHitEvent, PlayerPowerUpEvent, TimerType, UpdateUIEvent,
};
use crate::geometry::{
    contact_side, inflated_rect, overlap, overlaps, rect_center_x, rect_center_y, Rect, Side,
};
use crate::{
    EXPLOSION_FRAMES, EXPLOSION_FRAME_MS, EXPLOSION_RADIUS, INVULNERABLE_MS, SHOOT_COOLDOWN_MS,
    STUN_MS, WALL_CONTACT_MARGIN,
};

verus! {

/// Everything one resolved hit asks of the surrounding world: whether the
/// projectile is consumed, which cooldown timer to arm for the struck actor,
/// and which signals to emit.
#[derive(Clone, Copy, PartialEq, Eq, Structural, Debug)]
pub struct HitOutcome {
    pub destroyed: bool,
    pub armed: Option<TimerType>,
    pub ui_refresh: bool,
    pub hit_signal: bool,
    pub eliminated: bool,
}

/// An outcome that touches nothing beyond the projectile itself.
pub open spec fn silent_outcome(destroyed: bool) -> HitOutcome {
    HitOutcome {
        destroyed,
        armed: None,
        ui_refresh: false,
        hit_signal: false,
        eliminated: false,
    }
}

/// How long the timer armed by a hit runs, by kind.
pub open spec fn timer_duration_ms(t: TimerType) -> u64 {
    match t {
        TimerType::Invulnerable => INVULNERABLE_MS,
        TimerType::Stun => STUN_MS,
        TimerType::Shoot => SHOOT_COOLDOWN_MS,
    }
}

/// A Normal hit on a live actor: the projectile is always consumed; an
/// invulnerable actor is untouched; otherwise one health point is lost and
/// stun is cleared; a survivor becomes invulnerable with a timer armed,
/// while a decrement to zero eliminates instead.
pub open spec fn normal_hit_spec(p: Player) -> (Player, HitOutcome) {
    if p.invulnerable {
        (p, silent_outcome(true))
    } else if p.lifes > 1 {
        (
            Player { lifes: (p.lifes - 1) as u32, stunned: false, invulnerable: true, ..p },
            HitOutcome {
                destroyed: true,
                armed: Some(TimerType::Invulnerable),
                ui_refresh: true,
                hit_signal: true,
                eliminated: false,
            },
        )
    } else {
        (
            Player { lifes: 0, stunned: false, ..p },
            HitOutcome {
                destroyed: true,
                armed: None,
                ui_refresh: true,
                hit_signal: false,
                eliminated: true,
            },
        )
    }
}

/// An Ice hit on a live actor: the projectile is always consumed; it stuns
/// an actor that is neither invulnerable nor already stunned, and never
/// costs health. Re-striking a stunned actor is a no-op: the stun timer is
/// not extended.
pub open spec fn ice_hit_spec(p: Player) -> (Player, HitOutcome) {
    if p.invulnerable || p.stunned {
        (p, silent_outcome(true))
    } else {
        (
            Player { stunned: true, ..p },
            HitOutcome {
                destroyed: true,
                armed: Some(TimerType::Stun),
                ui_refresh: true,
                hit_signal: false,
                eliminated: false,
            },
        )
    }
}

/// An area effect reaching a live actor: an invulnerable actor is untouched;
/// otherwise the actor loses two health points if more than two remain, and
/// is eliminated otherwise. The zone itself is never consumed by a hit.
pub open spec fn explosion_hit_spec(p: Player) -> (Player, HitOutcome) {
    if p.invulnerable {
        (p, silent_outcome(false))
    } else if p.lifes > 2 {
        (
            Player { lifes: (p.lifes - 2) as u32, invulnerable: true, ..p },
            HitOutcome {
                destroyed: false,
                armed: Some(TimerType::Invulnerable),
                ui_refresh: true,
                hit_signal: true,
                eliminated: false,
            },
        )
    } else {
        (
            Player { lifes: 0, ..p },
            HitOutcome {
                destroyed: false,
                armed: None,
                ui_refresh: true,
                hit_signal: false,
                eliminated: true,
            },
        )
    }
}

/// A Bouncy projectile contacting a live actor, after the reflection has
/// been applied to the projectile: off an invulnerable actor it merely
/// bounces; a damageable actor always consumes it, losing one health point
/// (with stun cleared and invulnerability armed) or being eliminated from
/// one remaining health point.
pub open spec fn bouncy_actor_hit_spec(p: Player) -> (Player, HitOutcome) {
    if p.invulnerable {
        (p, silent_outcome(false))
    } else if p.lifes > 1 {
        (
            Player { lifes: (p.lifes - 1) as u32, stunned: false, invulnerable: true, ..p },
            HitOutcome {
                destroyed: true,
                armed: Some(TimerType::Invulnerable),
                ui_refresh: true,
                hit_signal: true,
                eliminated: false,
            },
        )
    } else {
        (
            Player { lifes: 0, stunned: false, ..p },
            HitOutcome {
                destroyed: true,
                armed: None,
                ui_refresh: true,
                hit_signal: false,
                eliminated: true,
            },
        )
    }
}

/// The two-axis facing after a reflection off the given contact side: a
/// Left or Right contact mirrors the horizontal axis, any other contact
/// mirrors the vertical axis.
pub open spec fn bounced_direction(d: DirectionHelper, side: Side) -> DirectionHelper {
    match side {
        Side::Left | Side::Right => DirectionHelper {
            direction_x: opposite_of(d.direction_x),
            direction_y: d.direction_y,
        },
        _ => DirectionHelper {
            direction_x: d.direction_x,
            direction_y: opposite_of(d.direction_y),
        },
    }
}

/// The projectile after one reflection: mirrored facing and one unit of
/// bounce budget spent (the budget never goes below zero).
pub open spec fn bounced_bullet(b: Bullet, side: Side) -> Bullet {
    Bullet {
        direction: bounced_direction(b.direction, side),
        bounces_left: if b.bounces_left > 0 {
            (b.bounces_left - 1) as u32
        } else {
            0
        },
        ..b
    }
}

/// Applies a Normal hit to a live actor.
pub fn apply_normal_hit(p: &mut Player) -> (o: HitOutcome)
    requires
        old(p).lifes > 0,
    ensures
        *final(p) == normal_hit_spec(*old(p)).0,
        o == normal_hit_spec(*old(p)).1,
        old(p).invulnerable ==> *final(p) == *old(p),
        final(p).lifes <= old(p).lifes,
{
    if p.invulnerable {
        HitOutcome {
            destroyed: true,
            armed: None,
            ui_refresh: false,
            hit_signal: false,
            eliminated: false,
        }
    } else {
        p.decrement_life();
        p.stunned = false;
        if p.lifes > 0 {
            p.invulnerable = true;
            HitOutcome {
                destroyed: true,
                armed: Some(TimerType::Invulnerable),
                ui_refresh: true,
                hit_signal: true,
                eliminated: false,
            }
        } else {
            HitOutcome {
                destroyed: true,
                armed: None,
                ui_refresh: true,
                hit_signal: false,
                eliminated: true,
            }
        }
    }
}

/// Applies an Ice hit to a live actor. An Ice hit never decrements health.
pub fn apply_ice_hit(p: &mut Player) -> (o: HitOutcome)
    requires
        old(p).lifes > 0,
    ensures
        *final(p) == ice_hit_spec(*old(p)).0,
        o == ice_hit_spec(*old(p)).1,
        final(p).lifes == old(p).lifes,
        old(p).invulnerable ==> *final(p) == *old(p),
        old(p).stunned ==> *final(p) == *old(p),
{
    if p.invulnerable || p.stunned {
        HitOutcome {
            destroyed: true,
            armed: None,
            ui_refresh: false,
            hit_signal: false,
            eliminated: false,
        }
    } else {
        p.stunned = true;
        HitOutcome {
            destroyed: true,
            armed: Some(TimerType::Stun),
            ui_refresh: true,
            hit_signal: false,
            eliminated: false,
        }
    }
}

/// Applies an area-effect hit to a live actor.
pub fn apply_explosion_hit(p: &mut Player) -> (o: HitOutcome)
    requires
        old(p).lifes > 0,
    ensures
        *final(p) == explosion_hit_spec(*old(p)).0,
        o == explosion_hit_spec(*old(p)).1,
        old(p).invulnerable ==> *final(p) == *old(p),
        final(p).lifes <= old(p).lifes,
{
    if p.invulnerable {
        HitOutcome {
            destroyed: false,
            armed: None,
            ui_refresh: false,
            hit_signal: false,
            eliminated: false,
        }
    } else if p.lifes > 2 {
        p.lifes = p.lifes - 2;
        p.invulnerable = true;
        HitOutcome {
            destroyed: false,
            armed: Some(TimerType::Invulnerable),
            ui_refresh: true,
            hit_signal: true,
            eliminated: false,
        }
    } else {
        p.lifes = 0;
        HitOutcome {
            destroyed: false,
            armed: None,
            ui_refresh: true,
            hit_signal: false,
            eliminated: true,
        }
    }
}

/// Applies the actor-side effect of a Bouncy contact to a live actor (the
/// reflection itself is applied to the projectile separately).
pub fn apply_bouncy_actor_hit(p: &mut Player) -> (o: HitOutcome)
    requires
        old(p).lifes > 0,
    ensures
        *final(p) == bouncy_actor_hit_spec(*old(p)).0,
        o == bouncy_actor_hit_spec(*old(p)).1,
        old(p).invulnerable ==> *final(p) == *old(p),
        final(p).lifes <= old(p).lifes,
{
    if p.invulnerable {
        HitOutcome {
            destroyed: false,
            armed: None,
            ui_refresh: false,
            hit_signal: false,
            eliminated: false,
        }
    } else {
        p.decrement_life();
        p.stunned = false;
        if p.lifes > 0 {
            p.invulnerable = true;
            HitOutcome {
                destroyed: true,
                armed: Some(TimerType::Invulnerable),
                ui_refresh: true,
                hit_signal: true,
                eliminated: false,
            }
        } else {
            HitOutcome {
                destroyed: true,
                armed: None,
                ui_refresh: true,
                hit_signal: false,
                eliminated: true,
            }
        }
    }
}

/// The cooldown timer entry a hit arms for the actor with identity `number`.
pub open spec fn armed_timer(number: u32, t: TimerType) -> HitCooldownTimer {
    HitCooldownTimer {
        remaining_ms: timer_duration_ms(t),
        associated_player: number,
        timer_type: t,
    }
}

/// The joint state threaded through the resolution of one projectile
/// against the step's targets, in the order players, walls, power-up
/// pickups. `spawned` lists the impact centers at which fresh area effects
/// appear.
pub struct BulletPhase {
    pub bullet: Bullet,
    pub destroyed: bool,
    pub players: Seq<Player>,
    pub timers: Seq<HitCooldownTimer>,
    pub ui_events: Seq<UpdateUIEvent>,
    pub hit_events: Seq<PlayerHitEvent>,
    pub dead_events: Seq<PlayerDeadEvent>,
    pub spawned: Seq<(int, int)>,
}

/// Records one resolved actor hit in the phase state: the struck actor is
/// replaced, the projectile may be consumed, and the outcome's timer and
/// signals are appended.
pub open spec fn push_outcome(
    st: BulletPhase,
    i: int,
    p2: Player,
    o: HitOutcome,
    b2: Bullet,
) -> BulletPhase {
    let number = st.players[i].player_number;
    BulletPhase {
        bullet: b2,
        destroyed: o.destroyed,
        players: st.players.update(i, p2),
        timers: match o.armed {
            Some(t) => st.timers.push(armed_timer(number, t)),
            None => st.timers,
        },
        ui_events: if o.ui_refresh {
            st.ui_events.push(UpdateUIEvent { player_number: number })
        } else {
            st.ui_events
        },
        hit_events: if o.hit_signal {
            st.hit_events.push(PlayerHitEvent {})
        } else {
            st.hit_events
        },
        dead_events: if o.eliminated {
            st.dead_events.push(PlayerDeadEvent { player_number: number })
        } else {
            st.dead_events
        },
        spawned: st.spawned,
    }
}

/// Resolves the projectile against the actor at index `i`: a destroyed
/// projectile and an eliminated actor are both skipped, a non-overlapping
/// actor is untouched, and otherwise the projectile type dispatches.
pub open spec fn bullet_player_step(st: BulletPhase, i: int) -> BulletPhase {
    let p = st.players[i];
    if st.destroyed || p.lifes == 0 || !overlaps(st.bullet.rect, p.rect) {
        st
    } else {
        let side = contact_side(st.bullet.rect, p.rect);
        match st.bullet.bullet_type {
            BulletType::NormalBullet => push_outcome(
                st,
                i,
                normal_hit_spec(p).0,
                normal_hit_spec(p).1,
                st.bullet,
            ),
            BulletType::IceBullet => push_outcome(
                st,
                i,
                ice_hit_spec(p).0,
                ice_hit_spec(p).1,
                st.bullet,
            ),
            BulletType::ExplosiveBullet => BulletPhase {
                destroyed: true,
                spawned: st.spawned.push(
                    (rect_center_x(st.bullet.rect), rect_center_y(st.bullet.rect)),
                ),
                ..st
            },
            BulletType::BouncyBullet => {
                let b2 = bounced_bullet(st.bullet, side);
                push_outcome(st, i, bouncy_actor_hit_spec(p).0, bouncy_actor_hit_spec(p).1, b2)
            },
        }
    }
}

/// Resolves the projectile against one piece of non-actor geometry (a wall
/// or a power-up pickup): Normal and Ice projectiles are consumed, an
/// Explosive projectile is consumed and leaves an area effect at its
/// center, and a Bouncy projectile reflects, being consumed only when its
/// bounce budget is exhausted.
pub open spec fn bullet_obstacle_step(st: BulletPhase, obstacle: Rect) -> BulletPhase {
    if st.destroyed || !overlaps(st.bullet.rect, obstacle) {
        st
    } else {
        let side = contact_side(st.bullet.rect, obstacle);
        match st.bullet.bullet_type {
            BulletType::NormalBullet | BulletType::IceBullet => BulletPhase {
                destroyed: true,
                ..st
            },
            BulletType::ExplosiveBullet => BulletPhase {
                destroyed: true,
                spawned: st.spawned.push(
                    (rect_center_x(st.bullet.rect), rect_center_y(st.bullet.rect)),
                ),
                ..st
            },
            BulletType::BouncyBullet => {
                let b2 = bounced_bullet(st.bullet, side);
                BulletPhase { bullet: b2, destroyed: b2.bounces_left == 0, ..st }
            },
        }
    }
}

/// The phase state after resolving the projectile against the first `n`
/// actors in order.
pub open spec fn bullet_players_phase(st: BulletPhase, n: int) -> BulletPhase
    decreases n,
{
    if n <= 0 {
        st
    } else {
        bullet_player_step(bullet_players_phase(st, n - 1), n - 1)
    }
}

/// The phase state after resolving the projectile against the first `n`
/// walls in order.
pub open spec fn bullet_walls_phase(st: BulletPhase, walls: Seq<Rect>, n: int) -> BulletPhase
    decreases n,
{
    if n <= 0 {
        st
    } else {
        bullet_obstacle_step(bullet_walls_phase(st, walls, n - 1), walls[n - 1])
    }
}

/// The phase state after resolving the projectile against the first `n`
/// power-up pickups in order.
pub open spec fn bullet_powerups_phase(st: BulletPhase, pus: Seq<PowerUp>, n: int) -> BulletPhase
    decreases n,
{
    if n <= 0 {
        st
    } else {
        bullet_obstacle_step(bullet_powerups_phase(st, pus, n - 1), pus[n - 1].rect)
    }
}

/// One projectile fully resolved for this step: against every actor, then
/// every wall, then every pickup, stopping (by way of no-op steps) once the
/// projectile is destroyed.
pub open spec fn resolve_bullet_spec(
    st: BulletPhase,
    walls: Seq<Rect>,
    pus: Seq<PowerUp>,
) -> BulletPhase {
    let st1 = bullet_players_phase(st, st.players.len() as int);
    let st2 = bullet_walls_phase(st1, walls, walls.len() as int);
    bullet_powerups_phase(st2, pus, pus.len() as int)
}

/// A just-spawned area effect centered on `c`.
pub open spec fn matches_fresh_explosion(e: Explosion, c: (int, int)) -> bool {
    &&& e.radius == EXPLOSION_RADIUS
    &&& e.rect == (Rect {
        min_x: (c.0 - EXPLOSION_RADIUS) as i64,
        min_y: (c.1 - EXPLOSION_RADIUS) as i64,
        max_x: (c.0 + EXPLOSION_RADIUS) as i64,
        max_y: (c.1 + EXPLOSION_RADIUS) as i64,
    })
    &&& e.timer == (AnimationTimer { remaining_ms: EXPLOSION_FRAME_MS, counter: EXPLOSION_FRAMES })
    &&& e.damaged@ == Seq::<u32>::empty()
    &&& e.wf()
}

/// The area-effect list grew only by fresh spawns at the recorded centers.
pub open spec fn explosions_extended(
    olde: Seq<Explosion>,
    newe: Seq<Explosion>,
    spawned: Seq<(int, int)>,
) -> bool {
    &&& newe.len() == olde.len() + spawned.len()
    &&& forall|k: int| 0 <= k < olde.len() ==> newe[k] == olde[k]
    &&& forall|k: int|
        0 <= k < spawned.len() ==> matches_fresh_explosion(
            #[trigger] newe[olde.len() + k],
            spawned[k],
        )
}

/// Reflects a Bouncy projectile off the given contact side and spends one
/// unit of its bounce budget.
pub fn bounce(b: &mut Bullet, side: Side)
    ensures
        *final(b) == bounced_bullet(*old(b), side),
{
    b.direction = match side {
        Side::Left | Side::Right => DirectionHelper {
            direction_x: b.direction.direction_x.opposite(),
            direction_y: b.direction.direction_y,
        },
        _ => DirectionHelper {
            direction_x: b.direction.direction_x,
            direction_y: b.direction.direction_y.opposite(),
        },
    };
    if b.bounces_left > 0 {
        b.bounces_left = b.bounces_left - 1;
    }
}

/// How long the timer armed by a hit runs, by kind.
pub fn timer_duration(t: TimerType) -> (d: u64)
    ensures
        d == timer_duration_ms(t),
{
    match t {
        TimerType::Invulnerable => INVULNERABLE_MS,
        TimerType::Stun => STUN_MS,
        TimerType::Shoot => SHOOT_COOLDOWN_MS,
    }
}

/// Appends the timer and signals of one resolved hit on the actor with
/// identity `number`.
fn emit_outcome(
    o: HitOutcome,
    number: u32,
    timers: &mut Vec<HitCooldownTimer>,
    ui_events: &mut Vec<UpdateUIEvent>,
    hit_events: &mut Vec<PlayerHitEvent>,
    dead_events: &mut Vec<PlayerDeadEvent>,
)
    ensures
        final(timers)@ == (match o.armed {
            Some(t) => old(timers)@.push(armed_timer(number, t)),
            None => old(timers)@,
        }),
        final(ui_events)@ == (if o.ui_refresh {
            old(ui_events)@.push(UpdateUIEvent { player_number: number })
        } else {
            old(ui_events)@
        }),
        final(hit_events)@ == (if o.hit_signal {
            old(hit_events)@.push(PlayerHitEvent {})
        } else {
            old(hit_events)@
        }),
        final(dead_events)@ == (if o.eliminated {
            old(dead_events)@.push(PlayerDeadEvent { player_number: number })
        } else {
            old(dead_events)@
        }),
{
    match o.armed {
        Some(t) => {
            let d = timer_duration(t);
            timers.push(HitCooldownTimer { remaining_ms: d, associated_player: number, timer_type: t });
        },
        None => {},
    }
    if o.ui_refresh {
        ui_events.push(UpdateUIEvent { player_number: number });
    }
    if o.hit_signal {
        hit_events.push(PlayerHitEvent {});
    }
    if o.eliminated {
        dead_events.push(PlayerDeadEvent { player_number: number });
    }
}

/// Resolves one projectile against every live actor, then every wall, then
/// every power-up pickup, in that order, mutating the struck actors and
/// appending the armed timers, emitted signals and spawned area effects.
/// Returns whether the projectile was consumed.
///
/// A destroyed projectile is tested against no further target. An actor
/// that starts the pass invulnerable or eliminated is never changed, health
/// never increases, and a hit touches nothing of an actor beyond health,
/// invulnerability and stun.
pub fn process_bullet(
    bullet: &mut Bullet,
    players: &mut Vec<Player>,
    timers: &mut Vec<HitCooldownTimer>,
    ui_events: &mut Vec<UpdateUIEvent>,
    hit_events: &mut Vec<PlayerHitEvent>,
    dead_events: &mut Vec<PlayerDeadEvent>,
    explosions: &mut Vec<Explosion>,
    walls: &Vec<Rect>,
    powerups: &Vec<PowerUp>,
) -> (destroyed: bool)
    requires
        old(bullet).wf(),
        forall|i: int| 0 <= i < old(players)@.len() ==> (#[trigger] old(players)@[i]).wf(),
        forall|i: int| 0 <= i < walls@.len() ==> (#[trigger] walls@[i]).wf(),
        forall|i: int| 0 <= i < powerups@.len() ==> (#[trigger] powerups@[i]).wf(),
    ensures
        ({
            let st0 = BulletPhase {
                bullet: *old(bullet),
                destroyed: false,
                players: old(players)@,
                timers: old(timers)@,
                ui_events: old(ui_events)@,
                hit_events: old(hit_events)@,
                dead_events: old(dead_events)@,
                spawned: Seq::empty(),
            };
            let st = resolve_bullet_spec(st0, walls@, powerups@);
            &&& *final(bullet) == st.bullet
            &&& destroyed == st.destroyed
            &&& final(players)@ == st.players
            &&& final(timers)@ == st.timers
            &&& final(ui_events)@ == st.ui_events
            &&& final(hit_events)@ == st.hit_events
            &&& final(dead_events)@ == st.dead_events
            &&& explosions_extended(old(explosions)@, final(explosions)@, st.spawned)
        }),
        final(players)@.len() == old(players)@.len(),
        forall|i: int|
            0 <= i < old(players)@.len() && old(players)@[i].invulnerable ==> final(players)@[i] == old(players)@[i],
        forall|i: int|
            0 <= i < old(players)@.len() && old(players)@[i].lifes == 0 ==> final(players)@[i]
                == old(players)@[i],
        forall|i: int|
            0 <= i < old(players)@.len() ==> #[trigger] final(players)@[i] == (Player {
                lifes: final(players)@[i].lifes,
                invulnerable: final(players)@[i].invulnerable,
                stunned: final(players)@[i].stunned,
                ..old(players)@[i]
            }),
        forall|i: int|
            0 <= i < old(players)@.len() ==> (#[trigger] final(players)@[i]).lifes <= old(players)@[i].lifes,
        forall|i: int| 0 <= i < old(players)@.len() ==> (#[trigger] final(players)@[i]).wf(),
        old(timers)@.is_prefix_of(final(timers)@),
        old(ui_events)@.is_prefix_of(final(ui_events)@),
        old(hit_events)@.is_prefix_of(final(hit_events)@),
        old(dead_events)@.is_prefix_of(final(dead_events)@),
        *final(bullet) == (Bullet {
            direction: final(bullet).direction,
            bounces_left: final(bullet).bounces_left,
            ..*old(bullet)
        }),
        final(bullet).wf(),
{
    let ghost st0 = BulletPhase {
        bullet: *bullet,
        destroyed: false,
        players: players@,
        timers: timers@,
        ui_events: ui_events@,
        hit_events: hit_events@,
        dead_events: dead_events@,
        spawned: Seq::empty(),
    };
    let mut destroyed = false;

    let mut i: usize = 0;
    while i < players.len()
        invariant
            i <= players@.len(),
            players@.len() == old(players)@.len(),
            st0 == (BulletPhase {
                bullet: *old(bullet),
                destroyed: false,
                players: old(players)@,
                timers: old(timers)@,
                ui_events: old(ui_events)@,
                hit_events: old(hit_events)@,
                dead_events: old(dead_events)@,
                spawned: Seq::empty(),
            }),
            ({
                let st = bullet_players_phase(st0, i as int);
                &&& *bullet == st.bullet
                &&& destroyed == st.destroyed
                &&& players@ == st.players
                &&& timers@ == st.timers
                &&& ui_events@ == st.ui_events
                &&& hit_events@ == st.hit_events
                &&& dead_events@ == st.dead_events
                &&& explosions_extended(old(explosions)@, explosions@, st.spawned)
            }),
            forall|k: int|
                0 <= k < old(players)@.len() && old(players)@[k].invulnerable ==> players@[k]
                    == old(players)@[k],
            forall|k: int|
                0 <= k < old(players)@.len() && old(players)@[k].lifes == 0 ==> players@[k]
                    == old(players)@[k],
            forall|k: int|
                0 <= k < old(players)@.len() ==> #[trigger] players@[k] == (Player {
                    lifes: players@[k].lifes,
                    invulnerable: players@[k].invulnerable,
                    stunned: players@[k].stunned,
                    ..old(players)@[k]
                }),
            forall|k: int|
                0 <= k < old(players)@.len() ==> (#[trigger] players@[k]).lifes <= old(players)@[k].lifes,
            forall|k: int| 0 <= k < old(players)@.len() ==> (#[trigger] players@[k]).wf(),
            old(timers)@.is_prefix_of(timers@),
            old(ui_events)@.is_prefix_of(ui_events@),
            old(hit_events)@.is_prefix_of(hit_events@),
            old(dead_events)@.is_prefix_of(dead_events@),
            *bullet == (Bullet {
                direction: bullet.direction,
                bounces_left: bullet.bounces_left,
                ..*old(bullet)
            }),
            bullet.wf(),
        decreases players@.len() - i,
    {
        proof {
            assert(bullet_players_phase(st0, i as int + 1) == bullet_player_step(
                bullet_players_phase(st0, i as int),
                i as int,
            ));
        }
        if !destroyed {
            let p = players[i];
            if p.lifes > 0 {
                match overlap(&bullet.rect, &p.rect) {
                    Some(side) => {
                        match bullet.bullet_type {
                            BulletType::NormalBullet => {
                                let mut pp = p;
                                let o = apply_normal_hit(&mut pp);
                                players.set(i, pp);
                                emit_outcome(
                                    o,
                                    pp.player_number,
                                    timers,
                                    ui_events,
                                    hit_events,
                                    dead_events,
                                );
                                destroyed = o.destroyed;
                            },
                            BulletType::IceBullet => {
                                let mut pp = p;
                                let o = apply_ice_hit(&mut pp);
                                players.set(i, pp);
                                emit_outcome(
                                    o,
                                    pp.player_number,
                                    timers,
                                    ui_events,
                                    hit_events,
                                    dead_events,
                                );
                                destroyed = o.destroyed;
                            },
                            BulletType::ExplosiveBullet => {
                                let c = bullet.rect.center();
                                explosions.push(Explosion::spawn_at(c.0, c.1));
                                destroyed = true;
                            },
                            BulletType::BouncyBullet => {
                                bounce(bullet, side);
                                let mut pp = p;
                                let o = apply_bouncy_actor_hit(&mut pp);
                                players.set(i, pp);
                                emit_outcome(
                                    o,
                                    pp.player_number,
                                    timers,
                                    ui_events,
                                    hit_events,
                                    dead_events,
                                );
                                destroyed = o.destroyed;
                            },
                        }
                    },
                    None => {},
                }
            }
        }
        i = i + 1;
    }

    let ghost st1 = bullet_players_phase(st0, old(players)@.len() as int);

    let mut j: usize = 0;
    while j < walls.len()
        invariant
            j <= walls@.len(),
            players@.len() == old(players)@.len(),
            st1 == bullet_players_phase(st0, old(players)@.len() as int),
            st0 == (BulletPhase {
                bullet: *old(bullet),
                destroyed: false,
                players: old(players)@,
                timers: old(timers)@,
                ui_events: old(ui_events)@,
                hit_events: old(hit_events)@,
                dead_events: old(dead_events)@,
                spawned: Seq::empty(),
            }),
            forall|k: int| 0 <= k < walls@.len() ==> (#[trigger] walls@[k]).wf(),
            ({
                let st = bullet_walls_phase(st1, walls@, j as int);
                &&& *bullet == st.bullet
                &&& destroyed == st.destroyed
                &&& players@ == st.players
                &&& timers@ == st.timers
                &&& ui_events@ == st.ui_events
                &&& hit_events@ == st.hit_events
                &&& dead_events@ == st.dead_events
                &&& explosions_extended(old(explosions)@, explosions@, st.spawned)
            }),
            forall|k: int|
                0 <= k < old(players)@.len() && old(players)@[k].invulnerable ==> players@[k]
                    == old(players)@[k],
            forall|k: int|
                0 <= k < old(players)@.len() && old(players)@[k].lifes == 0 ==> players@[k]
                    == old(players)@[k],
            forall|k: int|
                0 <= k < old(players)@.len() ==> #[trigger] players@[k] == (Player {
                    lifes: players@[k].lifes,
                    invulnerable: players@[k].invulnerable,
                    stunned: players@[k].stunned,
                    ..old(players)@[k]
                }),
            forall|k: int|
                0 <= k < old(players)@.len() ==> (#[trigger] players@[k]).lifes <= old(players)@[k].lifes,
            forall|k: int| 0 <= k < old(players)@.len() ==> (#[trigger] players@[k]).wf(),
            old(timers)@.is_prefix_of(timers@),
            old(ui_events)@.is_prefix_of(ui_events@),
            old(hit_events)@.is_prefix_of(hit_events@),
            old(dead_events)@.is_prefix_of(dead_events@),
            *bullet == (Bullet {
                direction: bullet.direction,
                bounces_left: bullet.bounces_left,
                ..*old(bullet)
            }),
            bullet.wf(),
        decreases walls@.len() - j,
    {
        proof {
            assert(bullet_walls_phase(st1, walls@, j as int + 1) == bullet_obstacle_step(
                bullet_walls_phase(st1, walls@, j as int),
                walls@[j as int],
            ));
        }
        if !destroyed {
            let wall = walls[j];
            match overlap(&bullet.rect, &wall) {
                Some(side) => {
                    match bullet.bullet_type {
                        BulletType::NormalBullet | BulletType::IceBullet => {
                            destroyed = true;
                        },
                        BulletType::ExplosiveBullet => {
                            let c = bullet.rect.center();
                            explosions.push(Explosion::spawn_at(c.0, c.1));
                            destroyed = true;
                        },
                        BulletType::BouncyBullet => {
                            bounce(bullet, side);
                            if bullet.bounces_left == 0 {
                                destroyed = true;
                            }
                        },
                    }
                },
                None => {},
            }
        }
        j = j + 1;
    }

    let ghost st2 = bullet_walls_phase(st1, walls@, walls@.len() as int);

    let mut q: usize = 0;
    while q < powerups.len()
        invariant
            q <= powerups@.len(),
            players@.len() == old(players)@.len(),
            st2 == bullet_walls_phase(
                bullet_players_phase(st0, old(players)@.len() as int),
                walls@,
                walls@.len() as int,
            ),
            st0 == (BulletPhase {
                bullet: *old(bullet),
                destroyed: false,
                players: old(players)@,
                timers: old(timers)@,
                ui_events: old(ui_events)@,
                hit_events: old(hit_events)@,
                dead_events: old(dead_events)@,
                spawned: Seq::empty(),
            }),
            forall|k: int| 0 <= k < powerups@.len() ==> (#[trigger] powerups@[k]).wf(),
            ({
                let st = bullet_powerups_phase(st2, powerups@, q as int);
                &&& *bullet == st.bullet
                &&& destroyed == st.destroyed
                &&& players@ == st.players
                &&& timers@ == st.timers
                &&& ui_events@ == st.ui_events
                &&& hit_events@ == st.hit_events
                &&& dead_events@ == st.dead_events
                &&& explosions_extended(old(explosions)@, explosions@, st.spawned)
            }),
            forall|k: int|
                0 <= k < old(players)@.len() && old(players)@[k].invulnerable ==> players@[k]
                    == old(players)@[k],
            forall|k: int|
                0 <= k < old(players)@.len() && old(players)@[k].lifes == 0 ==> players@[k]
                    == old(players)@[k],
            forall|k: int|
                0 <= k < old(players)@.len() ==> #[trigger] players@[k] == (Player {
                    lifes: players@[k].lifes,
                    invulnerable: players@[k].invulnerable,
                    stunned: players@[k].stunned,
                    ..old(players)@[k]
                }),
            forall|k: int|
                0 <= k < old(players)@.len() ==> (#[trigger] players@[k]).lifes <= old(players)@[k].lifes,
            forall|k: int| 0 <= k < old(players)@.len() ==> (#[trigger] players@[k]).wf(),
            old(timers)@.is_prefix_of(timers@),
            old(ui_events)@.is_prefix_of(ui_events@),
            old(hit_events)@.is_prefix_of(hit_events@),
            old(dead_events)@.is_prefix_of(dead_events@),
            *bullet == (Bullet {
                direction: bullet.direction,
                bounces_left: bullet.bounces_left,
                ..*old(bullet)
            }),
            bullet.wf(),
        decreases powerups@.len() - q,
    {
        proof {
            assert(bullet_powerups_phase(st2, powerups@, q as int + 1) == bullet_obstacle_step(
                bullet_powerups_phase(st2, powerups@, q as int),
                powerups@[q as int].rect,
            ));
        }
        if !destroyed {
            let pu = powerups[q];
            match overlap(&bullet.rect, &pu.rect) {
                Some(side) => {
                    match bullet.bullet_type {
                        BulletType::NormalBullet | BulletType::IceBullet => {
                            destroyed = true;
                        },
                        BulletType::ExplosiveBullet => {
                            let c = bullet.rect.center();
                            explosions.push(Explosion::spawn_at(c.0, c.1));
                            destroyed = true;
                        },
                        BulletType::BouncyBullet => {
                            bounce(bullet, side);
                            if bullet.bounces_left == 0 {
                                destroyed = true;
                            }
                        },
                    }
                },
                None => {},
            }
        }
        q = q + 1;
    }

    destroyed
}

/// The side of the margin-inflated actor rectangle that a wall contacts,
/// if any.
pub open spec fn wall_contact_side(wall: Rect, prect: Rect) -> Option<Side> {
    let infl = inflated_rect(prect, WALL_CONTACT_MARGIN as int);
    if overlaps(wall, infl) {
        Some(contact_side(wall, infl))
    } else {
        None
    }
}

/// The block flags the wall set leaves on an actor standing at `prect`: a
/// flag is raised exactly when some wall currently contacts the matching
/// side, so blocking is same-step and never sticky.
pub open spec fn wall_blocks(walls: Seq<Rect>, prect: Rect) -> DirectionBlock {
    DirectionBlock {
        up: exists|j: int|
            0 <= j < walls.len() && #[trigger] wall_contact_side(walls[j], prect) == Some(
                Side::Top,
            ),
        down: exists|j: int|
            0 <= j < walls.len() && #[trigger] wall_contact_side(walls[j], prect) == Some(
                Side::Bottom,
            ),
        right: exists|j: int|
            0 <= j < walls.len() && #[trigger] wall_contact_side(walls[j], prect) == Some(
                Side::Right,
            ),
        left: exists|j: int|
            0 <= j < walls.len() && #[trigger] wall_contact_side(walls[j], prect) == Some(
                Side::Left,
            ),
    }
}

/// The wall block tracker: recomputes every actor's four block flags from
/// the current wall contacts, raising exactly the flags whose side some
/// wall contacts this step and clearing the rest. The movement subsystem
/// consults these flags before moving; this pass performs no movement.
pub fn collision_player(w: &mut World)
    requires
        old(w).wf(),
    ensures
        final(w).wf(),
        *final(w) == (World { players: final(w).players, ..*old(w) }),
        final(w).players@.len() == old(w).players@.len(),
        forall|i: int|
            0 <= i < old(w).players@.len() ==> #[trigger] final(w).players@[i] == (Player {
                direction_block: wall_blocks(old(w).walls@, old(w).players@[i].rect),
                ..old(w).players@[i]
            }),
{
    let ghost walls0 = w.walls@;
    let mut i: usize = 0;
    while i < w.players.len()
        invariant
            i <= w.players@.len(),
            old(w).wf(),
            walls0 == old(w).walls@,
            *w == (World { players: w.players, ..*old(w) }),
            w.players@.len() == old(w).players@.len(),
            forall|k: int|
                0 <= k < i ==> #[trigger] w.players@[k] == (Player {
                    direction_block: wall_blocks(walls0, old(w).players@[k].rect),
                    ..old(w).players@[k]
                }),
            forall|k: int| i <= k < w.players@.len() ==> w.players@[k] == old(w).players@[k],
            forall|k: int| 0 <= k < w.players@.len() ==> (#[trigger] w.players@[k]).wf(),
        decreases w.players@.len() - i,
    {
        let p = w.players[i];
        let infl = p.rect.inflated(WALL_CONTACT_MARGIN);
        let mut up = false;
        let mut down = false;
        let mut right = false;
        let mut left = false;
        let mut j: usize = 0;
        while j < w.walls.len()
            invariant
                j <= w.walls@.len(),
                w.walls@ == walls0,
                forall|m: int| 0 <= m < walls0.len() ==> (#[trigger] walls0[m]).wf(),
                infl == inflated_rect(p.rect, WALL_CONTACT_MARGIN as int),
                infl.wf(),
                up ==> wall_blocks(walls0, p.rect).up,
                down ==> wall_blocks(walls0, p.rect).down,
                right ==> wall_blocks(walls0, p.rect).right,
                left ==> wall_blocks(walls0, p.rect).left,
                !up ==> forall|m: int|
                    0 <= m < j ==> !(#[trigger] wall_contact_side(walls0[m], p.rect) == Some(
                        Side::Top,
                    )),
                !down ==> forall|m: int|
                    0 <= m < j ==> !(#[trigger] wall_contact_side(walls0[m], p.rect) == Some(
                        Side::Bottom,
                    )),
                !right ==> forall|m: int|
                    0 <= m < j ==> !(#[trigger] wall_contact_side(walls0[m], p.rect) == Some(
                        Side::Right,
                    )),
                !left ==> forall|m: int|
                    0 <= m < j ==> !(#[trigger] wall_contact_side(walls0[m], p.rect) == Some(
                        Side::Left,
                    )),
            decreases w.walls@.len() - j,
        {
            let wall = w.walls[j];
            match overlap(&wall, &infl) {
                Some(Side::Top) => {
                    proof {
                        assert(wall_contact_side(walls0[j as int], p.rect) == Some(Side::Top));
                    }
                    up = true;
                },
                Some(Side::Bottom) => {
                    proof {
                        assert(wall_contact_side(walls0[j as int], p.rect) == Some(Side::Bottom));
                    }
                    down = true;
                },
                Some(Side::Right) => {
                    proof {
                        assert(wall_contact_side(walls0[j as int], p.rect) == Some(Side::Right));
                    }
                    right = true;
                },
                Some(Side::Left) => {
                    proof {
                        assert(wall_contact_side(walls0[j as int], p.rect) == Some(Side::Left));
                    }
                    left = true;
                },
                Some(Side::Inside) => {},
                None => {},
            }
            j = j + 1;
        }
        proof {
            let blocks = wall_blocks(walls0, p.rect);
            if !up && blocks.up {
                let m = choose|m: int|
                    0 <= m < walls0.len() && #[trigger] wall_contact_side(walls0[m], p.rect)
                        == Some(Side::Top);
                assert(false);
            }
            if !down && blocks.down {
                let m = choose|m: int|
                    0 <= m < walls0.len() && #[trigger] wall_contact_side(walls0[m], p.rect)
                        == Some(Side::Bottom);
                assert(false);
            }
            if !right && blocks.right {
                let m = choose|m: int|
                    0 <= m < walls0.len() && #[trigger] wall_contact_side(walls0[m], p.rect)
                        == Some(Side::Right);
                assert(false);
            }
            if !left && blocks.left {
                let m = choose|m: int|
                    0 <= m < walls0.len() && #[trigger] wall_contact_side(walls0[m], p.rect)
                        == Some(Side::Left);
                assert(false);
            }
        }
        let updated = Player {
            direction_block: DirectionBlock { up, down, right, left },
            ..p
        };
        w.players.set(i, updated);
        i = i + 1;
    }
}

/// Growing an area-effect list twice composes: the spawn records
/// concatenate.
pub proof fn lemma_explosions_extended_trans(
    a: Seq<Explosion>,
    b: Seq<Explosion>,
    c: Seq<Explosion>,
    s1: Seq<(int, int)>,
    s2: Seq<(int, int)>,
)
    requires
        explosions_extended(a, b, s1),
        explosions_extended(b, c, s2),
    ensures
        explosions_extended(a, c, s1 + s2),
{
    assert forall|k: int| 0 <= k < a.len() implies c[k] == a[k] by {
        assert(b[k] == a[k]);
        assert(c[k] == b[k]);
    }
    assert forall|k: int|
        0 <= k < (s1 + s2).len() implies matches_fresh_explosion(
        c[a.len() + k],
        (s1 + s2)[k],
    ) by {
        if k < s1.len() {
            assert(matches_fresh_explosion(b[a.len() + k], s1[k]));
            assert(c[a.len() + k] == b[a.len() + k]);
            assert((s1 + s2)[k] == s1[k]);
        } else {
            assert(matches_fresh_explosion(c[b.len() + (k - s1.len())], s2[k - s1.len()]));
            assert(b.len() + (k - s1.len()) == a.len() + k);
            assert((s1 + s2)[k] == s2[k - s1.len()]);
        }
    }
}

/// The whole-step state threaded through the projectile pass: the actors,
/// timers and signals so far, the spawn records of fresh area effects, and
/// the projectiles that survived.
pub struct CombatPass {
    pub players: Seq<Player>,
    pub timers: Seq<HitCooldownTimer>,
    pub ui_events: Seq<UpdateUIEvent>,
    pub hit_events: Seq<PlayerHitEvent>,
    pub dead_events: Seq<PlayerDeadEvent>,
    pub spawned: Seq<(int, int)>,
    pub kept: Seq<Bullet>,
}

/// Resolves one projectile within the whole-step state: the projectile is
/// resolved against actors, walls and pickups, and survives into `kept`
/// only if it was not consumed.
pub open spec fn combat_step(
    cp: CombatPass,
    b: Bullet,
    walls: Seq<Rect>,
    pus: Seq<PowerUp>,
) -> CombatPass {
    let st0 = BulletPhase {
        bullet: b,
        destroyed: false,
        players: cp.players,
        timers: cp.timers,
        ui_events: cp.ui_events,
        hit_events: cp.hit_events,
        dead_events: cp.dead_events,
        spawned: Seq::empty(),
    };
    let st = resolve_bullet_spec(st0, walls, pus);
    CombatPass {
        players: st.players,
        timers: st.timers,
        ui_events: st.ui_events,
        hit_events: st.hit_events,
        dead_events: st.dead_events,
        spawned: cp.spawned + st.spawned,
        kept: if st.destroyed {
            cp.kept
        } else {
            cp.kept.push(st.bullet)
        },
    }
}

/// The whole-step state after the first `n` projectiles have resolved, in
/// order.
pub open spec fn combat_pass(
    cp: CombatPass,
    bullets: Seq<Bullet>,
    walls: Seq<Rect>,
    pus: Seq<PowerUp>,
    n: int,
) -> CombatPass
    decreases n,
{
    if n <= 0 {
        cp
    } else {
        combat_step(combat_pass(cp, bullets, walls, pus, n - 1), bullets[n - 1], walls, pus)
    }
}

/// The whole-step state the projectile pass starts from.
pub open spec fn combat_pass_init(w: World) -> CombatPass {
    CombatPass {
        players: w.players@,
        timers: w.timers@,
        ui_events: w.ui_events@,
        hit_events: w.hit_events@,
        dead_events: w.dead_events@,
        spawned: Seq::empty(),
        kept: Seq::empty(),
    }
}

/// The projectile pass: every projectile is resolved, in order, against
/// every live actor, then every wall, then every pickup, with the state
/// each earlier projectile left. Consumed projectiles are removed.
///
/// An actor that starts the step invulnerable or eliminated comes out
/// unchanged; health never increases; a hit touches nothing of an actor
/// beyond health, invulnerability and stun; timers, signals and area
/// effects are only appended.
pub fn collision_bullet(w: &mut World)
    requires
        old(w).wf(),
    ensures
        final(w).wf(),
        *final(w) == (World {
            players: final(w).players,
            bullets: final(w).bullets,
            explosions: final(w).explosions,
            timers: final(w).timers,
            ui_events: final(w).ui_events,
            hit_events: final(w).hit_events,
            dead_events: final(w).dead_events,
            ..*old(w)
        }),
        ({
            let cp = combat_pass(
                combat_pass_init(*old(w)),
                old(w).bullets@,
                old(w).walls@,
                old(w).powerups@,
                old(w).bullets@.len() as int,
            );
            &&& final(w).players@ == cp.players
            &&& final(w).bullets@ == cp.kept
            &&& final(w).timers@ == cp.timers
            &&& final(w).ui_events@ == cp.ui_events
            &&& final(w).hit_events@ == cp.hit_events
            &&& final(w).dead_events@ == cp.dead_events
            &&& explosions_extended(old(w).explosions@, final(w).explosions@, cp.spawned)
        }),
        final(w).players@.len() == old(w).players@.len(),
        forall|i: int|
            0 <= i < old(w).players@.len() && old(w).players@[i].invulnerable ==> final(w).players@[i] == old(w).players@[i],
        forall|i: int|
            0 <= i < old(w).players@.len() && old(w).players@[i].lifes == 0 ==> final(w).players@[i] == old(w).players@[i],
        forall|i: int|
            0 <= i < old(w).players@.len() ==> #[trigger] final(w).players@[i] == (Player {
                lifes: final(w).players@[i].lifes,
                invulnerable: final(w).players@[i].invulnerable,
                stunned: final(w).players@[i].stunned,
                ..old(w).players@[i]
            }),
        forall|i: int|
            0 <= i < old(w).players@.len() ==> (#[trigger] final(w).players@[i]).lifes <= old(w).players@[i].lifes,
        old(w).timers@.is_prefix_of(final(w).timers@),
        old(w).ui_events@.is_prefix_of(final(w).ui_events@),
        old(w).hit_events@.is_prefix_of(final(w).hit_events@),
        old(w).dead_events@.is_prefix_of(final(w).dead_events@),
{
    let ghost cp0 = combat_pass_init(*old(w));
    let ghost bullets0 = w.bullets@;
    let ghost walls0 = w.walls@;
    let ghost pus0 = w.powerups@;
    let mut kept: Vec<Bullet> = Vec::new();
    let mut bi: usize = 0;
    while bi < w.bullets.len()
        invariant
            bi <= w.bullets@.len(),
            old(w).wf(),
            cp0 == combat_pass_init(*old(w)),
            bullets0 == old(w).bullets@,
            walls0 == old(w).walls@,
            pus0 == old(w).powerups@,
            w.bullets@ == bullets0,
            *w == (World {
                players: w.players,
                explosions: w.explosions,
                timers: w.timers,
                ui_events: w.ui_events,
                hit_events: w.hit_events,
                dead_events: w.dead_events,
                ..*old(w)
            }),
            ({
                let cp = combat_pass(cp0, bullets0, walls0, pus0, bi as int);
                &&& w.players@ == cp.players
                &&& kept@ == cp.kept
                &&& w.timers@ == cp.timers
                &&& w.ui_events@ == cp.ui_events
                &&& w.hit_events@ == cp.hit_events
                &&& w.dead_events@ == cp.dead_events
                &&& explosions_extended(old(w).explosions@, w.explosions@, cp.spawned)
            }),
            w.players@.len() == old(w).players@.len(),
            forall|i: int|
                0 <= i < old(w).players@.len() && old(w).players@[i].invulnerable
                    ==> w.players@[i] == old(w).players@[i],
            forall|i: int|
                0 <= i < old(w).players@.len() && old(w).players@[i].lifes == 0 ==> w.players@[i]
                    == old(w).players@[i],
            forall|i: int|
                0 <= i < old(w).players@.len() ==> #[trigger] w.players@[i] == (Player {
                    lifes: w.players@[i].lifes,
                    invulnerable: w.players@[i].invulnerable,
                    stunned: w.players@[i].stunned,
                    ..old(w).players@[i]
                }),
            forall|i: int|
                0 <= i < old(w).players@.len() ==> (#[trigger] w.players@[i]).lifes <= old(w).players@[i].lifes,
            forall|i: int| 0 <= i < w.players@.len() ==> (#[trigger] w.players@[i]).wf(),
            forall|i: int| 0 <= i < kept@.len() ==> (#[trigger] kept@[i]).wf(),
            old(w).timers@.is_prefix_of(w.timers@),
            old(w).ui_events@.is_prefix_of(w.ui_events@),
            old(w).hit_events@.is_prefix_of(w.hit_events@),
            old(w).dead_events@.is_prefix_of(w.dead_events@),
        decreases w.bullets@.len() - bi,
    {
        proof {
            assert(combat_pass(cp0, bullets0, walls0, pus0, bi as int + 1) == combat_step(
                combat_pass(cp0, bullets0, walls0, pus0, bi as int),
                bullets0[bi as int],
                walls0,
                pus0,
            ));
        }
        let ghost cp_pre = combat_pass(cp0, bullets0, walls0, pus0, bi as int);
        let ghost pre_players = w.players@;
        let ghost pre_timers = w.timers@;
        let ghost pre_ui = w.ui_events@;
        let ghost pre_hits = w.hit_events@;
        let ghost pre_deads = w.dead_events@;
        let ghost pre_expl = w.explosions@;

        let mut bullet = w.bullets[bi];
        let destroyed = process_bullet(
            &mut bullet,
            &mut w.players,
            &mut w.timers,
            &mut w.ui_events,
            &mut w.hit_events,
            &mut w.dead_events,
            &mut w.explosions,
            &w.walls,
            &w.powerups,
        );
        if !destroyed {
            kept.push(bullet);
        }
        proof {
            let st0 = BulletPhase {
                bullet: bullets0[bi as int],
                destroyed: false,
                players: pre_players,
                timers: pre_timers,
                ui_events: pre_ui,
                hit_events: pre_hits,
                dead_events: pre_deads,
                spawned: Seq::empty(),
            };
            let st = resolve_bullet_spec(st0, walls0, pus0);
            lemma_explosions_extended_trans(
                old(w).explosions@,
                pre_expl,
                w.explosions@,
                cp_pre.spawned,
                st.spawned,
            );
            assert forall|i: int|
                0 <= i < old(w).players@.len() && old(w).players@[i].invulnerable
                    implies w.players@[i] == old(w).players@[i] by {
                assert(pre_players[i] == old(w).players@[i]);
            }
            assert forall|i: int|
                0 <= i < old(w).players@.len() && old(w).players@[i].lifes == 0
                    implies w.players@[i] == old(w).players@[i] by {
                assert(pre_players[i] == old(w).players@[i]);
            }
            assert forall|i: int|
                0 <= i < old(w).players@.len() implies #[trigger] w.players@[i] == (Player {
                lifes: w.players@[i].lifes,
                invulnerable: w.players@[i].invulnerable,
                stunned: w.players@[i].stunned,
                ..old(w).players@[i]
            }) by {
                assert(pre_players[i] == (Player {
                    lifes: pre_players[i].lifes,
                    invulnerable: pre_players[i].invulnerable,
                    stunned: pre_players[i].stunned,
                    ..old(w).players@[i]
                }));
                assert(w.players@[i] == (Player {
                    lifes: w.players@[i].lifes,
                    invulnerable: w.players@[i].invulnerable,
                    stunned: w.players@[i].stunned,
                    ..pre_players[i]
                }));
            }
            assert forall|i: int|
                0 <= i < old(w).players@.len() implies (#[trigger] w.players@[i]).lifes <= old(w).players@[i].lifes by {
                assert(pre_players[i].lifes <= old(w).players@[i].lifes);
                assert(w.players@[i].lifes <= pre_players[i].lifes);
            }
            assert(old(w).timers@.is_prefix_of(w.timers@)) by {
                assert(pre_timers.is_prefix_of(w.timers@));
                assert(old(w).timers@.is_prefix_of(pre_timers));
            }
            assert(old(w).ui_events@.is_prefix_of(w.ui_events@)) by {
                assert(pre_ui.is_prefix_of(w.ui_events@));
                assert(old(w).ui_events@.is_prefix_of(pre_ui));
            }
            assert(old(w).hit_events@.is_prefix_of(w.hit_events@)) by {
                assert(pre_hits.is_prefix_of(w.hit_events@));
                assert(old(w).hit_events@.is_prefix_of(pre_hits));
            }
            assert(old(w).dead_events@.is_prefix_of(w.dead_events@)) by {
                assert(pre_deads.is_prefix_of(w.dead_events@));
                assert(old(w).dead_events@.is_prefix_of(pre_deads));
            }
        }
        bi = bi + 1;
    }
    w.bullets = kept;
    proof {
        let cpf = combat_pass(cp0, bullets0, walls0, pus0, bullets0.len() as int);
        let n0 = old(w).explosions@.len() as int;
        assert forall|i: int| 0 <= i < w.explosions@.len() implies (
        #[trigger] w.explosions@[i]).wf() by {
            if i < n0 {
                assert(w.explosions@[i] == old(w).explosions@[i]);
            } else {
                assert(matches_fresh_explosion(w.explosions@[n0 + (i - n0)], cpf.spawned[i - n0]));
            }
        }
    }
}

/// Membership test on a list of actor identities.
pub(crate) fn vec_contains_u32(v: &Vec<u32>, x: u32) -> (r: bool)
    ensures
        r == v@.contains(x),
{
    let mut k: usize = 0;
    let mut found = false;
    while k < v.len()
        invariant
            k <= v@.len(),
            found ==> v@.contains(x),
            !found ==> forall|j: int| 0 <= j < k ==> v@[j] != x,
        decreases v@.len() - k,
    {
        if v[k] == x {
            found = true;
        }
        k = k + 1;
    }
    proof {
        if !found && v@.contains(x) {
            let j = choose|j: int| 0 <= j < v@.len() && v@[j] == x;
            assert(false);
        }
    }
    found
}

/// An exact copy of a list of actor identities.
pub(crate) fn clone_u32_vec(v: &Vec<u32>) -> (r: Vec<u32>)
    ensures
        r@ == v@,
{
    let mut r: Vec<u32> = Vec::new();
    let mut k: usize = 0;
    while k < v.len()
        invariant
            k <= v@.len(),
            r@ == v@.take(k as int),
        decreases v@.len() - k,
    {
        r.push(v[k]);
        proof {
            assert(v@.take(k as int).push(v@[k as int]) =~= v@.take(k as int + 1));
        }
        k = k + 1;
    }
    proof {
        assert(v@.take(v@.len() as int) =~= v@);
    }
    r
}

/// The state threaded through one area effect's scan of the actors: the
/// actors, timers and signals so far, and the identities this zone has
/// already damaged.
pub struct ExplosionPhase {
    pub players: Seq<Player>,
    pub timers: Seq<HitCooldownTimer>,
    pub ui_events: Seq<UpdateUIEvent>,
    pub hit_events: Seq<PlayerHitEvent>,
    pub dead_events: Seq<PlayerDeadEvent>,
    pub damaged: Seq<u32>,
}

/// One area effect evaluated against the actor at index `i`: eliminated
/// actors, actors the zone already damaged, and actors outside the zone
/// are untouched; otherwise the area-effect hit applies, and an actor the
/// hit actually reached is recorded so this zone never damages it twice.
pub open spec fn explosion_player_step(ep: ExplosionPhase, erect: Rect, i: int) -> ExplosionPhase {
    let p = ep.players[i];
    if p.lifes == 0 || ep.damaged.contains(p.player_number) || !overlaps(erect, p.rect) {
        ep
    } else {
        let p2 = explosion_hit_spec(p).0;
        let o = explosion_hit_spec(p).1;
        ExplosionPhase {
            players: ep.players.update(i, p2),
            timers: match o.armed {
                Some(t) => ep.timers.push(armed_timer(p.player_number, t)),
                None => ep.timers,
            },
            ui_events: if o.ui_refresh {
                ep.ui_events.push(UpdateUIEvent { player_number: p.player_number })
            } else {
                ep.ui_events
            },
            hit_events: if o.hit_signal {
                ep.hit_events.push(PlayerHitEvent {})
            } else {
                ep.hit_events
            },
            dead_events: if o.eliminated {
                ep.dead_events.push(PlayerDeadEvent { player_number: p.player_number })
            } else {
                ep.dead_events
            },
            damaged: if o.ui_refresh {
                ep.damaged.push(p.player_number)
            } else {
                ep.damaged
            },
        }
    }
}

/// The state after one area effect has been evaluated against the first
/// `n` actors in order.
pub open spec fn explosion_players_phase(ep: ExplosionPhase, erect: Rect, n: int) -> ExplosionPhase
    decreases n,
{
    if n <= 0 {
        ep
    } else {
        explosion_player_step(explosion_players_phase(ep, erect, n - 1), erect, n - 1)
    }
}

/// The whole-step state of the area-effect pass; `damaged_lists` collects,
/// per zone, the identities the zone has damaged so far.
pub struct ExplosionsPass {
    pub players: Seq<Player>,
    pub timers: Seq<HitCooldownTimer>,
    pub ui_events: Seq<UpdateUIEvent>,
    pub hit_events: Seq<PlayerHitEvent>,
    pub dead_events: Seq<PlayerDeadEvent>,
    pub damaged_lists: Seq<Seq<u32>>,
}

/// One area effect evaluated against every actor.
pub open spec fn explosions_step(zp: ExplosionsPass, e: Explosion) -> ExplosionsPass {
    let ep0 = ExplosionPhase {
        players: zp.players,
        timers: zp.timers,
        ui_events: zp.ui_events,
        hit_events: zp.hit_events,
        dead_events: zp.dead_events,
        damaged: e.damaged@,
    };
    let ep = explosion_players_phase(ep0, e.rect, zp.players.len() as int);
    ExplosionsPass {
        players: ep.players,
        timers: ep.timers,
        ui_events: ep.ui_events,
        hit_events: ep.hit_events,
        dead_events: ep.dead_events,
        damaged_lists: zp.damaged_lists.push(ep.damaged),
    }
}

/// The whole-step state after the first `n` area effects have been
/// evaluated, in order.
pub open spec fn explosions_pass(zp: ExplosionsPass, es: Seq<Explosion>, n: int) -> ExplosionsPass
    decreases n,
{
    if n <= 0 {
        zp
    } else {
        explosions_step(explosions_pass(zp, es, n - 1), es[n - 1])
    }
}

/// The whole-step state the area-effect pass starts from.
pub open spec fn explosions_pass_init(w: World) -> ExplosionsPass {
    ExplosionsPass {
        players: w.players@,
        timers: w.timers@,
        ui_events: w.ui_events@,
        hit_events: w.hit_events@,
        dead_events: w.dead_events@,
        damaged_lists: Seq::empty(),
    }
}

/// The area-effect pass: every live zone is evaluated against every actor
/// using the zone's own square, damaging each actor at most once over the
/// zone's whole lifetime. A zone is never consumed by a hit; it despawns
/// only through its own frame timer.
pub fn collision_explosion(w: &mut World)
    requires
        old(w).wf(),
    ensures
        final(w).wf(),
        *final(w) == (World {
            players: final(w).players,
            explosions: final(w).explosions,
            timers: final(w).timers,
            ui_events: final(w).ui_events,
            hit_events: final(w).hit_events,
            dead_events: final(w).dead_events,
            ..*old(w)
        }),
        ({
            let zp = explosions_pass(
                explosions_pass_init(*old(w)),
                old(w).explosions@,
                old(w).explosions@.len() as int,
            );
            &&& final(w).players@ == zp.players
            &&& final(w).timers@ == zp.timers
            &&& final(w).ui_events@ == zp.ui_events
            &&& final(w).hit_events@ == zp.hit_events
            &&& final(w).dead_events@ == zp.dead_events
            &&& final(w).explosions@.len() == old(w).explosions@.len()
            &&& forall|k: int|
                0 <= k < old(w).explosions@.len() ==> (#[trigger] final(w).explosions@[k]).rect
                    == old(w).explosions@[k].rect && final(w).explosions@[k].radius
                    == old(w).explosions@[k].radius && final(w).explosions@[k].timer
                    == old(w).explosions@[k].timer && final(w).explosions@[k].damaged@
                    == zp.damaged_lists[k]
        }),
        final(w).players@.len() == old(w).players@.len(),
        forall|i: int|
            0 <= i < old(w).players@.len() && old(w).players@[i].invulnerable ==> final(w).players@[i] == old(w).players@[i],
        forall|i: int|
            0 <= i < old(w).players@.len() && old(w).players@[i].lifes == 0 ==> final(w).players@[i] == old(w).players@[i],
        forall|i: int|
            0 <= i < old(w).players@.len() ==> #[trigger] final(w).players@[i] == (Player {
                lifes: final(w).players@[i].lifes,
                invulnerable: final(w).players@[i].invulnerable,
                ..old(w).players@[i]
            }),
        forall|i: int|
            0 <= i < old(w).players@.len() ==> (#[trigger] final(w).players@[i]).lifes
                <= old(w).players@[i].lifes,
        old(w).timers@.is_prefix_of(final(w).timers@),
        old(w).ui_events@.is_prefix_of(final(w).ui_events@),
        old(w).hit_events@.is_prefix_of(final(w).hit_events@),
        old(w).dead_events@.is_prefix_of(final(w).dead_events@),
{
    let ghost zp0 = explosions_pass_init(*old(w));
    let ghost expl0 = w.explosions@;
    let mut ei: usize = 0;
    while ei < w.explosions.len()
        invariant
            ei <= w.explosions@.len(),
            old(w).wf(),
            zp0 == explosions_pass_init(*old(w)),
            expl0 == old(w).explosions@,
            *w == (World {
                players: w.players,
                explosions: w.explosions,
                timers: w.timers,
                ui_events: w.ui_events,
                hit_events: w.hit_events,
                dead_events: w.dead_events,
                ..*old(w)
            }),
            w.explosions@.len() == expl0.len(),
            w.players@.len() == old(w).players@.len(),
            ({
                let zp = explosions_pass(zp0, expl0, ei as int);
                &&& w.players@ == zp.players
                &&& w.timers@ == zp.timers
                &&& w.ui_events@ == zp.ui_events
                &&& w.hit_events@ == zp.hit_events
                &&& w.dead_events@ == zp.dead_events
                &&& zp.damaged_lists.len() == ei
                &&& forall|k: int|
                    0 <= k < ei ==> (#[trigger] w.explosions@[k]).rect == expl0[k].rect
                        && w.explosions@[k].radius == expl0[k].radius && w.explosions@[k].timer
                        == expl0[k].timer && w.explosions@[k].damaged@ == zp.damaged_lists[k]
            }),
            forall|k: int| ei <= k < expl0.len() ==> w.explosions@[k] == expl0[k],
            forall|i: int|
                0 <= i < old(w).players@.len() && old(w).players@[i].invulnerable
                    ==> w.players@[i] == old(w).players@[i],
            forall|i: int|
                0 <= i < old(w).players@.len() && old(w).players@[i].lifes == 0 ==> w.players@[i]
                    == old(w).players@[i],
            forall|i: int|
                0 <= i < old(w).players@.len() ==> #[trigger] w.players@[i] == (Player {
                    lifes: w.players@[i].lifes,
                    invulnerable: w.players@[i].invulnerable,
                    ..old(w).players@[i]
                }),
            forall|i: int|
                0 <= i < old(w).players@.len() ==> (#[trigger] w.players@[i]).lifes
                    <= old(w).players@[i].lifes,
            forall|i: int| 0 <= i < w.players@.len() ==> (#[trigger] w.players@[i]).wf(),
            forall|i: int| 0 <= i < w.explosions@.len() ==> (#[trigger] w.explosions@[i]).wf(),
            old(w).timers@.is_prefix_of(w.timers@),
            old(w).ui_events@.is_prefix_of(w.ui_events@),
            old(w).hit_events@.is_prefix_of(w.hit_events@),
            old(w).dead_events@.is_prefix_of(w.dead_events@),
        decreases w.explosions@.len() - ei,
    {
        proof {
            assert(explosions_pass(zp0, expl0, ei as int + 1) == explosions_step(
                explosions_pass(zp0, expl0, ei as int),
                expl0[ei as int],
            ));
        }
        let ghost zp_pre = explosions_pass(zp0, expl0, ei as int);
        let ghost pre_players = w.players@;
        let ghost pre_timers = w.timers@;
        let ghost pre_ui = w.ui_events@;
        let ghost pre_hits = w.hit_events@;
        let ghost pre_deads = w.dead_events@;
        let ghost pre_expls = w.explosions@;
        let ghost ep0 = ExplosionPhase {
            players: pre_players,
            timers: pre_timers,
            ui_events: pre_ui,
            hit_events: pre_hits,
            dead_events: pre_deads,
            damaged: expl0[ei as int].damaged@,
        };

        let erect = w.explosions[ei].rect;
        let mut damaged = clone_u32_vec(&w.explosions[ei].damaged);

        let mut pi: usize = 0;
        while pi < w.players.len()
            invariant
                pi <= w.players@.len(),
                old(w).wf(),
                ei < expl0.len(),
                expl0 == old(w).explosions@,
                w.players@.len() == old(w).players@.len(),
                erect == expl0[ei as int].rect,
                erect.wf(),
                ep0 == (ExplosionPhase {
                    players: pre_players,
                    timers: pre_timers,
                    ui_events: pre_ui,
                    hit_events: pre_hits,
                    dead_events: pre_deads,
                    damaged: expl0[ei as int].damaged@,
                }),
                *w == (World {
                    players: w.players,
                    explosions: w.explosions,
                    timers: w.timers,
                    ui_events: w.ui_events,
                    hit_events: w.hit_events,
                    dead_events: w.dead_events,
                    ..*old(w)
                }),
                w.explosions@ == pre_expls,
                ({
                    let ep = explosion_players_phase(ep0, erect, pi as int);
                    &&& w.players@ == ep.players
                    &&& w.timers@ == ep.timers
                    &&& w.ui_events@ == ep.ui_events
                    &&& w.hit_events@ == ep.hit_events
                    &&& w.dead_events@ == ep.dead_events
                    &&& damaged@ == ep.damaged
                }),
                forall|i: int|
                    0 <= i < old(w).players@.len() && old(w).players@[i].invulnerable
                        ==> w.players@[i] == old(w).players@[i],
                forall|i: int|
                    0 <= i < old(w).players@.len() && old(w).players@[i].lifes == 0
                        ==> w.players@[i] == old(w).players@[i],
                forall|i: int|
                    0 <= i < old(w).players@.len() ==> #[trigger] w.players@[i] == (Player {
                        lifes: w.players@[i].lifes,
                        invulnerable: w.players@[i].invulnerable,
                        ..old(w).players@[i]
                    }),
                forall|i: int|
                    0 <= i < old(w).players@.len() ==> (#[trigger] w.players@[i]).lifes
                        <= old(w).players@[i].lifes,
                forall|i: int| 0 <= i < w.players@.len() ==> (#[trigger] w.players@[i]).wf(),
                old(w).timers@.is_prefix_of(pre_timers),
                old(w).ui_events@.is_prefix_of(pre_ui),
                old(w).hit_events@.is_prefix_of(pre_hits),
                old(w).dead_events@.is_prefix_of(pre_deads),
                pre_timers.is_prefix_of(w.timers@),
                pre_ui.is_prefix_of(w.ui_events@),
                pre_hits.is_prefix_of(w.hit_events@),
                pre_deads.is_prefix_of(w.dead_events@),
            decreases w.players@.len() - pi,
        {
            proof {
                assert(explosion_players_phase(ep0, erect, pi as int + 1) == explosion_player_step(
                    explosion_players_phase(ep0, erect, pi as int),
                    erect,
                    pi as int,
                ));
            }
            let ghost mid_timers = w.timers@;
            let ghost mid_ui = w.ui_events@;
            let ghost mid_hits = w.hit_events@;
            let ghost mid_deads = w.dead_events@;
            let p = w.players[pi];
            if p.lifes > 0 {
                let already = vec_contains_u32(&damaged, p.player_number);
                if !already {
                    match overlap(&erect, &p.rect) {
                        Some(_side) => {
                            let mut pp = p;
                            let o = apply_explosion_hit(&mut pp);
                            w.players.set(pi, pp);
                            emit_outcome(
                                o,
                                pp.player_number,
                                &mut w.timers,
                                &mut w.ui_events,
                                &mut w.hit_events,
                                &mut w.dead_events,
                            );
                            if o.ui_refresh {
                                damaged.push(p.player_number);
                            }
                            proof {
                                assert(pre_timers.is_prefix_of(w.timers@)) by {
                                    assert(pre_timers.is_prefix_of(mid_timers));
                                }
                                assert(pre_ui.is_prefix_of(w.ui_events@)) by {
                                    assert(pre_ui.is_prefix_of(mid_ui));
                                }
                                assert(pre_hits.is_prefix_of(w.hit_events@)) by {
                                    assert(pre_hits.is_prefix_of(mid_hits));
                                }
                                assert(pre_deads.is_prefix_of(w.dead_events@)) by {
                                    assert(pre_deads.is_prefix_of(mid_deads));
                                }
                            }
                        },
                        None => {},
                    }
                }
            }
            pi = pi + 1;
        }

        let radius = w.explosions[ei].radius;
        let timer = w.explosions[ei].timer;
        let renewed = Explosion { radius, rect: erect, timer, damaged };
        w.explosions.set(ei, renewed);
        proof {
            let ep = explosion_players_phase(ep0, erect, old(w).players@.len() as int);
            assert(explosions_pass(zp0, expl0, ei as int + 1).damaged_lists
                == zp_pre.damaged_lists.push(ep.damaged));
            assert(old(w).timers@.is_prefix_of(w.timers@)) by {
                assert(old(w).timers@.is_prefix_of(pre_timers));
                assert(pre_timers.is_prefix_of(w.timers@));
            }
            assert(old(w).ui_events@.is_prefix_of(w.ui_events@)) by {
                assert(old(w).ui_events@.is_prefix_of(pre_ui));
                assert(pre_ui.is_prefix_of(w.ui_events@));
            }
            assert(old(w).hit_events@.is_prefix_of(w.hit_events@)) by {
                assert(old(w).hit_events@.is_prefix_of(pre_hits));
                assert(pre_hits.is_prefix_of(w.hit_events@));
            }
            assert(old(w).dead_events@.is_prefix_of(w.dead_events@)) by {
                assert(old(w).dead_events@.is_prefix_of(pre_deads));
                assert(pre_deads.is_prefix_of(w.dead_events@));
            }
        }
        ei = ei + 1;
    }
}

/// The state threaded through one actor's scan of the pickups: the actor,
/// the pickups not yet consumed, and the signals so far.
pub struct PickupPhase {
    pub player: Player,
    pub kept: Seq<PowerUp>,
    pub ui_events: Seq<UpdateUIEvent>,
    pub powerup_events: Seq<PlayerPowerUpEvent>,
}

/// One pickup evaluated against the actor: an eliminated actor or a
/// non-overlapping pickup leaves the pickup in place; otherwise the actor
/// is granted the pickup's type, the pickup is consumed, and the UI and
/// placement signals are emitted. A later grant overwrites an earlier one;
/// taking damage never does.
pub open spec fn pickup_step(pp: PickupPhase, pu: PowerUp) -> PickupPhase {
    if pp.player.lifes == 0 || !overlaps(pu.rect, pp.player.rect) {
        PickupPhase { kept: pp.kept.push(pu), ..pp }
    } else {
        PickupPhase {
            player: Player {
                powerup: true,
                power_up_type: Some(pu.pickup_type),
                ..pp.player
            },
            kept: pp.kept,
            ui_events: pp.ui_events.push(
                UpdateUIEvent { player_number: pp.player.player_number },
            ),
            powerup_events: pp.powerup_events.push(PlayerPowerUpEvent {}),
        }
    }
}

/// The state after the actor has been evaluated against the first `n`
/// pickups in order.
pub open spec fn pickup_phase(pp: PickupPhase, pus: Seq<PowerUp>, n: int) -> PickupPhase
    decreases n,
{
    if n <= 0 {
        pp
    } else {
        pickup_step(pickup_phase(pp, pus, n - 1), pus[n - 1])
    }
}

/// The whole-step state of the pickup pass.
pub struct PowerUpPass {
    pub players: Seq<Player>,
    pub powerups: Seq<PowerUp>,
    pub ui_events: Seq<UpdateUIEvent>,
    pub powerup_events: Seq<PlayerPowerUpEvent>,
}

/// One actor scans every remaining pickup; the pickups a scan consumes are
/// gone for the actors after it.
pub open spec fn powerup_player_step(pz: PowerUpPass, i: int) -> PowerUpPass {
    let pp0 = PickupPhase {
        player: pz.players[i],
        kept: Seq::empty(),
        ui_events: pz.ui_events,
        powerup_events: pz.powerup_events,
    };
    let pp = pickup_phase(pp0, pz.powerups, pz.powerups.len() as int);
    PowerUpPass {
        players: pz.players.update(i, pp.player),
        powerups: pp.kept,
        ui_events: pp.ui_events,
        powerup_events: pp.powerup_events,
    }
}

/// The whole-step state after the first `n` actors have scanned, in order.
pub open spec fn powerup_pass(pz: PowerUpPass, n: int) -> PowerUpPass
    decreases n,
{
    if n <= 0 {
        pz
    } else {
        powerup_player_step(powerup_pass(pz, n - 1), n - 1)
    }
}

/// The whole-step state the pickup pass starts from.
pub open spec fn powerup_pass_init(w: World) -> PowerUpPass {
    PowerUpPass {
        players: w.players@,
        powerups: w.powerups@,
        ui_events: w.ui_events@,
        powerup_events: w.powerup_events@,
    }
}

/// The pickup pass: each live actor, in order, collects every pickup it
/// overlaps, holding the pickup's special type (a later pickup overwrites
/// an earlier one). Consumed pickups are removed, and each grant emits a
/// UI-refresh and a placement request. Nothing of an actor changes beyond
/// the held power-up.
pub fn collision_powerup(w: &mut World)
    requires
        old(w).wf(),
    ensures
        final(w).wf(),
        *final(w) == (World {
            players: final(w).players,
            powerups: final(w).powerups,
            ui_events: final(w).ui_events,
            powerup_events: final(w).powerup_events,
            ..*old(w)
        }),
        ({
            let pz = powerup_pass(powerup_pass_init(*old(w)), old(w).players@.len() as int);
            &&& final(w).players@ == pz.players
            &&& final(w).powerups@ == pz.powerups
            &&& final(w).ui_events@ == pz.ui_events
            &&& final(w).powerup_events@ == pz.powerup_events
        }),
        final(w).players@.len() == old(w).players@.len(),
        forall|i: int|
            0 <= i < old(w).players@.len() ==> #[trigger] final(w).players@[i] == (Player {
                powerup: final(w).players@[i].powerup,
                power_up_type: final(w).players@[i].power_up_type,
                ..old(w).players@[i]
            }),
        old(w).ui_events@.is_prefix_of(final(w).ui_events@),
        old(w).powerup_events@.is_prefix_of(final(w).powerup_events@),
{
    let ghost pz0 = powerup_pass_init(*old(w));
    let mut i: usize = 0;
    while i < w.players.len()
        invariant
            i <= w.players@.len(),
            old(w).wf(),
            pz0 == powerup_pass_init(*old(w)),
            *w == (World {
                players: w.players,
                powerups: w.powerups,
                ui_events: w.ui_events,
                powerup_events: w.powerup_events,
                ..*old(w)
            }),
            w.players@.len() == old(w).players@.len(),
            ({
                let pz = powerup_pass(pz0, i as int);
                &&& w.players@ == pz.players
                &&& w.powerups@ == pz.powerups
                &&& w.ui_events@ == pz.ui_events
                &&& w.powerup_events@ == pz.powerup_events
            }),
            forall|k: int|
                0 <= k < old(w).players@.len() ==> #[trigger] w.players@[k] == (Player {
                    powerup: w.players@[k].powerup,
                    power_up_type: w.players@[k].power_up_type,
                    ..old(w).players@[k]
                }),
            forall|k: int| 0 <= k < w.players@.len() ==> (#[trigger] w.players@[k]).wf(),
            forall|k: int| 0 <= k < w.powerups@.len() ==> (#[trigger] w.powerups@[k]).wf(),
            old(w).ui_events@.is_prefix_of(w.ui_events@),
            old(w).powerup_events@.is_prefix_of(w.powerup_events@),
        decreases w.players@.len() - i,
    {
        proof {
            assert(powerup_pass(pz0, i as int + 1) == powerup_player_step(
                powerup_pass(pz0, i as int),
                i as int,
            ));
        }
        let ghost pz_pre = powerup_pass(pz0, i as int);
        let ghost pre_pus = w.powerups@;
        let ghost pre_ui = w.ui_events@;
        let ghost pre_pue = w.powerup_events@;
        let mut p = w.players[i];
        let ghost p0 = p;
        let ghost pp0 = PickupPhase {
            player: p0,
            kept: Seq::empty(),
            ui_events: pre_ui,
            powerup_events: pre_pue,
        };
        let mut kept: Vec<PowerUp> = Vec::new();
        let mut qi: usize = 0;
        while qi < w.powerups.len()
            invariant
                qi <= w.powerups@.len(),
                i < w.players@.len(),
                w.players@.len() == old(w).players@.len(),
                w.powerups@ == pre_pus,
                pp0 == (PickupPhase {
                    player: p0,
                    kept: Seq::<PowerUp>::empty(),
                    ui_events: pre_ui,
                    powerup_events: pre_pue,
                }),
                pz0 == powerup_pass_init(*old(w)),
                ({
                    let pz = powerup_pass(pz0, i as int);
                    &&& w.players@ == pz.players
                    &&& pre_pus == pz.powerups
                    &&& pre_ui == pz.ui_events
                    &&& pre_pue == pz.powerup_events
                }),
                forall|k: int|
                    0 <= k < old(w).players@.len() ==> #[trigger] w.players@[k] == (Player {
                        powerup: w.players@[k].powerup,
                        power_up_type: w.players@[k].power_up_type,
                        ..old(w).players@[k]
                    }),
                forall|k: int| 0 <= k < w.players@.len() ==> (#[trigger] w.players@[k]).wf(),
                old(w).ui_events@.is_prefix_of(pre_ui),
                old(w).powerup_events@.is_prefix_of(pre_pue),
                p0 == w.players@[i as int],
                p0.wf(),
                *w == (World {
                    players: w.players,
                    powerups: w.powerups,
                    ui_events: w.ui_events,
                    powerup_events: w.powerup_events,
                    ..*old(w)
                }),
                ({
                    let pp = pickup_phase(pp0, pre_pus, qi as int);
                    &&& p == pp.player
                    &&& kept@ == pp.kept
                    &&& w.ui_events@ == pp.ui_events
                    &&& w.powerup_events@ == pp.powerup_events
                }),
                forall|k: int| 0 <= k < w.powerups@.len() ==> (#[trigger] w.powerups@[k]).wf(),
                forall|k: int| 0 <= k < kept@.len() ==> (#[trigger] kept@[k]).wf(),
                p.wf(),
                p == (Player { powerup: p.powerup, power_up_type: p.power_up_type, ..p0 }),
                pre_ui.is_prefix_of(w.ui_events@),
                pre_pue.is_prefix_of(w.powerup_events@),
            decreases w.powerups@.len() - qi,
        {
            proof {
                assert(pickup_phase(pp0, pre_pus, qi as int + 1) == pickup_step(
                    pickup_phase(pp0, pre_pus, qi as int),
                    pre_pus[qi as int],
                ));
            }
            let pu = w.powerups[qi];
            let mut taken = false;
            if p.lifes > 0 {
                match overlap(&pu.rect, &p.rect) {
                    Some(_side) => {
                        p.powerup = true;
                        p.power_up_type = Some(pu.pickup_type);
                        w.ui_events.push(UpdateUIEvent { player_number: p.player_number });
                        w.powerup_events.push(PlayerPowerUpEvent {});
                        taken = true;
                    },
                    None => {},
                }
            }
            if !taken {
                kept.push(pu);
            }
            qi = qi + 1;
        }
        w.powerups = kept;
        w.players.set(i, p);
        proof {
            assert(old(w).ui_events@.is_prefix_of(w.ui_events@)) by {
                assert(old(w).ui_events@.is_prefix_of(pre_ui));
                assert(pre_ui.is_prefix_of(w.ui_events@));
            }
            assert(old(w).powerup_events@.is_prefix_of(w.powerup_events@)) by {
                assert(old(w).powerup_events@.is_prefix_of(pre_pue));
                assert(pre_pue.is_prefix_of(w.powerup_events@));
            }
            assert forall|k: int|
                0 <= k < old(w).players@.len() implies #[trigger] w.players@[k] == (Player {
                powerup: w.players@[k].powerup,
                power_up_type: w.players@[k].power_up_type,
                ..old(w).players@[k]
            }) by {
                if k == i as int {
                    assert(w.players@[k] == p);
                    assert(p == (Player { powerup: p.powerup, power_up_type: p.power_up_type, ..p0 }));
                    assert(p0 == (Player {
                        powerup: p0.powerup,
                        power_up_type: p0.power_up_type,
                        ..old(w).players@[k]
                    }));
                }
            }
        }
        i = i + 1;
    }
}

/// An actor's health never decreases while invulnerable: every kind of
/// hit leaves an invulnerable actor entirely untouched.
pub proof fn lemma_invulnerable_shields(p: Player)
    requires
        p.invulnerable,
    ensures
        normal_hit_spec(p).0 == p,
        ice_hit_spec(p).0 == p,
        explosion_hit_spec(p).0 == p,
        bouncy_actor_hit_spec(p).0 == p,
{
}

/// Stun and damage are never both the direct cause of one hit's effects:
/// an Ice hit never decrements health, and no damaging hit ever sets the
/// stun flag.
pub proof fn lemma_hit_effects_exclusive(p: Player)
    ensures
        ice_hit_spec(p).0.lifes == p.lifes,
        normal_hit_spec(p).0.stunned ==> p.stunned,
        bouncy_actor_hit_spec(p).0.stunned ==> p.stunned,
        explosion_hit_spec(p).0.stunned == p.stunned,
{
}

/// Repeated Ice hits on an already-stunned, non-invulnerable actor are
/// no-ops: the actor is left exactly as it was, still stunned, and no new
/// stun timer is armed, so the pending stun window is neither extended
/// nor shortened.
pub proof fn lemma_ice_hit_idempotent(p: Player)
    requires
        p.stunned,
        !p.invulnerable,
    ensures
        ice_hit_spec(p).0 == p,
        ice_hit_spec(p).0.stunned,
        ice_hit_spec(p).1.armed is None,
{
}

/// The area-effect damage rule, for every health value: a damageable
/// actor inside the zone loses exactly two health points while more than
/// two remain, arming invulnerability and signalling the hit; at two or
/// fewer the actor's health floors at zero and the actor is eliminated
/// with no timer armed; either way the actor's UI panel is refreshed.
pub proof fn lemma_explosion_damage_rule(p: Player)
    requires
        p.lifes > 0,
        !p.invulnerable,
    ensures
        explosion_hit_spec(p).0.lifes == if p.lifes > 2 {
            (p.lifes - 2) as u32
        } else {
            0
        },
        p.lifes > 2 ==> explosion_hit_spec(p).0.invulnerable && explosion_hit_spec(p).1.armed
            == Some(TimerType::Invulnerable) && explosion_hit_spec(p).1.hit_signal,
        p.lifes <= 2 ==> explosion_hit_spec(p).1.eliminated && explosion_hit_spec(
            p,
        ).1.armed is None,
        explosion_hit_spec(p).1.ui_refresh,
{
}

/// A Bouncy projectile after `k` consecutive wall strikes, reflecting off
/// the recorded contact sides in order.
pub open spec fn struck_bullet(b: Bullet, sides: Seq<Side>) -> Bullet
    decreases sides.len(),
{
    if sides.len() == 0 {
        b
    } else {
        bounced_bullet(struck_bullet(b, sides.drop_last()), sides.last())
    }
}

/// The round trip of a Bouncy projectile's bounce budget: striking walls
/// consecutively without touching an actor, each strike spends exactly one
/// unit of budget, so after `k` strikes the budget is `b - k`. Since a
/// wall strike destroys the projectile exactly when the budget it leaves
/// is zero, the projectile survives the first `b - 1` wall contacts and
/// is destroyed by the `b`-th.
pub proof fn lemma_bouncy_round_trip(b: Bullet, sides: Seq<Side>)
    requires
        sides.len() <= b.bounces_left,
    ensures
        struck_bullet(b, sides).bounces_left == b.bounces_left - sides.len(),
        sides.len() < b.bounces_left ==> struck_bullet(b, sides).bounces_left > 0,
        sides.len() == b.bounces_left ==> struck_bullet(b, sides).bounces_left == 0,
    decreases sides.len(),
{
    if sides.len() > 0 {
        lemma_bouncy_round_trip(b, sides.drop_last());
    }
}

/// Ties the strike chain to the wall-resolution step: a Bouncy projectile
/// overlapping a wall is reflected and is destroyed exactly when the
/// strike leaves its budget at zero.
pub proof fn lemma_bouncy_wall_step(st: BulletPhase, wall: Rect)
    requires
        !st.destroyed,
        st.bullet.bullet_type == BulletType::BouncyBullet,
        overlaps(st.bullet.rect, wall),
    ensures
        bullet_obstacle_step(st, wall).bullet == bounced_bullet(
            st.bullet,
            contact_side(st.bullet.rect, wall),
        ),
        bullet_obstacle_step(st, wall).destroyed <==> bullet_obstacle_step(
            st,
            wall,
        ).bullet.bounces_left == 0,
{
}

} // verus!
