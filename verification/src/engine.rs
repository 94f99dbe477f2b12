//! The simulation-step state and the systems that run outside the overlap
//! passes: projectile kinematics and the cooldown-timer registry.

use vstd::prelude::*;

use crate::collision::{
    armed_timer, clone_u32_vec, collision_bullet, collision_explosion, collision_player,
    collision_powerup, timer_duration,
};
use crate::game_objects::{
    bouncy_bullet_spec, explosive_bullet_spec, fresh_player, ice_bullet_spec, in_play,
    normal_bullet_spec, spawn_offset_x, spawn_offset_y, Bullet, Explosion, Player, PowerUp, Totem,
};
use crate::game_utils::BulletType;
use crate::geometry::{overlap, overlaps, rect_center_x, rect_center_y};
use crate::rng::{fresh_rng, rng_range};
use crate::game_utils::{
    AnimationTimer, Direction, DirectionHelper, HitCooldownTimer, InvulnerableBlinkTimer,
    PlayerDeadEvent, PlayerHitEvent, PlayerPowerUpEvent, TimerType, UpdateUIEvent,
};
use crate::geometry::Rect;
use crate::{
    BLINK_MS, BULLET_HALF, COORD_LIMIT, EXPLOSION_FRAME_MS, MAX_BULLET_SPEED,
    MAX_PLACEMENT_ATTEMPTS, PLAYER_HALF, PLAY_LIMIT, POWERUP_HALF, POWERUP_MAX_X, POWERUP_MAX_Y,
    POWERUP_MIN_X, POWERUP_MIN_Y,
};

verus! {

/// Snapshot of one simulation step: every entity collection, the pending
/// cooldown timers, and the signals emitted so far. Within a step the
/// passes run in a fixed order, each reading the positions the previous
/// pass left.
pub struct World {
    pub players: Vec<Player>,
    pub walls: Vec<Rect>,
    pub bullets: Vec<Bullet>,
    pub explosions: Vec<Explosion>,
    pub powerups: Vec<PowerUp>,
    pub totems: Vec<Totem>,
    pub timers: Vec<HitCooldownTimer>,
    pub blink_timers: Vec<InvulnerableBlinkTimer>,
    pub ui_events: Vec<UpdateUIEvent>,
    pub hit_events: Vec<PlayerHitEvent>,
    pub dead_events: Vec<PlayerDeadEvent>,
    pub powerup_events: Vec<PlayerPowerUpEvent>,
}

impl World {
    /// Every entity's rectangle is well-formed; the movable ones stay far
    /// enough inside the coordinate range.
    pub open spec fn wf(self) -> bool {
        &&& forall|i: int| 0 <= i < self.players@.len() ==> (#[trigger] self.players@[i]).wf()
        &&& forall|i: int| 0 <= i < self.walls@.len() ==> (#[trigger] self.walls@[i]).wf()
        &&& forall|i: int| 0 <= i < self.bullets@.len() ==> (#[trigger] self.bullets@[i]).wf()
        &&& forall|i: int|
            0 <= i < self.explosions@.len() ==> (#[trigger] self.explosions@[i]).wf()
        &&& forall|i: int| 0 <= i < self.powerups@.len() ==> (#[trigger] self.powerups@[i]).wf()
    }

    /// An empty arena.
    pub fn new() -> (w: World)
        ensures
            w.wf(),
            w.players@ == Seq::<Player>::empty(),
            w.walls@ == Seq::<Rect>::empty(),
            w.bullets@ == Seq::<Bullet>::empty(),
            w.explosions@ == Seq::<Explosion>::empty(),
            w.powerups@ == Seq::<PowerUp>::empty(),
            w.totems@ == Seq::<Totem>::empty(),
            w.timers@ == Seq::<HitCooldownTimer>::empty(),
            w.blink_timers@ == Seq::<InvulnerableBlinkTimer>::empty(),
            w.ui_events@ == Seq::<UpdateUIEvent>::empty(),
            w.hit_events@ == Seq::<PlayerHitEvent>::empty(),
            w.dead_events@ == Seq::<PlayerDeadEvent>::empty(),
            w.powerup_events@ == Seq::<PlayerPowerUpEvent>::empty(),
    {
        World {
            players: Vec::new(),
            walls: Vec::new(),
            bullets: Vec::new(),
            explosions: Vec::new(),
            powerups: Vec::new(),
            totems: Vec::new(),
            timers: Vec::new(),
            blink_timers: Vec::new(),
            ui_events: Vec::new(),
            hit_events: Vec::new(),
            dead_events: Vec::new(),
            powerup_events: Vec::new(),
        }
    }
}

/// A coordinate saturated at the play bound. Saturation is unreachable in
/// an arena-sized level; it only keeps stray projectiles inside the numeric
/// model.
pub open spec fn clamped(v: int) -> i64 {
    if v < -PLAY_LIMIT {
        (-PLAY_LIMIT) as i64
    } else if v > PLAY_LIMIT {
        PLAY_LIMIT
    } else {
        v as i64
    }
}

/// Per-tick horizontal travel for a facing: `speed` to the right, `-speed`
/// to the left, nothing on a neutral axis.
pub open spec fn axis_delta_x(d: DirectionHelper, speed: i64) -> int {
    match d.direction_x {
        Direction::Right => speed as int,
        Direction::Left => -(speed as int),
        _ => 0,
    }
}

/// Per-tick vertical travel for a facing.
pub open spec fn axis_delta_y(d: DirectionHelper, speed: i64) -> int {
    match d.direction_y {
        Direction::Up => speed as int,
        Direction::Down => -(speed as int),
        _ => 0,
    }
}

/// One kinematics tick: the rectangle advances by `speed` along each
/// non-neutral facing axis independently (diagonal travel is the vector sum
/// of two axis steps, not normalized).
pub open spec fn moved_rect(r: Rect, d: DirectionHelper, speed: i64) -> Rect {
    Rect {
        min_x: clamped(r.min_x + axis_delta_x(d, speed)),
        min_y: clamped(r.min_y + axis_delta_y(d, speed)),
        max_x: clamped(r.max_x + axis_delta_x(d, speed)),
        max_y: clamped(r.max_y + axis_delta_y(d, speed)),
    }
}

/// Adds a bounded per-tick delta to a coordinate, saturating at the play
/// bound.
fn clamp_add(v: i64, d: i64) -> (r: i64)
    requires
        -COORD_LIMIT <= v <= COORD_LIMIT,
        -MAX_BULLET_SPEED <= d <= MAX_BULLET_SPEED,
    ensures
        r == clamped(v + d),
{
    let s = v + d;
    if s < -PLAY_LIMIT {
        -PLAY_LIMIT
    } else if s > PLAY_LIMIT {
        PLAY_LIMIT
    } else {
        s
    }
}

/// Advances every projectile by one kinematics tick along its facing.
/// No deceleration, no gravity, no maximum range.
pub fn move_all_bullets(w: &mut World)
    requires
        old(w).wf(),
    ensures
        final(w).wf(),
        *final(w) == (World { bullets: final(w).bullets, ..*old(w) }),
        final(w).bullets@.len() == old(w).bullets@.len(),
        forall|i: int|
            0 <= i < old(w).bullets@.len() ==> #[trigger] final(w).bullets@[i] == (Bullet {
                rect: moved_rect(
                    old(w).bullets@[i].rect,
                    old(w).bullets@[i].direction,
                    old(w).bullets@[i].speed,
                ),
                ..old(w).bullets@[i]
            }),
{
    let mut i: usize = 0;
    while i < w.bullets.len()
        invariant
            i <= w.bullets@.len(),
            old(w).wf(),
            *w == (World { bullets: w.bullets, ..*old(w) }),
            w.bullets@.len() == old(w).bullets@.len(),
            forall|k: int|
                0 <= k < i ==> #[trigger] w.bullets@[k] == (Bullet {
                    rect: moved_rect(
                        old(w).bullets@[k].rect,
                        old(w).bullets@[k].direction,
                        old(w).bullets@[k].speed,
                    ),
                    ..old(w).bullets@[k]
                }),
            forall|k: int| i <= k < w.bullets@.len() ==> w.bullets@[k] == old(w).bullets@[k],
            forall|k: int| 0 <= k < w.bullets@.len() ==> (#[trigger] w.bullets@[k]).wf(),
        decreases w.bullets@.len() - i,
    {
        let b = w.bullets[i];
        let dx: i64 = match b.direction.direction_x {
            Direction::Right => b.speed,
            Direction::Left => -b.speed,
            _ => 0,
        };
        let dy: i64 = match b.direction.direction_y {
            Direction::Up => b.speed,
            Direction::Down => -b.speed,
            _ => 0,
        };
        let moved = Bullet {
            rect: Rect {
                min_x: clamp_add(b.rect.min_x, dx),
                min_y: clamp_add(b.rect.min_y, dy),
                max_x: clamp_add(b.rect.max_x, dx),
                max_y: clamp_add(b.rect.max_y, dy),
            },
            ..b
        };
        w.bullets.set(i, moved);
        i = i + 1;
    }
}

/// The timer after `delta` milliseconds have elapsed; it fires when its
/// remaining time is spent.
pub open spec fn ticked_timer(t: HitCooldownTimer, delta: u64) -> HitCooldownTimer {
    HitCooldownTimer {
        remaining_ms: if t.remaining_ms <= delta {
            0
        } else {
            (t.remaining_ms - delta) as u64
        },
        ..t
    }
}

/// The timer's remaining time is spent within this tick.
pub open spec fn timer_fires(t: HitCooldownTimer, delta: u64) -> bool {
    t.remaining_ms <= delta
}

/// The timer entries that survive this tick, in order, each advanced by the
/// elapsed time; entries that fire are retired.
pub open spec fn surviving_timers(ts: Seq<HitCooldownTimer>, delta: u64) -> Seq<HitCooldownTimer>
    decreases ts.len(),
{
    if ts.len() == 0 {
        Seq::empty()
    } else {
        let prev = surviving_timers(ts.drop_last(), delta);
        if timer_fires(ts.last(), delta) {
            prev
        } else {
            prev.push(ticked_timer(ts.last(), delta))
        }
    }
}

/// This timer fires within the tick and governs the given actor and kind.
pub open spec fn fires_matching(
    t: HitCooldownTimer,
    delta: u64,
    number: u32,
    kind: TimerType,
) -> bool {
    timer_fires(t, delta) && t.associated_player == number && t.timer_type == kind
}

/// Some pending timer of this kind for this actor fires within the tick.
pub open spec fn kind_fires_for(
    ts: Seq<HitCooldownTimer>,
    delta: u64,
    number: u32,
    kind: TimerType,
) -> bool {
    exists|k: int| 0 <= k < ts.len() && #[trigger] fires_matching(ts[k], delta, number, kind)
}

/// The actor after every timer firing this tick has applied its terminal
/// effect: an expiring stun or invulnerability window clears its flag, an
/// expiring fire-rate window lets the actor fire again. An eliminated actor is
/// treated as absent and no effect applies.
pub open spec fn ticked_player(p: Player, ts: Seq<HitCooldownTimer>, delta: u64) -> Player {
    if p.lifes == 0 {
        p
    } else {
        Player {
            stunned: p.stunned && !kind_fires_for(ts, delta, p.player_number, TimerType::Stun),
            invulnerable: p.invulnerable && !kind_fires_for(
                ts,
                delta,
                p.player_number,
                TimerType::Invulnerable,
            ),
            shoot: p.shoot || kind_fires_for(ts, delta, p.player_number, TimerType::Shoot),
            ..p
        }
    }
}

/// Advances every pending cooldown timer by the elapsed real time. Each
/// entry that fires applies exactly one terminal effect to the actor it
/// governs (a stale identity is a silent no-op) and is retired; the rest
/// keep counting down. A stale entry of the same kind still clears a flag a
/// newer hit re-armed: last expiry wins.
pub fn tick_timer(w: &mut World, delta: u64)
    requires
        old(w).wf(),
    ensures
        final(w).wf(),
        *final(w) == (World { players: final(w).players, timers: final(w).timers, ..*old(w) }),
        final(w).timers@ == surviving_timers(old(w).timers@, delta),
        final(w).players@.len() == old(w).players@.len(),
        forall|i: int|
            0 <= i < old(w).players@.len() ==> #[trigger] final(w).players@[i] == ticked_player(
                old(w).players@[i],
                old(w).timers@,
                delta,
            ),
{
    let ghost ts0 = w.timers@;
    let mut i: usize = 0;
    while i < w.players.len()
        invariant
            i <= w.players@.len(),
            old(w).wf(),
            ts0 == old(w).timers@,
            *w == (World { players: w.players, ..*old(w) }),
            w.players@.len() == old(w).players@.len(),
            forall|k: int|
                0 <= k < i ==> #[trigger] w.players@[k] == ticked_player(
                    old(w).players@[k],
                    ts0,
                    delta,
                ),
            forall|k: int| i <= k < w.players@.len() ==> w.players@[k] == old(w).players@[k],
            forall|k: int| 0 <= k < w.players@.len() ==> (#[trigger] w.players@[k]).wf(),
        decreases w.players@.len() - i,
    {
        let p = w.players[i];
        if p.lifes > 0 {
            let mut stun_hit = false;
            let mut invuln_hit = false;
            let mut shoot_hit = false;
            let mut k: usize = 0;
            while k < w.timers.len()
                invariant
                    k <= w.timers@.len(),
                    w.timers@ == ts0,
                    stun_hit ==> kind_fires_for(ts0, delta, p.player_number, TimerType::Stun),
                    invuln_hit ==> kind_fires_for(
                        ts0,
                        delta,
                        p.player_number,
                        TimerType::Invulnerable,
                    ),
                    shoot_hit ==> kind_fires_for(ts0, delta, p.player_number, TimerType::Shoot),
                    !stun_hit ==> forall|j: int|
                        0 <= j < k ==> !fires_matching(
                            #[trigger] ts0[j],
                            delta,
                            p.player_number,
                            TimerType::Stun,
                        ),
                    !invuln_hit ==> forall|j: int|
                        0 <= j < k ==> !fires_matching(
                            #[trigger] ts0[j],
                            delta,
                            p.player_number,
                            TimerType::Invulnerable,
                        ),
                    !shoot_hit ==> forall|j: int|
                        0 <= j < k ==> !fires_matching(
                            #[trigger] ts0[j],
                            delta,
                            p.player_number,
                            TimerType::Shoot,
                        ),
                decreases w.timers@.len() - k,
            {
                let t = w.timers[k];
                if t.remaining_ms <= delta && t.associated_player == p.player_number {
                    match t.timer_type {
                        TimerType::Stun => {
                            proof {
                                assert(fires_matching(
                                    ts0[k as int],
                                    delta,
                                    p.player_number,
                                    TimerType::Stun,
                                ));
                            }
                            stun_hit = true;
                        },
                        TimerType::Invulnerable => {
                            proof {
                                assert(fires_matching(
                                    ts0[k as int],
                                    delta,
                                    p.player_number,
                                    TimerType::Invulnerable,
                                ));
                            }
                            invuln_hit = true;
                        },
                        TimerType::Shoot => {
                            proof {
                                assert(fires_matching(
                                    ts0[k as int],
                                    delta,
                                    p.player_number,
                                    TimerType::Shoot,
                                ));
                            }
                            shoot_hit = true;
                        },
                    }
                }
                k = k + 1;
            }
            proof {
                if !stun_hit && kind_fires_for(ts0, delta, p.player_number, TimerType::Stun) {
                    let j = choose|j: int|
                        0 <= j < ts0.len() && #[trigger] fires_matching(
                            ts0[j],
                            delta,
                            p.player_number,
                            TimerType::Stun,
                        );
                    assert(false);
                }
                if !invuln_hit && kind_fires_for(
                    ts0,
                    delta,
                    p.player_number,
                    TimerType::Invulnerable,
                ) {
                    let j = choose|j: int|
                        0 <= j < ts0.len() && #[trigger] fires_matching(
                            ts0[j],
                            delta,
                            p.player_number,
                            TimerType::Invulnerable,
                        );
                    assert(false);
                }
                if !shoot_hit && kind_fires_for(ts0, delta, p.player_number, TimerType::Shoot) {
                    let j = choose|j: int|
                        0 <= j < ts0.len() && #[trigger] fires_matching(
                            ts0[j],
                            delta,
                            p.player_number,
                            TimerType::Shoot,
                        );
                    assert(false);
                }
            }
            let updated = Player {
                stunned: p.stunned && !stun_hit,
                invulnerable: p.invulnerable && !invuln_hit,
                shoot: p.shoot || shoot_hit,
                ..p
            };
            w.players.set(i, updated);
        }
        i = i + 1;
    }

    let mut kept: Vec<HitCooldownTimer> = Vec::new();
    let mut ti: usize = 0;
    while ti < w.timers.len()
        invariant
            ti <= w.timers@.len(),
            old(w).wf(),
            ts0 == old(w).timers@,
            w.timers@ == ts0,
            *w == (World { players: w.players, ..*old(w) }),
            w.players@.len() == old(w).players@.len(),
            forall|k: int|
                0 <= k < w.players@.len() ==> #[trigger] w.players@[k] == ticked_player(
                    old(w).players@[k],
                    ts0,
                    delta,
                ),
            forall|k: int| 0 <= k < w.players@.len() ==> (#[trigger] w.players@[k]).wf(),
            kept@ == surviving_timers(ts0.take(ti as int), delta),
        decreases w.timers@.len() - ti,
    {
        let t = w.timers[ti];
        proof {
            assert(ts0.take(ti as int + 1).drop_last() =~= ts0.take(ti as int));
            assert(ts0.take(ti as int + 1).last() == ts0[ti as int]);
        }
        if t.remaining_ms <= delta {
            // fired: the entry is retired
        } else {
            kept.push(HitCooldownTimer { remaining_ms: t.remaining_ms - delta, ..t });
        }
        ti = ti + 1;
    }
    proof {
        assert(ts0.take(ts0.len() as int) =~= ts0);
    }
    w.timers = kept;
}

/// The area effect's remaining time and frame count are both spent.
pub open spec fn explosion_expires(e: Explosion, delta: u64) -> bool {
    e.timer.remaining_ms <= delta && e.timer.counter == 0
}

/// The frame clock after `delta` milliseconds, for a zone that does not
/// expire: either the current frame keeps counting down, or one frame is
/// consumed and the clock rewinds to a full frame.
pub open spec fn advanced_timer(t: AnimationTimer, delta: u64) -> AnimationTimer {
    if t.remaining_ms > delta {
        AnimationTimer { remaining_ms: (t.remaining_ms - delta) as u64, counter: t.counter }
    } else {
        AnimationTimer { remaining_ms: EXPLOSION_FRAME_MS, counter: (t.counter - 1) as u32 }
    }
}

/// The indices of the area effects that survive this tick, in order.
pub open spec fn surviving_explosion_indices(es: Seq<Explosion>, delta: u64) -> Seq<int>
    decreases es.len(),
{
    if es.len() == 0 {
        Seq::empty()
    } else {
        let prev = surviving_explosion_indices(es.drop_last(), delta);
        if explosion_expires(es.last(), delta) {
            prev
        } else {
            prev.push(es.len() - 1)
        }
    }
}

/// The surviving zone carries the old zone's square, radius and damage
/// record, with its frame clock advanced.
pub open spec fn advanced_explosion_matches(e0: Explosion, e1: Explosion, delta: u64) -> bool {
    &&& e1.radius == e0.radius
    &&& e1.rect == e0.rect
    &&& e1.damaged@ == e0.damaged@
    &&& e1.timer == advanced_timer(e0.timer, delta)
}

/// Advances every area effect's animation frame clock by the elapsed real
/// time, retiring zones whose fixed lifetime is spent; the rest keep their
/// square and damage record.
pub fn animate_explosions(w: &mut World, delta: u64)
    requires
        old(w).wf(),
    ensures
        final(w).wf(),
        *final(w) == (World { explosions: final(w).explosions, ..*old(w) }),
        ({
            let idx = surviving_explosion_indices(old(w).explosions@, delta);
            &&& final(w).explosions@.len() == idx.len()
            &&& forall|k: int|
                0 <= k < idx.len() ==> advanced_explosion_matches(
                    old(w).explosions@[idx[k]],
                    #[trigger] final(w).explosions@[k],
                    delta,
                )
        }),
{
    let ghost es0 = w.explosions@;
    let mut kept: Vec<Explosion> = Vec::new();
    let mut ti: usize = 0;
    while ti < w.explosions.len()
        invariant
            ti <= w.explosions@.len(),
            old(w).wf(),
            es0 == old(w).explosions@,
            w.explosions@ == es0,
            *w == *old(w),
            ({
                let idx = surviving_explosion_indices(es0.take(ti as int), delta);
                &&& kept@.len() == idx.len()
                &&& forall|k: int|
                    0 <= k < idx.len() ==> advanced_explosion_matches(
                        es0[idx[k]],
                        #[trigger] kept@[k],
                        delta,
                    )
            }),
            forall|k: int| 0 <= k < kept@.len() ==> (#[trigger] kept@[k]).wf(),
        decreases w.explosions@.len() - ti,
    {
        proof {
            assert(es0.take(ti as int + 1).drop_last() =~= es0.take(ti as int));
            assert(es0.take(ti as int + 1).last() == es0[ti as int]);
        }
        let expired = w.explosions[ti].timer.remaining_ms <= delta
            && w.explosions[ti].timer.counter == 0;
        if !expired {
            let radius = w.explosions[ti].radius;
            let rect = w.explosions[ti].rect;
            let t = w.explosions[ti].timer;
            let advanced = if t.remaining_ms > delta {
                AnimationTimer { remaining_ms: t.remaining_ms - delta, counter: t.counter }
            } else {
                AnimationTimer { remaining_ms: EXPLOSION_FRAME_MS, counter: t.counter - 1 }
            };
            let damaged = clone_u32_vec(&w.explosions[ti].damaged);
            kept.push(Explosion { radius, rect, timer: advanced, damaged });
        }
        ti = ti + 1;
    }
    proof {
        assert(es0.take(es0.len() as int) =~= es0);
    }
    w.explosions = kept;
}

/// The actors that stay after elimination, in order.
pub open spec fn alive_players(ps: Seq<Player>) -> Seq<Player>
    decreases ps.len(),
{
    if ps.len() == 0 {
        Seq::empty()
    } else {
        let prev = alive_players(ps.drop_last());
        if ps.last().lifes == 0 {
            prev
        } else {
            prev.push(ps.last())
        }
    }
}

/// The defeated markers this step leaves behind, in order of elimination.
pub open spec fn new_totems(ps: Seq<Player>) -> Seq<Totem>
    decreases ps.len(),
{
    if ps.len() == 0 {
        Seq::empty()
    } else {
        let prev = new_totems(ps.drop_last());
        if ps.last().lifes == 0 {
            prev.push(
                Totem { player_number: ps.last().player_number, rect: ps.last().rect },
            )
        } else {
            prev
        }
    }
}

/// Replaces every actor reduced to zero health with a defeated marker at
/// the actor's place; from then on the identity is absent from every
/// combat lookup.
pub fn spawn_totem(w: &mut World)
    requires
        old(w).wf(),
    ensures
        final(w).wf(),
        *final(w) == (World { players: final(w).players, totems: final(w).totems, ..*old(w) }),
        final(w).players@ == alive_players(old(w).players@),
        final(w).totems@ == old(w).totems@ + new_totems(old(w).players@),
{
    let ghost ps0 = w.players@;
    let mut kept: Vec<Player> = Vec::new();
    let mut i: usize = 0;
    while i < w.players.len()
        invariant
            i <= w.players@.len(),
            old(w).wf(),
            ps0 == old(w).players@,
            w.players@ == ps0,
            *w == (World { totems: w.totems, ..*old(w) }),
            kept@ == alive_players(ps0.take(i as int)),
            w.totems@ == old(w).totems@ + new_totems(ps0.take(i as int)),
            forall|k: int| 0 <= k < kept@.len() ==> (#[trigger] kept@[k]).wf(),
        decreases w.players@.len() - i,
    {
        proof {
            assert(ps0.take(i as int + 1).drop_last() =~= ps0.take(i as int));
            assert(ps0.take(i as int + 1).last() == ps0[i as int]);
        }
        let p = w.players[i];
        if p.lifes == 0 {
            w.totems.push(Totem { player_number: p.player_number, rect: p.rect });
            proof {
                assert(w.totems@ =~= old(w).totems@ + new_totems(ps0.take(i as int + 1)));
            }
        } else {
            kept.push(p);
        }
        i = i + 1;
    }
    proof {
        assert(ps0.take(ps0.len() as int) =~= ps0);
    }
    w.players = kept;
}

/// Removes every defeated marker; part of the match reset.
pub fn clear_totems(w: &mut World)
    requires
        old(w).wf(),
    ensures
        final(w).wf(),
        *final(w) == (World { totems: final(w).totems, ..*old(w) }),
        final(w).totems@ == Seq::<Totem>::empty(),
{
    w.totems = Vec::new();
}

/// Removes every pickup on the field and requests a fresh placement for
/// each; part of the match reset.
pub fn reset_powerup(w: &mut World)
    requires
        old(w).wf(),
    ensures
        final(w).wf(),
        *final(w) == (World {
            powerups: final(w).powerups,
            powerup_events: final(w).powerup_events,
            ..*old(w)
        }),
        final(w).powerups@ == Seq::<PowerUp>::empty(),
        final(w).powerup_events@.len() == old(w).powerup_events@.len() + old(w).powerups@.len(),
        old(w).powerup_events@.is_prefix_of(final(w).powerup_events@),
{
    let mut i: usize = 0;
    let n = w.powerups.len();
    while i < n
        invariant
            i <= n,
            old(w).wf(),
            n == old(w).powerups@.len(),
            *w == (World { powerup_events: w.powerup_events, ..*old(w) }),
            w.powerup_events@.len() == old(w).powerup_events@.len() + i,
            old(w).powerup_events@.is_prefix_of(w.powerup_events@),
        decreases n - i,
    {
        let ghost pre = w.powerup_events@;
        w.powerup_events.push(PlayerPowerUpEvent {});
        proof {
            assert(old(w).powerup_events@.is_prefix_of(pre));
        }
        i = i + 1;
    }
    w.powerups = Vec::new();
}

/// The projectile built for a held bullet type.
pub open spec fn bullet_of_type(t: BulletType, direction: DirectionHelper) -> Bullet {
    match t {
        BulletType::NormalBullet => normal_bullet_spec(direction),
        BulletType::IceBullet => ice_bullet_spec(direction),
        BulletType::ExplosiveBullet => explosive_bullet_spec(direction),
        BulletType::BouncyBullet => bouncy_bullet_spec(direction),
    }
}

/// The square a projectile fired by this actor starts in: the actor's
/// center shifted along each non-neutral facing axis, saturated at the
/// play bound.
pub open spec fn spawned_bullet_rect(p: Player) -> Rect {
    let cx = rect_center_x(p.rect) + spawn_offset_x(p.direction.direction_x);
    let cy = rect_center_y(p.rect) + spawn_offset_y(p.direction.direction_y);
    Rect {
        min_x: clamped(cx - BULLET_HALF),
        min_y: clamped(cy - BULLET_HALF),
        max_x: clamped(cx + BULLET_HALF),
        max_y: clamped(cy + BULLET_HALF),
    }
}

/// Builds the projectile rectangle for the actor at `p`.
fn build_spawn_rect(p: &Player) -> (r: Rect)
    requires
        p.wf(),
    ensures
        r == spawned_bullet_rect(*p),
        in_play(r),
{
    let c = p.rect.center();
    let off = p.get_bullet_spawn_position();
    let cx = c.0 + off.0;
    let cy = c.1 + off.1;
    Rect {
        min_x: clamp_add(cx, -BULLET_HALF),
        min_y: clamp_add(cy, -BULLET_HALF),
        max_x: clamp_add(cx, BULLET_HALF),
        max_y: clamp_add(cy, BULLET_HALF),
    }
}

/// The fire action for the normal shot, allowed only while the fire-rate
/// window is open and the actor is not stunned. Each shot closes the
/// window and arms the fire-rate timer that will reopen it. The input
/// edge itself (the key press) is the caller's concern.
pub fn player_shoot(w: &mut World, i: usize) -> (fired: bool)
    requires
        old(w).wf(),
        i < old(w).players@.len(),
    ensures
        final(w).wf(),
        fired == (old(w).players@[i as int].lifes > 0 && !old(w).players@[i as int].stunned
            && old(w).players@[i as int].shoot),
        !fired ==> *final(w) == *old(w),
        fired ==> ({
            let p = old(w).players@[i as int];
            &&& *final(w) == (World {
                players: final(w).players,
                bullets: final(w).bullets,
                timers: final(w).timers,
                ..*old(w)
            })
            &&& final(w).players@ == old(w).players@.update(
                i as int,
                (Player { shoot: false, ..p }),
            )
            &&& final(w).bullets@ == old(w).bullets@.push(
                (Bullet { rect: spawned_bullet_rect(p), ..normal_bullet_spec(p.direction) }),
            )
            &&& final(w).timers@ == old(w).timers@.push(
                armed_timer(p.player_number, TimerType::Shoot),
            )
        }),
{
    let p = w.players[i];
    if p.lifes > 0 && !p.stunned && p.shoot {
        let updated = Player { shoot: false, ..p };
        w.players.set(i, updated);
        let mut b = Bullet::normal_bullet(p.direction);
        b.rect = build_spawn_rect(&p);
        w.bullets.push(b);
        let d = timer_duration(TimerType::Shoot);
        w.timers.push(HitCooldownTimer {
            remaining_ms: d,
            associated_player: p.player_number,
            timer_type: TimerType::Shoot,
        });
        true
    } else {
        false
    }
}

/// The fire action for the special shot: the fire-rate window does not
/// apply, but a stunned actor cannot fire, and the shot consumes the held
/// power-up. An actor flagged as holding a power-up without a stored type
/// fires nothing (fail closed).
pub fn player_shoot_special(w: &mut World, i: usize) -> (fired: bool)
    requires
        old(w).wf(),
        i < old(w).players@.len(),
    ensures
        final(w).wf(),
        fired == (old(w).players@[i as int].lifes > 0 && !old(w).players@[i as int].stunned
            && old(w).players@[i as int].powerup && old(
            w,
        ).players@[i as int].power_up_type.is_some()),
        !fired ==> *final(w) == *old(w),
        fired ==> ({
            let p = old(w).players@[i as int];
            &&& *final(w) == (World {
                players: final(w).players,
                bullets: final(w).bullets,
                ui_events: final(w).ui_events,
                ..*old(w)
            })
            &&& final(w).players@ == old(w).players@.update(
                i as int,
                (Player { powerup: false, power_up_type: None, ..p }),
            )
            &&& final(w).bullets@ == old(w).bullets@.push(
                (Bullet {
                    rect: spawned_bullet_rect(p),
                    ..bullet_of_type(p.power_up_type.unwrap(), p.direction)
                }),
            )
            &&& final(w).ui_events@ == old(w).ui_events@.push(
                UpdateUIEvent { player_number: p.player_number },
            )
        }),
{
    let p = w.players[i];
    if p.lifes > 0 && !p.stunned && p.powerup && p.power_up_type.is_some() {
        let updated = Player { powerup: false, power_up_type: None, ..p };
        w.players.set(i, updated);
        let mut b = Bullet::bullet_from_enum(p.power_up_type.as_ref(), &p.direction);
        b.rect = build_spawn_rect(&p);
        w.bullets.push(b);
        w.ui_events.push(UpdateUIEvent { player_number: p.player_number });
        true
    } else {
        false
    }
}

/// The candidate square overlaps none of the arena's static-side
/// colliders: walls, actors and live area effects.
pub open spec fn static_clear(w: World, r: Rect) -> bool {
    &&& forall|j: int| 0 <= j < w.walls@.len() ==> !overlaps(#[trigger] w.walls@[j], r)
    &&& forall|j: int| 0 <= j < w.players@.len() ==> !overlaps((#[trigger] w.players@[j]).rect, r)
    &&& forall|j: int|
        0 <= j < w.explosions@.len() ==> !overlaps((#[trigger] w.explosions@[j]).rect, r)
}

/// The candidate square overlaps none of the pickups in the list.
pub open spec fn pickups_clear(pus: Seq<PowerUp>, r: Rect) -> bool {
    forall|j: int| 0 <= j < pus.len() ==> !overlaps((#[trigger] pus[j]).rect, r)
}

/// The candidate square overlaps nothing on the field: no wall, actor,
/// live area effect, or pickup already placed.
pub open spec fn placement_clear_spec(w: World, r: Rect) -> bool {
    static_clear(w, r) && pickups_clear(w.powerups@, r)
}

/// How many of the pickups from index `from` on sit on a spot that is not
/// clear of the walls, actors and zones of `w0`.
pub open spec fn unclear_placements(w0: World, pus: Seq<PowerUp>, from: int) -> int
    decreases pus.len(),
{
    if pus.len() == 0 || pus.len() <= from {
        0
    } else {
        unclear_placements(w0, pus.drop_last(), from) + if static_clear(w0, pus.last().rect) {
            0int
        } else {
            1int
        }
    }
}

/// Where a pickup lands when no clear spot was found in the allotted
/// draws: the arena center.
pub open spec fn fallback_powerup_rect() -> Rect {
    Rect {
        min_x: (-POWERUP_HALF) as i64,
        min_y: (-POWERUP_HALF) as i64,
        max_x: POWERUP_HALF,
        max_y: POWERUP_HALF,
    }
}

/// A pickup square: within the placement bounds and of the pickup size.
pub open spec fn powerup_rect_ok(r: Rect) -> bool {
    &&& r.max_x - r.min_x == 2 * POWERUP_HALF
    &&& r.max_y - r.min_y == 2 * POWERUP_HALF
    &&& POWERUP_MIN_X - POWERUP_HALF <= r.min_x
    &&& r.max_x <= POWERUP_MAX_X + POWERUP_HALF
    &&& POWERUP_MIN_Y - POWERUP_HALF <= r.min_y
    &&& r.max_y <= POWERUP_MAX_Y + POWERUP_HALF
}

/// Tests a placement candidate against every collider on the field: it
/// answers true exactly when the candidate overlaps nothing.
fn placement_clear(w: &World, r: &Rect) -> (c: bool)
    requires
        w.wf(),
        r.wf(),
    ensures
        c == placement_clear_spec(*w, *r),
{
    let mut j: usize = 0;
    while j < w.walls.len()
        invariant
            j <= w.walls@.len(),
            w.wf(),
            r.wf(),
            forall|m: int| 0 <= m < j ==> !overlaps(#[trigger] w.walls@[m], *r),
        decreases w.walls@.len() - j,
    {
        if overlap(&w.walls[j], r).is_some() {
            proof {
                assert(overlaps(w.walls@[j as int], *r));
            }
            return false;
        }
        j = j + 1;
    }
    let mut j: usize = 0;
    while j < w.players.len()
        invariant
            j <= w.players@.len(),
            w.wf(),
            r.wf(),
            forall|m: int| 0 <= m < w.walls@.len() ==> !overlaps(#[trigger] w.walls@[m], *r),
            forall|m: int| 0 <= m < j ==> !overlaps((#[trigger] w.players@[m]).rect, *r),
        decreases w.players@.len() - j,
    {
        if overlap(&w.players[j].rect, r).is_some() {
            proof {
                assert(overlaps(w.players@[j as int].rect, *r));
            }
            return false;
        }
        j = j + 1;
    }
    let mut j: usize = 0;
    while j < w.explosions.len()
        invariant
            j <= w.explosions@.len(),
            w.wf(),
            r.wf(),
            forall|m: int| 0 <= m < w.walls@.len() ==> !overlaps(#[trigger] w.walls@[m], *r),
            forall|m: int|
                0 <= m < w.players@.len() ==> !overlaps((#[trigger] w.players@[m]).rect, *r),
            forall|m: int| 0 <= m < j ==> !overlaps((#[trigger] w.explosions@[m]).rect, *r),
        decreases w.explosions@.len() - j,
    {
        if overlap(&w.explosions[j].rect, r).is_some() {
            proof {
                assert(overlaps(w.explosions@[j as int].rect, *r));
            }
            return false;
        }
        j = j + 1;
    }
    let mut j: usize = 0;
    while j < w.powerups.len()
        invariant
            j <= w.powerups@.len(),
            w.wf(),
            r.wf(),
            forall|m: int| 0 <= m < w.walls@.len() ==> !overlaps(#[trigger] w.walls@[m], *r),
            forall|m: int|
                0 <= m < w.players@.len() ==> !overlaps((#[trigger] w.players@[m]).rect, *r),
            forall|m: int|
                0 <= m < w.explosions@.len() ==> !overlaps((#[trigger] w.explosions@[m]).rect, *r),
            forall|m: int| 0 <= m < j ==> !overlaps((#[trigger] w.powerups@[m]).rect, *r),
        decreases w.powerups@.len() - j,
    {
        if overlap(&w.powerups[j].rect, r).is_some() {
            proof {
                assert(overlaps(w.powerups@[j as int].rect, *r));
            }
            return false;
        }
        j = j + 1;
    }
    true
}

/// Places one fresh pickup per pending placement request: each placement
/// draws random spots inside the arena until one overlaps no collider,
/// giving up after a bounded number of draws and falling back to the arena
/// center rather than looping forever. The returned count of fallback
/// placements surfaces that give-up to the caller as a warning: every new
/// pickup beyond that count sits on a spot that was clear of the step's
/// walls, actors, zones and pre-existing pickups. The pickup's special
/// type is drawn uniformly from the three special types; an out-of-range
/// draw falls back to Ice. All requests are consumed.
pub fn spawn_powerup(w: &mut World) -> (fallbacks: usize)
    requires
        old(w).wf(),
    ensures
        fallbacks <= old(w).powerup_events@.len(),
        unclear_placements(
            *old(w),
            final(w).powerups@,
            old(w).powerups@.len() as int,
        ) <= fallbacks,
        final(w).wf(),
        *final(w) == (World {
            powerups: final(w).powerups,
            powerup_events: final(w).powerup_events,
            ..*old(w)
        }),
        final(w).powerup_events@ == Seq::<PlayerPowerUpEvent>::empty(),
        final(w).powerups@.len() == old(w).powerups@.len() + old(w).powerup_events@.len(),
        forall|k: int| 0 <= k < old(w).powerups@.len() ==> final(w).powerups@[k] == old(w).powerups@[k],
        forall|k: int|
            old(w).powerups@.len() <= k < final(w).powerups@.len() ==> {
                let pu = #[trigger] final(w).powerups@[k];
                &&& pu.wf()
                &&& pu.pickup_type != BulletType::NormalBullet
                &&& powerup_rect_ok(pu.rect)
                &&& ((static_clear(*old(w), pu.rect) && pickups_clear(
                    old(w).powerups@,
                    pu.rect,
                )) || pu.rect == fallback_powerup_rect())
            },
{
    let n = w.powerup_events.len();
    let mut fallbacks: usize = 0;
    let mut e: usize = 0;
    while e < n
        invariant
            e <= n,
            fallbacks <= e,
            old(w).wf(),
            n == old(w).powerup_events@.len(),
            *w == (World { powerups: w.powerups, ..*old(w) }),
            w.powerups@.len() == old(w).powerups@.len() + e,
            forall|k: int| 0 <= k < old(w).powerups@.len() ==> w.powerups@[k] == old(w).powerups@[k],
            forall|k: int|
                old(w).powerups@.len() <= k < w.powerups@.len() ==> {
                    let pu = #[trigger] w.powerups@[k];
                    &&& pu.wf()
                    &&& pu.pickup_type != BulletType::NormalBullet
                    &&& powerup_rect_ok(pu.rect)
                    &&& ((static_clear(*old(w), pu.rect) && pickups_clear(
                        old(w).powerups@,
                        pu.rect,
                    )) || pu.rect == fallback_powerup_rect())
                },
            unclear_placements(*old(w), w.powerups@, old(w).powerups@.len() as int) <= fallbacks,
            w.wf(),
        decreases n - e,
    {
        let mut placed: Rect = Rect {
            min_x: -POWERUP_HALF,
            min_y: -POWERUP_HALF,
            max_x: POWERUP_HALF,
            max_y: POWERUP_HALF,
        };
        let mut found = false;
        let mut a: u32 = 0;
        while a < MAX_PLACEMENT_ATTEMPTS && !found
            invariant
                old(w).wf(),
                w.wf(),
                *w == (World { powerups: w.powerups, ..*old(w) }),
                old(w).powerups@.len() <= w.powerups@.len(),
                forall|k: int|
                    0 <= k < old(w).powerups@.len() ==> w.powerups@[k] == old(w).powerups@[k],
                placed.wf(),
                powerup_rect_ok(placed),
                found ==> static_clear(*old(w), placed) && pickups_clear(
                    old(w).powerups@,
                    placed,
                ),
                !found ==> placed == fallback_powerup_rect(),
            decreases MAX_PLACEMENT_ATTEMPTS - a,
        {
            let pos = PowerUp::generate_random_position();
            let candidate = Rect::from_center(pos.0, pos.1, POWERUP_HALF, POWERUP_HALF);
            if placement_clear(&*w, &candidate) {
                proof {
                    assert(w.walls@ == old(w).walls@);
                    assert(w.players@ == old(w).players@);
                    assert(w.explosions@ == old(w).explosions@);
                    assert(static_clear(*old(w), candidate));
                    assert forall|j: int|
                        0 <= j < old(w).powerups@.len() implies !overlaps(
                        (#[trigger] old(w).powerups@[j]).rect,
                        candidate,
                    ) by {
                        assert(w.powerups@[j] == old(w).powerups@[j]);
                        assert(!overlaps(w.powerups@[j].rect, candidate));
                    }
                }
                placed = candidate;
                found = true;
            }
            a = a + 1;
        }
        if !found {
            fallbacks = fallbacks + 1;
        }
        let mut rng = fresh_rng();
        let d = rng_range(&mut rng, 0, 2);
        let t = match BulletType::convert_int(d as i32) {
            Some(t) => t,
            None => BulletType::IceBullet,
        };
        let ghost pre_pus = w.powerups@;
        w.powerups.push(PowerUp { pickup_type: t, rect: placed });
        proof {
            assert(w.powerups@.drop_last() =~= pre_pus);
            assert(w.powerups@.last() == (PowerUp { pickup_type: t, rect: placed }));
        }
        e = e + 1;
    }
    w.powerup_events = Vec::new();
    fallbacks
}

/// The standard four-actor spawn: one actor per corner, the left pair
/// facing right and the right pair facing left.
pub open spec fn default_spawn(k: int) -> Player {
    let number = (k + 1) as u32;
    let dx = if k == 0 || k == 2 {
        Direction::Right
    } else {
        Direction::Left
    };
    let cx: i64 = if k == 0 || k == 2 {
        (-70000) as i64
    } else {
        70000
    };
    let cy: i64 = if k < 2 {
        35000
    } else {
        (-35000) as i64
    };
    fresh_player(
        number,
        DirectionHelper { direction_y: Direction::Neutral, direction_x: dx },
        Rect {
            min_x: (cx - PLAYER_HALF) as i64,
            min_y: (cy - PLAYER_HALF) as i64,
            max_x: (cx + PLAYER_HALF) as i64,
            max_y: (cy + PLAYER_HALF) as i64,
        },
    )
}

/// Replaces the actor roster with the standard four fresh actors at their
/// corner spawn points; part of the match start and reset.
pub fn spawn_player(w: &mut World)
    requires
        old(w).wf(),
    ensures
        final(w).wf(),
        *final(w) == (World { players: final(w).players, ..*old(w) }),
        final(w).players@.len() == 4,
        forall|k: int| 0 <= k < 4 ==> #[trigger] final(w).players@[k] == default_spawn(k),
{
    let mut players: Vec<Player> = Vec::new();
    players.push(
        Player::new(
            1,
            DirectionHelper { direction_y: Direction::Neutral, direction_x: Direction::Right },
            Rect::from_center(-70000, 35000, PLAYER_HALF, PLAYER_HALF),
        ),
    );
    players.push(
        Player::new(
            2,
            DirectionHelper { direction_y: Direction::Neutral, direction_x: Direction::Left },
            Rect::from_center(70000, 35000, PLAYER_HALF, PLAYER_HALF),
        ),
    );
    players.push(
        Player::new(
            3,
            DirectionHelper { direction_y: Direction::Neutral, direction_x: Direction::Right },
            Rect::from_center(-70000, -35000, PLAYER_HALF, PLAYER_HALF),
        ),
    );
    players.push(
        Player::new(
            4,
            DirectionHelper { direction_y: Direction::Neutral, direction_x: Direction::Left },
            Rect::from_center(70000, -35000, PLAYER_HALF, PLAYER_HALF),
        ),
    );
    w.players = players;
}

/// One opacity command for a blinking actor's sprite.
#[derive(Clone, Copy, PartialEq, Eq, Structural, Debug)]
pub struct BlinkCue {
    pub player_number: u32,
    pub opaque: bool,
}

/// Some live actor with this identity is currently invulnerable.
pub open spec fn blinking_player(ps: Seq<Player>, number: u32) -> bool {
    exists|i: int|
        0 <= i < ps.len() && (#[trigger] ps[i]).player_number == number && ps[i].invulnerable
            && ps[i].lifes > 0
}

/// The state threaded through the blink pass: the surviving blink timers
/// and the opacity commands issued so far.
pub struct BlinkPhase {
    pub timers: Seq<InvulnerableBlinkTimer>,
    pub cues: Seq<BlinkCue>,
}

/// One blink timer advanced by the elapsed time: a timer still running
/// keeps counting down; a fired timer whose actor is still invulnerable
/// toggles the sprite and re-arms with the opposite phase; a fired timer
/// whose actor is no longer invulnerable restores full opacity and is
/// retired.
pub open spec fn blink_timer_step(
    bp: BlinkPhase,
    ps: Seq<Player>,
    t: InvulnerableBlinkTimer,
    delta: u64,
) -> BlinkPhase {
    if t.remaining_ms > delta {
        BlinkPhase {
            timers: bp.timers.push(
                InvulnerableBlinkTimer { remaining_ms: (t.remaining_ms - delta) as u64, ..t },
            ),
            cues: bp.cues,
        }
    } else if blinking_player(ps, t.associated_player) {
        BlinkPhase {
            timers: bp.timers.push(
                InvulnerableBlinkTimer {
                    remaining_ms: BLINK_MS,
                    color: !t.color,
                    associated_player: t.associated_player,
                },
            ),
            cues: bp.cues.push(BlinkCue { player_number: t.associated_player, opaque: t.color }),
        }
    } else {
        BlinkPhase {
            timers: bp.timers,
            cues: bp.cues.push(BlinkCue { player_number: t.associated_player, opaque: true }),
        }
    }
}

/// The blink state after the first `n` pending timers have advanced.
pub open spec fn blink_timers_phase(
    bp: BlinkPhase,
    ps: Seq<Player>,
    ts: Seq<InvulnerableBlinkTimer>,
    delta: u64,
    n: int,
) -> BlinkPhase
    decreases n,
{
    if n <= 0 {
        bp
    } else {
        blink_timer_step(blink_timers_phase(bp, ps, ts, delta, n - 1), ps, ts[n - 1], delta)
    }
}

/// One hit signal starts a blink on every invulnerable live actor: the
/// sprite dims and a timer is armed to restore it.
pub open spec fn blink_hit_step(bp: BlinkPhase, p: Player) -> BlinkPhase {
    if p.invulnerable && p.lifes > 0 {
        BlinkPhase {
            timers: bp.timers.push(
                InvulnerableBlinkTimer {
                    remaining_ms: BLINK_MS,
                    color: true,
                    associated_player: p.player_number,
                },
            ),
            cues: bp.cues.push(BlinkCue { player_number: p.player_number, opaque: false }),
        }
    } else {
        bp
    }
}

/// One hit signal applied to the first `n` actors.
pub open spec fn blink_hit_players_phase(bp: BlinkPhase, ps: Seq<Player>, n: int) -> BlinkPhase
    decreases n,
{
    if n <= 0 {
        bp
    } else {
        blink_hit_step(blink_hit_players_phase(bp, ps, n - 1), ps[n - 1])
    }
}

/// `k` hit signals applied in turn.
pub open spec fn blink_hits_phase(bp: BlinkPhase, ps: Seq<Player>, k: int) -> BlinkPhase
    decreases k,
{
    if k <= 0 {
        bp
    } else {
        blink_hit_players_phase(blink_hits_phase(bp, ps, k - 1), ps, ps.len() as int)
    }
}

/// The visual-blink system: advances every blink timer by the elapsed real
/// time (each expiry toggles its actor's sprite opacity, re-arming while
/// the actor stays invulnerable), then consumes the pending hit signals,
/// each starting a blink on every invulnerable live actor. Returns the
/// opacity commands for the renderer.
pub fn player_invulnerable_blink(w: &mut World, delta: u64) -> (cues: Vec<BlinkCue>)
    requires
        old(w).wf(),
    ensures
        final(w).wf(),
        *final(w) == (World {
            blink_timers: final(w).blink_timers,
            hit_events: final(w).hit_events,
            ..*old(w)
        }),
        final(w).hit_events@ == Seq::<PlayerHitEvent>::empty(),
        ({
            let bp1 = blink_timers_phase(
                BlinkPhase { timers: Seq::empty(), cues: Seq::empty() },
                old(w).players@,
                old(w).blink_timers@,
                delta,
                old(w).blink_timers@.len() as int,
            );
            let bp = blink_hits_phase(bp1, old(w).players@, old(w).hit_events@.len() as int);
            &&& final(w).blink_timers@ == bp.timers
            &&& cues@ == bp.cues
        }),
{
    let ghost ps0 = w.players@;
    let ghost ts0 = w.blink_timers@;
    let ghost bp0 = BlinkPhase { timers: Seq::empty(), cues: Seq::empty() };
    let mut kept: Vec<InvulnerableBlinkTimer> = Vec::new();
    let mut cues: Vec<BlinkCue> = Vec::new();
    let mut ti: usize = 0;
    while ti < w.blink_timers.len()
        invariant
            ti <= w.blink_timers@.len(),
            old(w).wf(),
            ps0 == old(w).players@,
            ts0 == old(w).blink_timers@,
            *w == *old(w),
            ({
                let bp = blink_timers_phase(bp0, ps0, ts0, delta, ti as int);
                &&& kept@ == bp.timers
                &&& cues@ == bp.cues
            }),
        decreases w.blink_timers@.len() - ti,
    {
        proof {
            assert(blink_timers_phase(bp0, ps0, ts0, delta, ti as int + 1) == blink_timer_step(
                blink_timers_phase(bp0, ps0, ts0, delta, ti as int),
                ps0,
                ts0[ti as int],
                delta,
            ));
        }
        let t = w.blink_timers[ti];
        if t.remaining_ms > delta {
            kept.push(InvulnerableBlinkTimer { remaining_ms: t.remaining_ms - delta, ..t });
        } else {
            let mut still = false;
            let mut pi: usize = 0;
            while pi < w.players.len()
                invariant
                    pi <= w.players@.len(),
                    w.players@ == ps0,
                    still ==> blinking_player(ps0, t.associated_player),
                    !still ==> forall|m: int|
                        0 <= m < pi ==> !((#[trigger] ps0[m]).player_number
                            == t.associated_player && ps0[m].invulnerable && ps0[m].lifes > 0),
                decreases w.players@.len() - pi,
            {
                let p = w.players[pi];
                if p.player_number == t.associated_player && p.invulnerable && p.lifes > 0 {
                    still = true;
                }
                pi = pi + 1;
            }
            proof {
                if !still && blinking_player(ps0, t.associated_player) {
                    let m = choose|m: int|
                        0 <= m < ps0.len() && (#[trigger] ps0[m]).player_number
                            == t.associated_player && ps0[m].invulnerable && ps0[m].lifes > 0;
                    assert(false);
                }
            }
            if still {
                kept.push(InvulnerableBlinkTimer {
                    remaining_ms: BLINK_MS,
                    color: !t.color,
                    associated_player: t.associated_player,
                });
                cues.push(BlinkCue { player_number: t.associated_player, opaque: t.color });
            } else {
                cues.push(BlinkCue { player_number: t.associated_player, opaque: true });
            }
        }
        ti = ti + 1;
    }

    let ghost bp1 = blink_timers_phase(bp0, ps0, ts0, delta, ts0.len() as int);
    let n_hits = w.hit_events.len();
    let mut h: usize = 0;
    while h < n_hits
        invariant
            h <= n_hits,
            old(w).wf(),
            ps0 == old(w).players@,
            n_hits == old(w).hit_events@.len(),
            bp1 == blink_timers_phase(
                BlinkPhase { timers: Seq::<InvulnerableBlinkTimer>::empty(), cues: Seq::<BlinkCue>::empty() },
                ps0,
                old(w).blink_timers@,
                delta,
                old(w).blink_timers@.len() as int,
            ),
            *w == *old(w),
            ({
                let bp = blink_hits_phase(bp1, ps0, h as int);
                &&& kept@ == bp.timers
                &&& cues@ == bp.cues
            }),
        decreases n_hits - h,
    {
        proof {
            assert(blink_hits_phase(bp1, ps0, h as int + 1) == blink_hit_players_phase(
                blink_hits_phase(bp1, ps0, h as int),
                ps0,
                ps0.len() as int,
            ));
        }
        let ghost bph = blink_hits_phase(bp1, ps0, h as int);
        let mut pi: usize = 0;
        while pi < w.players.len()
            invariant
                pi <= w.players@.len(),
                w.players@ == ps0,
                bph == blink_hits_phase(bp1, ps0, h as int),
                ({
                    let bp = blink_hit_players_phase(bph, ps0, pi as int);
                    &&& kept@ == bp.timers
                    &&& cues@ == bp.cues
                }),
            decreases w.players@.len() - pi,
        {
            proof {
                assert(blink_hit_players_phase(bph, ps0, pi as int + 1) == blink_hit_step(
                    blink_hit_players_phase(bph, ps0, pi as int),
                    ps0[pi as int],
                ));
            }
            let p = w.players[pi];
            if p.invulnerable && p.lifes > 0 {
                kept.push(InvulnerableBlinkTimer {
                    remaining_ms: BLINK_MS,
                    color: true,
                    associated_player: p.player_number,
                });
                cues.push(BlinkCue { player_number: p.player_number, opaque: false });
            }
            pi = pi + 1;
        }
        h = h + 1;
    }
    w.blink_timers = kept;
    w.hit_events = Vec::new();
    cues
}

/// One fixed simulation step, in the engine's order: wall contacts are
/// recomputed, projectiles resolve against actors and geometry, pickups
/// are collected, area effects damage, and projectiles advance.
///
/// Whatever happens within the step, an actor invulnerable at its start
/// takes no damage and is still invulnerable at its end (only timer expiry
/// clears the flag, and timers tick outside this step); health never
/// increases; no actor moves or changes identity.
pub fn fixed_update(w: &mut World)
    requires
        old(w).wf(),
    ensures
        final(w).wf(),
        *final(w) == (World {
            players: final(w).players,
            bullets: final(w).bullets,
            explosions: final(w).explosions,
            powerups: final(w).powerups,
            timers: final(w).timers,
            ui_events: final(w).ui_events,
            hit_events: final(w).hit_events,
            dead_events: final(w).dead_events,
            powerup_events: final(w).powerup_events,
            ..*old(w)
        }),
        final(w).players@.len() == old(w).players@.len(),
        forall|i: int|
            0 <= i < old(w).players@.len() ==> (#[trigger] final(w).players@[i]).lifes
                <= old(w).players@[i].lifes,
        forall|i: int|
            0 <= i < old(w).players@.len() && old(w).players@[i].invulnerable ==> (
            #[trigger] final(w).players@[i]).lifes == old(w).players@[i].lifes && final(w).players@[i].invulnerable,
        forall|i: int|
            0 <= i < old(w).players@.len() ==> (#[trigger] final(w).players@[i]).rect
                == old(w).players@[i].rect && final(w).players@[i].player_number
                == old(w).players@[i].player_number,
{
    collision_player(w);
    let ghost w1 = *w;
    collision_bullet(w);
    let ghost w2 = *w;
    collision_powerup(w);
    let ghost w3 = *w;
    collision_explosion(w);
    let ghost w4 = *w;
    move_all_bullets(w);
    proof {
        assert forall|i: int|
            0 <= i < old(w).players@.len() implies {
            &&& (#[trigger] final(w).players@[i]).lifes <= old(w).players@[i].lifes
            &&& (old(w).players@[i].invulnerable ==> final(w).players@[i].lifes == old(w).players@[i].lifes && final(w).players@[i].invulnerable)
            &&& final(w).players@[i].rect == old(w).players@[i].rect
            &&& final(w).players@[i].player_number == old(w).players@[i].player_number
        } by {
            let p0 = old(w).players@[i];
            let p1 = w1.players@[i];
            let p2 = w2.players@[i];
            let p3 = w3.players@[i];
            let p4 = w4.players@[i];
            assert(p1 == (Player { direction_block: p1.direction_block, ..p0 }));
            assert(p2 == (Player {
                lifes: p2.lifes,
                invulnerable: p2.invulnerable,
                stunned: p2.stunned,
                ..p1
            }));
            assert(p2.lifes <= p1.lifes);
            assert(p3 == (Player { powerup: p3.powerup, power_up_type: p3.power_up_type, ..p2 }));
            assert(p4 == (Player { lifes: p4.lifes, invulnerable: p4.invulnerable, ..p3 }));
            assert(p4.lifes <= p3.lifes);
            assert(final(w).players@[i] == p4);
            if p0.invulnerable {
                assert(p1.invulnerable);
                assert(p2 == p1);
                assert(p3.invulnerable);
                assert(p4 == p3);
            }
        }
    }
}

/// The match reset: removes every defeated marker, respawns the standard
/// four actors at their corners, and clears the field's pickups while
/// requesting a fresh placement for each.
pub fn reset_game(w: &mut World)
    requires
        old(w).wf(),
    ensures
        final(w).wf(),
        *final(w) == (World {
            players: final(w).players,
            totems: final(w).totems,
            powerups: final(w).powerups,
            powerup_events: final(w).powerup_events,
            ..*old(w)
        }),
        final(w).totems@ == Seq::<Totem>::empty(),
        final(w).players@.len() == 4,
        forall|k: int| 0 <= k < 4 ==> #[trigger] final(w).players@[k] == default_spawn(k),
        final(w).powerups@ == Seq::<PowerUp>::empty(),
        final(w).powerup_events@.len() == old(w).powerup_events@.len() + old(w).powerups@.len(),
{
    clear_totems(w);
    spawn_player(w);
    reset_powerup(w);
}

} // verus!
