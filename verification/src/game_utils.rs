//! Shared enums, status flags, cooldown timers and outbound signals.

use vstd::prelude::*;

verus! {

/// A facing or travel component along one axis. `Neutral` means no movement
/// on that axis.
#[derive(Clone, Copy, PartialEq, Eq, Structural, Debug)]
pub enum Direction {
    Up,
    Down,
    Right,
    Left,
    Neutral,
}

/// The mirror image of a direction; `Neutral` is its own mirror.
pub open spec fn opposite_of(d: Direction) -> Direction {
    match d {
        Direction::Up => Direction::Down,
        Direction::Down => Direction::Up,
        Direction::Right => Direction::Left,
        Direction::Left => Direction::Right,
        Direction::Neutral => Direction::Neutral,
    }
}

impl Direction {
    pub fn opposite(&self) -> (r: Direction)
        ensures
            r == opposite_of(*self),
    {
        match self {
            Direction::Up => Direction::Down,
            Direction::Down => Direction::Up,
            Direction::Right => Direction::Left,
            Direction::Left => Direction::Right,
            Direction::Neutral => Direction::Neutral,
        }
    }
}

/// A two-axis facing: one horizontal and one vertical component.
#[derive(Clone, Copy, PartialEq, Eq, Structural, Debug)]
pub struct DirectionHelper {
    pub direction_y: Direction,
    pub direction_x: Direction,
}

/// Per-actor, per-direction flags preventing movement into currently
/// overlapping static geometry. Recomputed every step; never sticky.
#[derive(Clone, Copy, PartialEq, Eq, Structural, Debug)]
pub struct DirectionBlock {
    pub up: bool,
    pub down: bool,
    pub right: bool,
    pub left: bool,
}

/// The behavioral type of a projectile.
#[derive(Clone, Copy, PartialEq, Eq, Structural, Debug)]
pub enum BulletType {
    NormalBullet,
    IceBullet,
    ExplosiveBullet,
    BouncyBullet,
}

impl BulletType {
    /// Decodes a random draw into a special bullet type: 0 is Ice, 1 is
    /// Explosive, 2 is Bouncy; anything else decodes to nothing.
    pub fn convert_int(number: i32) -> (r: Option<BulletType>)
        ensures
            number == 0 ==> r == Some(BulletType::IceBullet),
            number == 1 ==> r == Some(BulletType::ExplosiveBullet),
            number == 2 ==> r == Some(BulletType::BouncyBullet),
            !(0 <= number <= 2) ==> r is None,
    {
        match number {
            0 => Some(BulletType::IceBullet),
            1 => Some(BulletType::ExplosiveBullet),
            2 => Some(BulletType::BouncyBullet),
            _ => None,
        }
    }

    /// The label shown by the UI for a held special.
    pub fn label(&self) -> (r: &'static str)
        ensures
            *self is IceBullet ==> r@ == "Ice"@,
            *self is NormalBullet ==> r@ == "None"@,
            *self is ExplosiveBullet ==> r@ == "Grenade"@,
            *self is BouncyBullet ==> r@ == "Bouncy"@,
    {
        match self {
            BulletType::IceBullet => "Ice",
            BulletType::NormalBullet => "None",
            BulletType::ExplosiveBullet => "Grenade",
            BulletType::BouncyBullet => "Bouncy",
        }
    }
}

/// The terminal effect a cooldown timer applies when it expires.
#[derive(Clone, Copy, PartialEq, Eq, Structural, Debug)]
pub enum TimerType {
    Invulnerable,
    Stun,
    Shoot,
}

/// A one-shot, timed, state-clearing entry keyed to an actor identity.
/// `remaining_ms` counts down by elapsed real time; the timer fires when it
/// reaches zero.
#[derive(Clone, Copy, PartialEq, Eq, Structural, Debug)]
pub struct HitCooldownTimer {
    pub remaining_ms: u64,
    pub associated_player: u32,
    pub timer_type: TimerType,
}

/// Drives the invulnerability blink: each expiry toggles the actor's sprite
/// between dimmed and opaque. `color` is true when the next expiry restores
/// full opacity.
#[derive(Clone, Copy, PartialEq, Eq, Structural, Debug)]
pub struct InvulnerableBlinkTimer {
    pub remaining_ms: u64,
    pub color: bool,
    pub associated_player: u32,
}

/// Frame clock of an area effect: `counter` animation frames remain, and the
/// next frame boundary is `remaining_ms` away.
#[derive(Clone, Copy, PartialEq, Eq, Structural, Debug)]
pub struct AnimationTimer {
    pub remaining_ms: u64,
    pub counter: u32,
}

/// Request to restart the match.
#[derive(Clone, Copy, PartialEq, Eq, Structural, Debug)]
pub struct ResetGameEvent {}

/// An actor took non-lethal damage; consumed by the blink effect.
#[derive(Clone, Copy, PartialEq, Eq, Structural, Debug)]
pub struct PlayerHitEvent {}

/// An actor fired a projectile.
#[derive(Clone, Copy, PartialEq, Eq, Structural, Debug)]
pub struct PlayerShootEvent {}

/// A power-up was consumed or cleared and a new one should be placed.
#[derive(Clone, Copy, PartialEq, Eq, Structural, Debug)]
pub struct PlayerPowerUpEvent {}

/// The UI panel of one actor must be redrawn.
#[derive(Clone, Copy, PartialEq, Eq, Structural, Debug)]
pub struct UpdateUIEvent {
    pub player_number: u32,
}

/// An actor was eliminated; carries the actor's identity.
#[derive(Clone, Copy, PartialEq, Eq, Structural, Debug)]
pub struct PlayerDeadEvent {
    pub player_number: u32,
}

} // verus!
