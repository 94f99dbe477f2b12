//! The movable entities of the arena: actors, projectiles, area effects,
//! power-up pickups and defeated-actor markers.

use vstd::prelude::*;

use crate::game_utils::{AnimationTimer, BulletType, Direction, DirectionBlock, DirectionHelper};
use crate::geometry::Rect;
use crate::rng::{fresh_rng, rng_range};
use crate::{
    BOUNCE_BUDGET, BOUNCY_BULLET_SPEED, BULLET_HALF, BULLET_SPAWN_OFFSET, EXPLOSION_FRAMES,
    EXPLOSION_FRAME_MS, EXPLOSION_RADIUS, EXPLOSIVE_BULLET_SPEED, ICE_BULLET_SPEED, INITIAL_LIFES,
    NORMAL_BULLET_SPEED, PLAYER_HALF, PLAYER_SPEED, PLAY_LIMIT, POWERUP_MAX_X, POWERUP_MAX_Y,
    POWERUP_MIN_X, POWERUP_MIN_Y,
};

verus! {

/// A rectangle that stays far enough inside the coordinate range that it can
/// be inflated for contact queries or advanced by one tick without leaving
/// the range.
pub open spec fn in_play(r: Rect) -> bool {
    &&& r.wf()
    &&& -PLAY_LIMIT <= r.min_x
    &&& r.max_x <= PLAY_LIMIT
    &&& -PLAY_LIMIT <= r.min_y
    &&& r.max_y <= PLAY_LIMIT
}

/// A player-controlled combatant: health, status flags, facing, wall-block
/// state, held power-up and the rectangle used for overlap tests.
///
/// The actor is associated to its timers and signals by `player_number`, a
/// stable integer identity.
#[derive(Clone, Copy, Debug)]
pub struct Player {
    pub player_number: u32,
    pub size: i64,
    pub lifes: u32,
    pub invulnerable: bool,
    pub stunned: bool,
    pub powerup: bool,
    pub shoot: bool,
    pub speed: i64,
    pub direction: DirectionHelper,
    pub direction_block: DirectionBlock,
    pub power_up_type: Option<BulletType>,
    pub rect: Rect,
}

/// Horizontal spawn offset of a projectile fired while facing `d`.
pub open spec fn spawn_offset_x(d: Direction) -> i64 {
    match d {
        Direction::Right => BULLET_SPAWN_OFFSET,
        Direction::Left => (-BULLET_SPAWN_OFFSET) as i64,
        _ => 0,
    }
}

/// Vertical spawn offset of a projectile fired while facing `d`.
pub open spec fn spawn_offset_y(d: Direction) -> i64 {
    match d {
        Direction::Up => BULLET_SPAWN_OFFSET,
        Direction::Down => (-BULLET_SPAWN_OFFSET) as i64,
        _ => 0,
    }
}

/// The sprite asset shown for a two-axis facing.
pub open spec fn direction_sprite(dx: Direction, dy: Direction) -> Seq<char> {
    match dx {
        Direction::Right => match dy {
            Direction::Up => "../assets/player_right_up.png"@,
            Direction::Down => "../assets/player_right_down.png"@,
            _ => "../assets/player_right.png"@,
        },
        Direction::Left => match dy {
            Direction::Up => "../assets/player_left_up.png"@,
            Direction::Down => "../assets/player_left_down.png"@,
            _ => "../assets/player_left.png"@,
        },
        _ => match dy {
            Direction::Up => "../assets/player_up.png"@,
            Direction::Down => "../assets/player_down.png"@,
            _ => ""@,
        },
    }
}

/// Whether the block flags forbid moving one step in direction `d`.
pub open spec fn blocked_towards(b: DirectionBlock, d: Direction) -> bool {
    match d {
        Direction::Up => b.up,
        Direction::Down => b.down,
        Direction::Right => b.right,
        Direction::Left => b.left,
        Direction::Neutral => false,
    }
}

/// A fresh actor: full health, no status flags, ready to fire, with no
/// power-up and nothing blocked.
pub open spec fn fresh_player(number: u32, direction: DirectionHelper, rect: Rect) -> Player {
    Player {
        player_number: number,
        size: crate::PLAYER_SIZE,
        lifes: INITIAL_LIFES,
        invulnerable: false,
        stunned: false,
        powerup: false,
        shoot: true,
        speed: PLAYER_SPEED,
        direction,
        direction_block: DirectionBlock { up: false, down: false, right: false, left: false },
        power_up_type: None,
        rect,
    }
}

impl Player {
    /// The rectangle stays well inside the coordinate range, and a held
    /// power-up is always one of the three special bullet types.
    pub open spec fn wf(self) -> bool {
        &&& in_play(self.rect)
        &&& self.power_up_type != Some(BulletType::NormalBullet)
    }

    /// Builds a fresh actor.
    pub fn new(number: u32, entered_direction: DirectionHelper, rect: Rect) -> (p: Player)
        requires
            in_play(rect),
        ensures
            p == fresh_player(number, entered_direction, rect),
            p.wf(),
    {
        Player {
            player_number: number,
            size: crate::PLAYER_SIZE,
            lifes: INITIAL_LIFES,
            invulnerable: false,
            stunned: false,
            powerup: false,
            shoot: true,
            speed: PLAYER_SPEED,
            direction: entered_direction,
            direction_block: DirectionBlock { up: false, down: false, right: false, left: false },
            power_up_type: None,
            rect,
        }
    }

    /// Removes one health point; callers first check the invulnerability flag
    /// and on the actor still being alive.
    pub fn decrement_life(&mut self)
        requires
            old(self).lifes > 0,
        ensures
            *final(self) == (Player { lifes: (old(self).lifes - 1) as u32, ..*old(self) }),
    {
        self.lifes = self.lifes - 1;
    }

    /// Offset from the actor's center at which a fired projectile appears:
    /// shifted along each non-neutral facing axis.
    pub fn get_bullet_spawn_position(&self) -> (p: (i64, i64))
        ensures
            p.0 == spawn_offset_x(self.direction.direction_x),
            p.1 == spawn_offset_y(self.direction.direction_y),
    {
        let bullet_x: i64 = match self.direction.direction_x {
            Direction::Right => BULLET_SPAWN_OFFSET,
            Direction::Left => -BULLET_SPAWN_OFFSET,
            _ => 0,
        };
        let bullet_y: i64 = match self.direction.direction_y {
            Direction::Up => BULLET_SPAWN_OFFSET,
            Direction::Down => -BULLET_SPAWN_OFFSET,
            _ => 0,
        };
        (bullet_x, bullet_y)
    }

    /// The sprite asset matching the actor's current facing.
    pub fn get_direction_sprite(&self) -> (r: &'static str)
        ensures
            r@ == direction_sprite(self.direction.direction_x, self.direction.direction_y),
    {
        match &self.direction.direction_x {
            Direction::Right => match &self.direction.direction_y {
                Direction::Up => "../assets/player_right_up.png",
                Direction::Down => "../assets/player_right_down.png",
                _ => "../assets/player_right.png",
            },
            Direction::Left => match &self.direction.direction_y {
                Direction::Up => "../assets/player_left_up.png",
                Direction::Down => "../assets/player_left_down.png",
                _ => "../assets/player_left.png",
            },
            _ => match &self.direction.direction_y {
                Direction::Up => "../assets/player_up.png",
                Direction::Down => "../assets/player_down.png",
                _ => "",
            },
        }
    }

    /// Movement eligibility: the movement subsystem may move the actor one
    /// step towards `d` only while the actor is not stunned and no wall
    /// contact blocks that direction.
    pub fn movement_allowed(&self, d: Direction) -> (r: bool)
        ensures
            r == (!self.stunned && !blocked_towards(self.direction_block, d)),
    {
        if self.stunned {
            return false;
        }
        match d {
            Direction::Up => !self.direction_block.up,
            Direction::Down => !self.direction_block.down,
            Direction::Right => !self.direction_block.right,
            Direction::Left => !self.direction_block.left,
            Direction::Neutral => true,
        }
    }
}

/// A moving damage-dealing entity with a type-specific effect. The bounce
/// budget is meaningful only for the Bouncy type.
#[derive(Clone, Copy, Debug)]
pub struct Bullet {
    pub bullet_type: BulletType,
    pub speed: i64,
    pub area_of_effect: i64,
    pub stuns: bool,
    pub bounces: bool,
    pub bounces_left: u32,
    pub direction: DirectionHelper,
    pub rect: Rect,
}

/// The rectangle every projectile starts with: centered on the firing
/// actor until the spawner places it.
pub open spec fn initial_bullet_rect() -> Rect {
    Rect {
        min_x: (-BULLET_HALF) as i64,
        min_y: (-BULLET_HALF) as i64,
        max_x: BULLET_HALF,
        max_y: BULLET_HALF,
    }
}

impl Bullet {
    pub open spec fn wf(self) -> bool {
        &&& in_play(self.rect)
        &&& 0 <= self.speed <= crate::MAX_BULLET_SPEED
    }

    /// Builds the projectile matching a bullet type; used for special fire.
    /// The caller guarantees a type is held.
    pub fn bullet_from_enum(
        entered_bullet_type: Option<&BulletType>,
        direction: &DirectionHelper,
    ) -> (b: Bullet)
        requires
            entered_bullet_type.is_some(),
        ensures
            b == match *entered_bullet_type.unwrap() {
                BulletType::NormalBullet => normal_bullet_spec(*direction),
                BulletType::IceBullet => ice_bullet_spec(*direction),
                BulletType::ExplosiveBullet => explosive_bullet_spec(*direction),
                BulletType::BouncyBullet => bouncy_bullet_spec(*direction),
            },
    {
        match entered_bullet_type.unwrap() {
            BulletType::NormalBullet => Self::normal_bullet(*direction),
            BulletType::IceBullet => Self::ice_bullet(*direction),
            BulletType::ExplosiveBullet => Self::explosive_bullet(*direction),
            BulletType::BouncyBullet => Self::bouncy_bullet(*direction),
        }
    }

    pub fn normal_bullet(direction_entered: DirectionHelper) -> (b: Bullet)
        ensures
            b == normal_bullet_spec(direction_entered),
            b.wf(),
    {
        Bullet {
            bullet_type: BulletType::NormalBullet,
            speed: NORMAL_BULLET_SPEED,
            area_of_effect: 100,
            stuns: false,
            bounces: false,
            bounces_left: 0,
            direction: direction_entered,
            rect: Rect {
                min_x: -BULLET_HALF,
                min_y: -BULLET_HALF,
                max_x: BULLET_HALF,
                max_y: BULLET_HALF,
            },
        }
    }

    pub fn ice_bullet(direction_entered: DirectionHelper) -> (b: Bullet)
        ensures
            b == ice_bullet_spec(direction_entered),
            b.wf(),
    {
        Bullet {
            bullet_type: BulletType::IceBullet,
            speed: ICE_BULLET_SPEED,
            area_of_effect: 100,
            stuns: true,
            bounces: false,
            bounces_left: 0,
            direction: direction_entered,
            rect: Rect {
                min_x: -BULLET_HALF,
                min_y: -BULLET_HALF,
                max_x: BULLET_HALF,
                max_y: BULLET_HALF,
            },
        }
    }

    pub fn explosive_bullet(direction_entered: DirectionHelper) -> (b: Bullet)
        ensures
            b == explosive_bullet_spec(direction_entered),
            b.wf(),
    {
        Bullet {
            bullet_type: BulletType::ExplosiveBullet,
            speed: EXPLOSIVE_BULLET_SPEED,
            area_of_effect: 500,
            stuns: false,
            bounces: false,
            bounces_left: 0,
            direction: direction_entered,
            rect: Rect {
                min_x: -BULLET_HALF,
                min_y: -BULLET_HALF,
                max_x: BULLET_HALF,
                max_y: BULLET_HALF,
            },
        }
    }

    pub fn bouncy_bullet(direction_entered: DirectionHelper) -> (b: Bullet)
        ensures
            b == bouncy_bullet_spec(direction_entered),
            b.wf(),
    {
        Bullet {
            bullet_type: BulletType::BouncyBullet,
            speed: BOUNCY_BULLET_SPEED,
            area_of_effect: 100,
            stuns: false,
            bounces: true,
            bounces_left: BOUNCE_BUDGET,
            direction: direction_entered,
            rect: Rect {
                min_x: -BULLET_HALF,
                min_y: -BULLET_HALF,
                max_x: BULLET_HALF,
                max_y: BULLET_HALF,
            },
        }
    }
}

pub open spec fn normal_bullet_spec(direction: DirectionHelper) -> Bullet {
    Bullet {
        bullet_type: BulletType::NormalBullet,
        speed: NORMAL_BULLET_SPEED,
        area_of_effect: 100,
        stuns: false,
        bounces: false,
        bounces_left: 0,
        direction,
        rect: initial_bullet_rect(),
    }
}

pub open spec fn ice_bullet_spec(direction: DirectionHelper) -> Bullet {
    Bullet {
        bullet_type: BulletType::IceBullet,
        speed: ICE_BULLET_SPEED,
        area_of_effect: 100,
        stuns: true,
        bounces: false,
        bounces_left: 0,
        direction,
        rect: initial_bullet_rect(),
    }
}

pub open spec fn explosive_bullet_spec(direction: DirectionHelper) -> Bullet {
    Bullet {
        bullet_type: BulletType::ExplosiveBullet,
        speed: EXPLOSIVE_BULLET_SPEED,
        area_of_effect: 500,
        stuns: false,
        bounces: false,
        bounces_left: 0,
        direction,
        rect: initial_bullet_rect(),
    }
}

pub open spec fn bouncy_bullet_spec(direction: DirectionHelper) -> Bullet {
    Bullet {
        bullet_type: BulletType::BouncyBullet,
        speed: BOUNCY_BULLET_SPEED,
        area_of_effect: 100,
        stuns: false,
        bounces: true,
        bounces_left: BOUNCE_BUDGET,
        direction,
        rect: initial_bullet_rect(),
    }
}

/// A stationary, time-limited damage zone produced by an Explosive
/// projectile. Each actor is damaged at most once per zone: identities
/// already damaged are recorded in `damaged`.
#[derive(Debug)]
pub struct Explosion {
    pub radius: i64,
    pub rect: Rect,
    pub timer: AnimationTimer,
    pub damaged: Vec<u32>,
}

impl Explosion {
    pub open spec fn wf(self) -> bool {
        self.rect.wf()
    }

    /// A fresh area effect centered on the impact point: a square of
    /// half-extent `EXPLOSION_RADIUS`, alive for the fixed animation
    /// lifetime, having damaged nobody.
    pub fn spawn_at(cx: i64, cy: i64) -> (e: Explosion)
        requires
            -PLAY_LIMIT <= cx <= PLAY_LIMIT,
            -PLAY_LIMIT <= cy <= PLAY_LIMIT,
        ensures
            e.radius == EXPLOSION_RADIUS,
            e.rect == (Rect {
                min_x: (cx - EXPLOSION_RADIUS) as i64,
                min_y: (cy - EXPLOSION_RADIUS) as i64,
                max_x: (cx + EXPLOSION_RADIUS) as i64,
                max_y: (cy + EXPLOSION_RADIUS) as i64,
            }),
            e.timer == (AnimationTimer { remaining_ms: EXPLOSION_FRAME_MS, counter: EXPLOSION_FRAMES }),
            e.damaged@ == Seq::<u32>::empty(),
            e.wf(),
    {
        Explosion {
            radius: EXPLOSION_RADIUS,
            rect: Rect::from_center(cx, cy, EXPLOSION_RADIUS, EXPLOSION_RADIUS),
            timer: AnimationTimer { remaining_ms: EXPLOSION_FRAME_MS, counter: EXPLOSION_FRAMES },
            damaged: Vec::new(),
        }
    }
}

/// A pickup granting one special bullet type to the actor that touches it.
#[derive(Clone, Copy, Debug)]
pub struct PowerUp {
    pub pickup_type: BulletType,
    pub rect: Rect,
}

impl PowerUp {
    /// A pickup always holds one of the three special bullet types.
    pub open spec fn wf(self) -> bool {
        &&& self.rect.wf()
        &&& self.pickup_type != BulletType::NormalBullet
    }

    /// Draws a placement candidate inside the arena, away from the edges.
    /// The draw is random; only its bounds are known.
    pub fn generate_random_position() -> (p: (i64, i64))
        ensures
            POWERUP_MIN_X <= p.0 <= POWERUP_MAX_X,
            POWERUP_MIN_Y <= p.1 <= POWERUP_MAX_Y,
    {
        let mut rng = fresh_rng();
        let x = rng_range(&mut rng, POWERUP_MIN_X, POWERUP_MAX_X);
        let y = rng_range(&mut rng, POWERUP_MIN_Y, POWERUP_MAX_Y);
        (x, y)
    }
}

/// The marker left in place of a defeated actor.
#[derive(Clone, Copy, Debug)]
pub struct Totem {
    pub player_number: u32,
    pub rect: Rect,
}

} // verus!
