//! The entity constructors, the direction helpers and the small decoders.

use stapid::game_objects::{Bullet, Player, PowerUp};
use stapid::game_utils::{BulletType, Direction, DirectionHelper};
use stapid::geometry::Rect;

fn facing(dx: Direction, dy: Direction) -> DirectionHelper {
    DirectionHelper { direction_y: dy, direction_x: dx }
}

fn square(cx: i64, cy: i64, half: i64) -> Rect {
    Rect { min_x: cx - half, min_y: cy - half, max_x: cx + half, max_y: cy + half }
}

#[test]
fn new_player_defaults() {
    let p = Player::new(3, facing(Direction::Left, Direction::Neutral), square(0, 0, 2500));
    assert_eq!(p.player_number, 3);
    assert_eq!(p.lifes, 3);
    assert_eq!(p.size, 5000);
    assert_eq!(p.speed, 250);
    assert!(!p.invulnerable && !p.stunned && !p.powerup && p.shoot);
    assert_eq!(p.power_up_type, None);
    let b = p.direction_block;
    assert!(!b.up && !b.down && !b.left && !b.right);
}

#[test]
fn decrement_life_takes_one_point() {
    let mut p = Player::new(1, facing(Direction::Right, Direction::Neutral), square(0, 0, 2500));
    p.decrement_life();
    assert_eq!(p.lifes, 2);
    p.decrement_life();
    assert_eq!(p.lifes, 1);
}

#[test]
fn bullet_spawn_offsets_follow_facing() {
    let mut p = Player::new(1, facing(Direction::Right, Direction::Up), square(0, 0, 2500));
    assert_eq!(p.get_bullet_spawn_position(), (4100, 4100));
    p.direction = facing(Direction::Left, Direction::Down);
    assert_eq!(p.get_bullet_spawn_position(), (-4100, -4100));
    p.direction = facing(Direction::Neutral, Direction::Neutral);
    assert_eq!(p.get_bullet_spawn_position(), (0, 0));
}

#[test]
fn direction_sprites_cover_all_facings() {
    let mut p = Player::new(1, facing(Direction::Right, Direction::Up), square(0, 0, 2500));
    assert_eq!(p.get_direction_sprite(), "../assets/player_right_up.png");
    p.direction = facing(Direction::Left, Direction::Neutral);
    assert_eq!(p.get_direction_sprite(), "../assets/player_left.png");
    p.direction = facing(Direction::Neutral, Direction::Down);
    assert_eq!(p.get_direction_sprite(), "../assets/player_down.png");
    p.direction = facing(Direction::Neutral, Direction::Neutral);
    assert_eq!(p.get_direction_sprite(), "");
}

#[test]
fn movement_allowed_consults_stun_and_blocks() {
    let mut p = Player::new(1, facing(Direction::Right, Direction::Neutral), square(0, 0, 2500));
    assert!(p.movement_allowed(Direction::Up));
    p.direction_block.up = true;
    assert!(!p.movement_allowed(Direction::Up));
    assert!(p.movement_allowed(Direction::Down));
    p.stunned = true;
    assert!(!p.movement_allowed(Direction::Down));
}

#[test]
fn normal_bullet_fields() {
    let b = Bullet::normal_bullet(facing(Direction::Right, Direction::Neutral));
    assert_eq!(b.bullet_type, BulletType::NormalBullet);
    assert_eq!(b.speed, 1000);
    assert!(!b.stuns && !b.bounces);
    assert_eq!(b.bounces_left, 0);
}

#[test]
fn ice_bullet_fields() {
    let b = Bullet::ice_bullet(facing(Direction::Right, Direction::Neutral));
    assert_eq!(b.bullet_type, BulletType::IceBullet);
    assert_eq!(b.speed, 2000);
    assert!(b.stuns && !b.bounces);
}

#[test]
fn explosive_bullet_fields() {
    let b = Bullet::explosive_bullet(facing(Direction::Right, Direction::Neutral));
    assert_eq!(b.bullet_type, BulletType::ExplosiveBullet);
    assert_eq!(b.speed, 600);
    assert_eq!(b.area_of_effect, 500);
}

#[test]
fn bouncy_bullet_fields() {
    let b = Bullet::bouncy_bullet(facing(Direction::Right, Direction::Neutral));
    assert_eq!(b.bullet_type, BulletType::BouncyBullet);
    assert_eq!(b.speed, 1500);
    assert!(b.bounces);
    assert_eq!(b.bounces_left, 4);
}

#[test]
fn bullet_from_enum_dispatches() {
    let d = facing(Direction::Left, Direction::Neutral);
    let b = Bullet::bullet_from_enum(Some(&BulletType::IceBullet), &d);
    assert_eq!(b.bullet_type, BulletType::IceBullet);
    let b = Bullet::bullet_from_enum(Some(&BulletType::NormalBullet), &d);
    assert_eq!(b.bullet_type, BulletType::NormalBullet);
    assert_eq!(b.direction.direction_x, Direction::Left);
}

#[test]
fn opposite_mirrors_each_direction() {
    assert_eq!(Direction::Up.opposite(), Direction::Down);
    assert_eq!(Direction::Down.opposite(), Direction::Up);
    assert_eq!(Direction::Left.opposite(), Direction::Right);
    assert_eq!(Direction::Right.opposite(), Direction::Left);
    assert_eq!(Direction::Neutral.opposite(), Direction::Neutral);
}

#[test]
fn convert_int_decodes_special_types() {
    assert_eq!(BulletType::convert_int(0), Some(BulletType::IceBullet));
    assert_eq!(BulletType::convert_int(1), Some(BulletType::ExplosiveBullet));
    assert_eq!(BulletType::convert_int(2), Some(BulletType::BouncyBullet));
    assert_eq!(BulletType::convert_int(3), None);
    assert_eq!(BulletType::convert_int(-1), None);
}

#[test]
fn bullet_type_labels() {
    assert_eq!(BulletType::IceBullet.label(), "Ice");
    assert_eq!(BulletType::NormalBullet.label(), "None");
    assert_eq!(BulletType::ExplosiveBullet.label(), "Grenade");
    assert_eq!(BulletType::BouncyBullet.label(), "Bouncy");
}

#[test]
fn random_position_stays_inside_the_placement_band() {
    // Each placement draw lies inside the arena, away from the edges; the
    // draws vary, so the generator is not handing a constant back.
    let mut seen_distinct = false;
    let first = PowerUp::generate_random_position();
    for _ in 0..200 {
        let (x, y) = PowerUp::generate_random_position();
        assert!((-78500..=78500).contains(&x));
        assert!((-48500..=48500).contains(&y));
        if (x, y) != first {
            seen_distinct = true;
        }
    }
    assert!(seen_distinct);
}
