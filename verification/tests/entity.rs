use pong::entity::{Entity, Size};
use pong::fixed::Fixed;
use pong::geometry::{Rectangle, Vec2};

fn at(x: i32, y: i32) -> Vec2 {
    Vec2::new(Fixed::from_int(x), Fixed::from_int(y))
}

#[test]
fn size_keeps_positive_dimensions() {
    let size = Size::new(32, 128).unwrap();
    assert_eq!(size.width(), 32);
    assert_eq!(size.height(), 128);
    let largest = Size::new(i32::MAX, 1).unwrap();
    assert_eq!(largest.width(), i32::MAX);
    assert_eq!(largest.height(), 1);
}

#[test]
fn size_rejects_dimensions_that_are_not_positive() {
    assert!(Size::new(0, 10).is_none());
    assert!(Size::new(10, 0).is_none());
    assert!(Size::new(0, 0).is_none());
    assert!(Size::new(-1, 10).is_none());
    assert!(Size::new(10, -1).is_none());
    assert!(Size::new(i32::MIN, i32::MIN).is_none());
}

#[test]
fn new_entity_is_at_rest() {
    let size = Size::new(32, 128).unwrap();
    let paddle = Entity::new(size, at(16, 476));
    assert_eq!(paddle.size, size);
    assert_eq!(paddle.position, at(16, 476));
    assert_eq!(paddle.velocity, Vec2::zero());
}

#[test]
fn with_velocity_keeps_what_it_is_given() {
    let size = Size::new(16, 16).unwrap();
    let ball = Entity::with_velocity(size, at(952, 532), at(-10, 0));
    assert_eq!(ball.size, size);
    assert_eq!(ball.position, at(952, 532));
    assert_eq!(ball.velocity, at(-10, 0));
}

#[test]
fn width_and_height_come_from_the_size() {
    let paddle = Entity::new(Size::new(32, 128).unwrap(), at(0, 0));
    assert_eq!(paddle.width(), Fixed::from_int(32));
    assert_eq!(paddle.height(), Fixed::from_int(128));
}

#[test]
fn bounds_start_at_the_position() {
    let paddle = Entity::new(Size::new(32, 128).unwrap(), at(16, 476));
    assert_eq!(
        paddle.bounds(),
        Rectangle::new(
            Fixed::from_int(16),
            Fixed::from_int(476),
            Fixed::from_int(32),
            Fixed::from_int(128),
        )
    );
}

#[test]
fn centre_is_the_middle_of_the_bounds() {
    let paddle = Entity::new(Size::new(32, 128).unwrap(), at(16, 476));
    assert_eq!(paddle.centre(), at(32, 540));
    let odd = Entity::new(Size::new(15, 7).unwrap(), at(-20, 3));
    assert_eq!(
        odd.centre(),
        Vec2::new(Fixed::from_parts(-13, 32768), Fixed::from_parts(6, 32768))
    );
}

#[test]
fn bounds_and_centre_follow_the_position() {
    let mut ball = Entity::with_velocity(Size::new(16, 16).unwrap(), at(952, 532), at(-10, 0));
    assert_eq!(ball.centre(), at(960, 540));
    ball.position = at(100, 200);
    assert_eq!(ball.bounds().x, Fixed::from_int(100));
    assert_eq!(ball.bounds().y, Fixed::from_int(200));
    assert_eq!(ball.centre(), at(108, 208));
    ball.position = ball.position.plus(ball.velocity);
    assert_eq!(ball.bounds().x, Fixed::from_int(90));
    assert_eq!(ball.centre(), at(98, 208));
}

#[test]
fn centre_clamps_at_the_end_of_the_range() {
    let far = Vec2::new(Fixed::from_int(i32::MAX), Fixed::from_int(i32::MAX));
    let big = Entity::new(Size::new(i32::MAX, 4).unwrap(), far);
    let limit = Fixed::from_int(i32::MAX).plus(Fixed::from_int(1));
    assert_eq!(big.centre().x, limit);
    assert_eq!(big.centre().y, limit);
}
