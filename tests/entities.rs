use asteroids::asteroid::Asteroid;
use asteroids::direction::Direction;
use asteroids::point::Point;
use asteroids::ship::{Bullet, Ship};

#[test]
fn ship_starts_still_and_not_shooting() {
    let ship = Ship::new(0, 9);
    assert_eq!(ship.get_ship_point(), Point::new(0, 9));
    assert_eq!(ship.get_direction(), Direction::Nothing);
    assert!(!ship.shooting);
}

#[test]
fn ship_slides_the_way_it_faces() {
    let mut ship = Ship::new(4, 9);
    ship.set_direction(Direction::Right);
    assert_eq!(ship.get_direction(), Direction::Right);
    ship.slide();
    assert_eq!(ship.get_ship_point(), Point::new(5, 9));
    ship.set_direction(Direction::Left);
    ship.slide();
    ship.slide();
    assert_eq!(ship.get_ship_point(), Point::new(3, 9));
}

#[test]
fn bullet_flies_up() {
    let mut bullet = Bullet::new(2, 10);
    assert_eq!(bullet.direction, Direction::Up);
    bullet.shoot();
    assert_eq!(bullet.point, Point::new(2, 9));
}

#[test]
fn asteroid_falls_down() {
    let mut asteroid = Asteroid::new(6, 0);
    assert_eq!(asteroid.direction, Direction::Down);
    asteroid.fall();
    asteroid.fall();
    assert_eq!(asteroid.point, Point::new(6, 2));
}
