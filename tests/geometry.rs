use asteroids::direction::Direction;
use asteroids::point::Point;

#[test]
fn new_point_holds_coordinates() {
    let p = Point::new(3, 7);
    assert_eq!(p.x, 3);
    assert_eq!(p.y, 7);
}

#[test]
fn transform_moves_one_axis_by_one() {
    let p = Point::new(5, 5);
    assert_eq!(p.transform(Direction::Right), Point::new(6, 5));
    assert_eq!(p.transform(Direction::Left), Point::new(4, 5));
    assert_eq!(p.transform(Direction::Down), Point::new(5, 6));
    assert_eq!(p.transform(Direction::Up), Point::new(5, 4));
}

#[test]
fn transform_nothing_is_identity() {
    for p in [Point::new(0, 0), Point::new(4, 9), Point::new(u16::MAX, u16::MAX)] {
        assert_eq!(p.transform(Direction::Nothing), p);
    }
}

#[test]
fn transform_at_edges_of_range() {
    assert_eq!(Point::new(1, 0).transform(Direction::Left), Point::new(0, 0));
    assert_eq!(Point::new(0, 1).transform(Direction::Up), Point::new(0, 0));
    assert_eq!(Point::new(u16::MAX - 1, 0).transform(Direction::Right), Point::new(u16::MAX, 0));
    assert_eq!(Point::new(40000, 40000).transform(Direction::Down), Point::new(40000, 40001));
}

#[test]
fn transform_value_adds_signed_offset() {
    assert_eq!(Point::transform_value(10, -1), 9);
    assert_eq!(Point::transform_value(10, 1), 11);
    assert_eq!(Point::transform_value(10, 0), 10);
    assert_eq!(Point::transform_value(1, -1), 0);
    assert_eq!(Point::transform_value(u16::MAX, -i16::MAX), u16::MAX - i16::MAX as u16);
    assert_eq!(Point::transform_value(u16::MAX, i16::MIN), u16::MAX - 32768);
}
