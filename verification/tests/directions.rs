use voxelsync::direction::{Axis, AxisDirection, Direction};

#[test]
fn opposites_pair_up() {
    let pairs = [
        (Direction::North, Direction::South),
        (Direction::East, Direction::West),
        (Direction::Up, Direction::Down),
    ];
    for (a, b) in pairs {
        assert_eq!(a.opposite(), b);
        assert_eq!(b.opposite(), a);
    }
}

#[test]
fn axes_and_axis_directions() {
    assert_eq!(Direction::North.axis(), Axis::Z);
    assert_eq!(Direction::South.axis(), Axis::Z);
    assert_eq!(Direction::East.axis(), Axis::X);
    assert_eq!(Direction::West.axis(), Axis::X);
    assert_eq!(Direction::Up.axis(), Axis::Y);
    assert_eq!(Direction::Down.axis(), Axis::Y);
    assert_eq!(Direction::North.axis_direction(), AxisDirection::Negative);
    assert_eq!(Direction::South.axis_direction(), AxisDirection::Positive);
    assert_eq!(Direction::Down.axis_direction(), AxisDirection::Negative);
    assert_eq!(AxisDirection::Positive.sign(), 1);
    assert_eq!(AxisDirection::Negative.sign(), -1);
}
