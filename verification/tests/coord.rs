use rogue_core::position::{delta, Coord2d, Position2d};

#[test]
fn test_top_coordinate_calculation() {
    let coord2d = Coord2d::new(1, 1);

    let up_in_bounds = coord2d.up(2);
    let up_out_of_bounds = coord2d.up(0);

    assert_eq!(2, up_in_bounds.y);
    assert_eq!(0, up_out_of_bounds.y);
}

#[test]
fn test_left_coordinate_calculation() {
    let coord2d = Coord2d::new(1, 1);

    let left_in_bounds = coord2d.left(0);
    let left_out_of_bounds = coord2d.left(1);

    assert_eq!(0, left_in_bounds.x);
    assert_eq!(1, left_out_of_bounds.x);
}

#[test]
fn test_down_coordinate_calculation() {
    let coord2d = Coord2d::new(1, 1);

    let down_in_bounds = coord2d.down(0);
    let down_out_of_bounds = coord2d.down(1);

    assert_eq!(0, down_in_bounds.y);
    assert_eq!(1, down_out_of_bounds.y);
}

#[test]
fn test_right_coordinate_calculation() {
    let coord2d = Coord2d::new(1, 1);

    let right_in_bounds = coord2d.right(2);
    let right_out_of_bounds = coord2d.right(1);

    assert_eq!(2, right_in_bounds.x);
    assert_eq!(1, right_out_of_bounds.x);
}

#[test]
fn coordinates_from_other_positions() {
    let from_tuple = Coord2d::from_position(&(40, 25));
    assert_eq!(40, from_tuple.x);
    assert_eq!(25, from_tuple.y);

    let from_array = Coord2d::from_position(&[7, -3]);
    assert_eq!(7, from_array.x);
    assert_eq!(-3, from_array.y);
}

#[test]
fn position_accessors_and_conversions() {
    let c = Coord2d::new(8, 4);
    assert_eq!(8, c.x_coordinate());
    assert_eq!(4, c.y_coordinate());
    assert_eq!([8, 4], c.as_array());
    assert_eq!((8, 4), c.as_tuple());
    assert_eq!([2, 1], delta(&[8, 4], &[6, 3]));
    assert_eq!([-2, -1], delta(&(6, 3), &(8, 4)));
}
