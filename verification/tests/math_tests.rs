use ttt_core::math::Line;
use ttt_core::math::Point3;
use ttt_core::math::ScreenPoint;
use ttt_core::math::Square;

#[test]
fn screen_point_from_tuple_should_get_x_from_first_element_and_y_from_second() {
    let x = 1;
    let y = 2;
    let tuple_point = (x, y);

    let screen_point = ScreenPoint::from(tuple_point);

    assert_eq!(screen_point.x, tuple_point.0);
    assert_eq!(screen_point.y, tuple_point.1);
}

#[test]
fn square_new_sets_center_point_and_size() {
    let center_point = Point3::new(1, 2, 3);
    let size = 4;

    let square = Square::new(center_point, size);

    assert_eq!(square.center(), center_point);
    assert_eq!(square.size(), size);
}

#[test]
fn square_try_new_when_negative_size_should_return_none() {
    let center_point = Point3::new(1, 2, 3);
    let size = -1;

    let square = Square::try_new(center_point, size);

    assert!(square.is_none());
}

#[test]
fn square_try_new_when_zero_size_should_return_point_square() {
    let center_point = Point3::new(1, 2, 3);

    let square = Square::try_new(center_point, 0).unwrap();

    assert_eq!(square.center(), center_point);
    assert_eq!(square.size(), 0);
}

#[test]
fn square_top_center_should_get_point_plus_y_above_center_point() {
    let size = 4;
    let half_size = size / 2;
    let center_point = Point3::new(1, 1, 3);
    let expected_top = Point3::new(center_point.x, center_point.y + half_size, center_point.z);

    let square = Square::new(center_point, size);

    assert_eq!(square.top_center(), expected_top);
}

#[test]
fn square_bottom_center_should_get_point_minus_y_below_center_point() {
    let size = 4;
    let half_size = size / 2;
    let center_point = Point3::new(1, 1, 3);
    let expected_bottom = Point3::new(center_point.x, center_point.y - half_size, center_point.z);

    let square = Square::new(center_point, size);

    assert_eq!(square.bottom_center(), expected_bottom);
}

#[test]
fn square_center_left_should_get_point_minus_x_from_center_point() {
    let size = 4;
    let half_size = size / 2;
    let center_point = Point3::new(1, 1, 3);
    let expected_left = Point3::new(center_point.x - half_size, center_point.y, center_point.z);

    let square = Square::new(center_point, size);

    assert_eq!(square.center_left(), expected_left);
}

#[test]
fn square_center_right_should_get_point_plus_x_from_center_point() {
    let size = 4;
    let half_size = size / 2;
    let center_point = Point3::new(1, 1, 3);
    let expected_right = Point3::new(center_point.x + half_size, center_point.y, center_point.z);

    let square = Square::new(center_point, size);

    assert_eq!(square.center_right(), expected_right);
}

#[test]
fn square_top_left_should_get_point_minus_x_and_plus_y_from_center_point() {
    let size = 4;
    let half_size = size / 2;
    let center_point = Point3::new(1, 2, 3);
    let expected_top_left = Point3::new(
        center_point.x - half_size,
        center_point.y + half_size,
        center_point.z,
    );

    let square = Square::new(center_point, size);

    assert_eq!(square.top_left(), expected_top_left);
}

#[test]
fn square_top_right_should_get_point_plus_x_and_plus_y_from_center_point() {
    let size = 4;
    let half_size = size / 2;
    let center_point = Point3::new(1, 2, 3);
    let expected_top_right = Point3::new(
        center_point.x + half_size,
        center_point.y + half_size,
        center_point.z,
    );

    let square = Square::new(center_point, size);

    assert_eq!(square.top_right(), expected_top_right);
}

#[test]
fn square_bottom_left_should_get_point_minus_x_and_minux_y_from_center_point() {
    let size = 4;
    let half_size = size / 2;
    let center_point = Point3::new(1, 2, 3);
    let expected_bottom_left = Point3::new(
        center_point.x - half_size,
        center_point.y - half_size,
        center_point.z,
    );

    let square = Square::new(center_point, size);

    assert_eq!(square.bottom_left(), expected_bottom_left);
}

#[test]
fn square_bottom_right_should_get_point_plus_x_and_minus_y_from_center_point() {
    let size = 4;
    let half_size = size / 2;
    let center_point = Point3::new(1, 2, 3);
    let expected_bottom_right = Point3::new(
        center_point.x + half_size,
        center_point.y - half_size,
        center_point.z,
    );

    let square = Square::new(center_point, size);

    assert_eq!(square.bottom_right(), expected_bottom_right);
}

#[test]
fn line_new_should_set_fields() {
    let start = Point3::new(1, 2, 3);
    let end = Point3::new(4, 5, 6);

    let line = Line::new(start, end);

    assert_eq!(line.start(), start);
    assert_eq!(line.end(), end);
}
