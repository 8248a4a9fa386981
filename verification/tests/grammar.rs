use transformer::matchers::{create_operation, create_operations};
use transformer::transformation::Transformation;

#[test]
fn rotate_right_angles_parse() {
    assert_eq!(create_operation("rotate_90"), Some(Transformation::Rotate { degrees: 90 }));
    assert_eq!(create_operation("rotate_180"), Some(Transformation::Rotate { degrees: 180 }));
    assert_eq!(create_operation("rotate_270"), Some(Transformation::Rotate { degrees: 270 }));
}

#[test]
fn rotate_other_angles_fail() {
    assert_eq!(create_operation("rotate_45"), None);
    assert_eq!(create_operation("rotate_0"), None);
    assert_eq!(create_operation("rotate_91"), None);
    assert_eq!(create_operation("rotate_360"), None);
    assert_eq!(create_operation("rotate_-90"), None);
    assert_eq!(create_operation("rotate_"), None);
}

#[test]
fn rotate_with_leading_zeros_parses_by_value() {
    assert_eq!(create_operation("rotate_090"), Some(Transformation::Rotate { degrees: 90 }));
}

#[test]
fn resize_both_sides() {
    assert_eq!(
        create_operation("resize_200x100"),
        Some(Transformation::Resize { height: Some(100), width: Some(200) })
    );
}

#[test]
fn resize_single_side() {
    assert_eq!(
        create_operation("resize_200x-"),
        Some(Transformation::Resize { height: None, width: Some(200) })
    );
    assert_eq!(
        create_operation("resize_-x100"),
        Some(Transformation::Resize { height: Some(100), width: None })
    );
}

#[test]
fn resize_without_any_side_fails() {
    assert_eq!(create_operation("resize_-x-"), None);
}

#[test]
fn resize_zero_fails() {
    assert_eq!(create_operation("resize_0x100"), None);
    assert_eq!(create_operation("resize_100x0"), None);
}

#[test]
fn resize_overflowing_numeral_fails() {
    assert_eq!(create_operation("resize_99999999999x-"), None);
    assert_eq!(create_operation("resize_2147483648x-"), None);
    assert_eq!(
        create_operation("resize_2147483647x-"),
        Some(Transformation::Resize { height: None, width: Some(2147483647) })
    );
}

#[test]
fn matchers_demand_the_whole_token() {
    assert_eq!(create_operation("xxresize_10x10"), None);
    assert_eq!(create_operation("resize_10x10xx"), None);
    assert_eq!(create_operation("rotate_90x"), None);
    assert_eq!(create_operation("crop_10x10_extra"), None);
}

#[test]
fn crop_parses_positive_extents() {
    assert_eq!(
        create_operation("crop_100x50"),
        Some(Transformation::Crop { height: 50, width: 100 })
    );
    assert_eq!(create_operation("crop_0x50"), None);
    assert_eq!(create_operation("crop_100x"), None);
}

#[test]
fn crop_coordinates_parses_four_numerals() {
    assert_eq!(
        create_operation("crop_coordinates_50x50_10x10"),
        Some(Transformation::CropCoordinates { x1: 50, y1: 50, x2: 10, y2: 10 })
    );
    assert_eq!(create_operation("crop_coordinates_1x2_3x4_5"), None);
    assert_eq!(create_operation("crop_coordinates_1x2_3x"), None);
    assert_eq!(create_operation("crop_coordinates_-1x2_3x4"), None);
}

#[test]
fn chain_preserves_token_order() {
    let ops = create_operations("resize_200x-+rotate_90+crop_30x40").unwrap();
    assert_eq!(
        ops,
        vec![
            Transformation::Resize { height: None, width: Some(200) },
            Transformation::Rotate { degrees: 90 },
            Transformation::Crop { height: 40, width: 30 },
        ]
    );
}

#[test]
fn chain_reports_first_invalid_token_verbatim() {
    let err = create_operations("resize_200x-+rotate_45+crop_0x0").unwrap_err();
    assert_eq!(err, "Invalid transformation \"rotate_45\"");
}

#[test]
fn empty_expression_is_an_invalid_token() {
    let err = create_operations("").unwrap_err();
    assert_eq!(err, "Invalid transformation \"\"");
}

#[test]
fn empty_piece_between_separators_fails() {
    let err = create_operations("rotate_90++rotate_180").unwrap_err();
    assert_eq!(err, "Invalid transformation \"\"");
}
