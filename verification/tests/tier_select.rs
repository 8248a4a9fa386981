use transformer::tier::{check_image_for_using_regular, check_operation_for_using_regular,
    TierOutcome};
use transformer::transformation::Transformation;

#[test]
fn resize_width_only_against_candidates() {
    let ops = vec![Transformation::Resize { height: None, width: Some(100) }];
    assert!(check_image_for_using_regular(150, 10, &ops));
    assert!(!check_image_for_using_regular(80, 10, &ops));
}

#[test]
fn resize_both_sides_needs_both_covered() {
    let ops = vec![Transformation::Resize { height: Some(100), width: Some(100) }];
    assert!(check_image_for_using_regular(100, 100, &ops));
    assert!(!check_image_for_using_regular(100, 99, &ops));
    assert!(!check_image_for_using_regular(99, 100, &ops));
}

#[test]
fn rotation_alone_is_never_sufficient() {
    let ops = vec![Transformation::Rotate { degrees: 90 }];
    assert!(!check_image_for_using_regular(10000, 10000, &ops));
}

#[test]
fn crop_coordinates_first_is_decisive_whatever_the_candidate() {
    let ops = vec![
        Transformation::CropCoordinates { x1: 0, y1: 0, x2: 1, y2: 1 },
        Transformation::Resize { height: None, width: Some(1) },
    ];
    assert!(!check_image_for_using_regular(10000, 10000, &ops));
}

#[test]
fn first_decisive_operation_wins() {
    // The applicable resize decides before the insufficient crop is reached.
    let ops = vec![
        Transformation::Rotate { degrees: 180 },
        Transformation::Resize { height: None, width: Some(100) },
        Transformation::Crop { height: 99999, width: 99999 },
    ];
    assert!(check_image_for_using_regular(150, 10, &ops));
}

#[test]
fn crop_outcome_against_candidate() {
    let op = Transformation::Crop { height: 50, width: 100 };
    assert_eq!(check_operation_for_using_regular(&op, 100, 50), TierOutcome::Applicable);
    assert_eq!(check_operation_for_using_regular(&op, 99, 50), TierOutcome::Insufficient);
    assert_eq!(check_operation_for_using_regular(&op, 100, 49), TierOutcome::Insufficient);
}

#[test]
fn rotation_outcome_is_neutral() {
    let op = Transformation::Rotate { degrees: 270 };
    assert_eq!(check_operation_for_using_regular(&op, 1, 1), TierOutcome::Neutral);
}

#[test]
fn empty_chain_is_never_sufficient() {
    let ops: Vec<Transformation> = Vec::new();
    assert!(!check_image_for_using_regular(10000, 10000, &ops));
}
