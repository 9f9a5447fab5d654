use bellande_limit::{check_consistency, validate, Field, LimitError};

fn two_d(obstacles: Option<&str>) -> Result<bellande_limit::LimitRequest, LimitError> {
    validate("[0,0]", "[10,10]", "[100,100]", "[1,1]", "[10,10]", obstacles, "50.0", 20)
}

#[test]
fn consistent_two_dimensional_request_passes() {
    let req = two_d(None).unwrap();
    assert_eq!(req.dimensions(), 2);
    assert_eq!(req.sample_points(), 20);
}

#[test]
fn consistent_request_with_obstacles_passes() {
    let obstacles = r#"[{"position":[1,1],"dimensions":[2,2]},{"dimensions":[3,3],"position":[5,5]}]"#;
    let req = validate("[0,0,0]", "[1,2,3]", "[9,9,9]", "[1,1,1]", "[4,4,4]", None, "1", 1);
    assert!(req.is_ok());
    assert!(two_d(Some(obstacles)).is_ok());
}

#[test]
fn node0_shorter_than_environment_fails() {
    let r = validate("[0,0]", "[10,10,10]", "[100,100,100]", "[1,1,1]", "[10,10,10]", None, "50.0", 20);
    assert_eq!(
        r.err(),
        Some(LimitError::DimensionMismatch { field: Field::Node0, obstacle: None, actual: 2, expected: 3 })
    );
}

#[test]
fn goal_longer_than_environment_fails() {
    let r = validate("[0,0]", "[10,10]", "[100,100]", "[1,1]", "[10,10,10]", None, "50.0", 20);
    assert_eq!(
        r.err(),
        Some(LimitError::DimensionMismatch { field: Field::Goal, obstacle: None, actual: 3, expected: 2 })
    );
}

#[test]
fn size_mismatch_fails() {
    let r = validate("[0,0]", "[10,10]", "[100,100]", "[1]", "[10,10]", None, "50.0", 20);
    assert_eq!(
        r.err(),
        Some(LimitError::DimensionMismatch { field: Field::Size, obstacle: None, actual: 1, expected: 2 })
    );
}

#[test]
fn obstacle_dimensions_mismatch_fails() {
    let r = validate(
        "[0,0,0]",
        "[1,1,1]",
        "[100,100,100]",
        "[1,1,1]",
        "[5,5,5]",
        Some(r#"[{"position":[1,1,1],"dimensions":[2,2]}]"#),
        "50.0",
        20,
    );
    assert_eq!(
        r.err(),
        Some(LimitError::DimensionMismatch {
            field: Field::ObstacleDimensions,
            obstacle: Some(0),
            actual: 2,
            expected: 3
        })
    );
}

#[test]
fn second_obstacle_position_mismatch_names_its_index() {
    let r = two_d(Some(r#"[{"position":[1,1],"dimensions":[2,2]},{"position":[1],"dimensions":[2]}]"#));
    assert_eq!(
        r.err(),
        Some(LimitError::DimensionMismatch {
            field: Field::ObstaclePosition,
            obstacle: Some(1),
            actual: 1,
            expected: 2
        })
    );
}

#[test]
fn malformed_texts_name_their_field() {
    let bad = "[0,";
    let r = validate(bad, "[1,1]", "[2,2]", "[1,1]", "[1,1]", None, "1", 1);
    assert_eq!(r.err(), Some(LimitError::Parse { field: Field::Node0 }));
    let r = validate("[0,0]", "[1,\"a\"]", "[2,2]", "[1,1]", "[1,1]", None, "1", 1);
    assert_eq!(r.err(), Some(LimitError::Parse { field: Field::Node1 }));
    let r = validate("[0,0]", "[1,1]", "{}", "[1,1]", "[1,1]", None, "1", 1);
    assert_eq!(r.err(), Some(LimitError::Parse { field: Field::Environment }));
    let r = validate("[0,0]", "[1,1]", "[2,2]", "7", "[1,1]", None, "1", 1);
    assert_eq!(r.err(), Some(LimitError::Parse { field: Field::Size }));
    let r = validate("[0,0]", "[1,1]", "[2,2]", "[1,1]", "", None, "1", 1);
    assert_eq!(r.err(), Some(LimitError::Parse { field: Field::Goal }));
    let r = validate("[0,0]", "[1,1]", "[2,2]", "[1,1]", "[1,1]", Some("[{\"position\":[1,1]}]"), "1", 1);
    assert_eq!(r.err(), Some(LimitError::Parse { field: Field::Obstacles }));
    let r = validate("[0,0]", "[1,1]", "[2,2]", "[1,1]", "[1,1]", None, "fifty", 1);
    assert_eq!(r.err(), Some(LimitError::Parse { field: Field::SearchRadius }));
}

#[test]
fn parse_errors_come_before_dimension_errors() {
    let r = validate("[0]", "[1,1]", "[2,2]", "[1,1]", "[1,1]", Some("nope"), "1", 1);
    assert_eq!(r.err(), Some(LimitError::Parse { field: Field::Obstacles }));
}

#[test]
fn non_positive_scalars_are_rejected() {
    for radius in ["0", "0.0", "-1.5", "-0", "0e5"] {
        let r = validate("[0,0]", "[1,1]", "[2,2]", "[1,1]", "[1,1]", None, radius, 1);
        assert_eq!(
            r.err(),
            Some(LimitError::InvalidParameter { field: Field::SearchRadius, value: radius.to_string() })
        );
    }
    let r = validate("[0,0]", "[1,1]", "[2,2]", "[1,1]", "[1,1]", None, "0.5", 0);
    assert_eq!(
        r.err(),
        Some(LimitError::InvalidParameter { field: Field::SamplePoints, value: "0".to_string() })
    );
    let r = validate("[0,0]", "[1,1]", "[2,2]", "[1,1]", "[1,1]", None, "0.5", -3);
    assert_eq!(
        r.err(),
        Some(LimitError::InvalidParameter { field: Field::SamplePoints, value: "-3".to_string() })
    );
}

#[test]
fn empty_environment_takes_empty_vectors() {
    let r = validate("[]", "[]", "[]", "[]", "[]", Some("[]"), "2e-3", 5);
    assert_eq!(r.unwrap().dimensions(), 0);
}

#[test]
fn field_names() {
    assert_eq!(Field::Node0.name(), "node0");
    assert_eq!(Field::ObstacleDimensions.name(), "dimensions");
    assert_eq!(Field::SamplePoints.name(), "sample_points");
}

#[test]
fn consistency_on_lengths() {
    assert_eq!(check_consistency(3, 3, 3, 3, 3, None, "50.0", 20), Ok(()));
    assert_eq!(
        check_consistency(2, 3, 3, 3, 3, None, "50.0", 20),
        Err(LimitError::DimensionMismatch { field: Field::Node0, obstacle: None, actual: 2, expected: 3 })
    );
    assert_eq!(
        check_consistency(3, 4, 3, 3, 3, None, "50.0", 20),
        Err(LimitError::DimensionMismatch { field: Field::Node1, obstacle: None, actual: 4, expected: 3 })
    );
    let shapes = vec![(3, 3), (3, 2)];
    assert_eq!(
        check_consistency(3, 3, 3, 3, 3, Some(&shapes), "50.0", 20),
        Err(LimitError::DimensionMismatch {
            field: Field::ObstacleDimensions,
            obstacle: Some(1),
            actual: 2,
            expected: 3
        })
    );
    let fitting = vec![(3, 3), (3, 3)];
    assert_eq!(check_consistency(3, 3, 3, 3, 3, Some(&fitting), "50.0", 20), Ok(()));
    assert_eq!(
        check_consistency(3, 3, 3, 3, 3, Some(&fitting), "-50.0", 20),
        Err(LimitError::InvalidParameter { field: Field::SearchRadius, value: "-50.0".to_string() })
    );
}

#[test]
fn obstacle_members_beyond_position_and_dimensions_are_ignored() {
    let obstacles = r#"[{"label":"box","position":[1,1],"dimensions":[2,2],"weight":3.5}]"#;
    assert!(two_d(Some(obstacles)).is_ok());
    let bad = r#"[{"label":"box","position":[1,1],"dimensions":[2]}]"#;
    assert_eq!(
        two_d(Some(bad)).err(),
        Some(LimitError::DimensionMismatch {
            field: Field::ObstacleDimensions,
            obstacle: Some(0),
            actual: 1,
            expected: 2
        })
    );
    let not_numbers = r#"[{"position":["a","b"],"dimensions":[2,2]}]"#;
    assert_eq!(two_d(Some(not_numbers)).err(), Some(LimitError::Parse { field: Field::Obstacles }));
}
