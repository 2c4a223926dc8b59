use wasm_zici::{classify, get_direction, Direction};

#[test]
fn test_get_direction() {
    assert_eq!(get_direction(1, 0), "东");
    assert_eq!(get_direction(100, 0), "东");

    assert_eq!(get_direction(-1, 0), "西");
    assert_eq!(get_direction(-100, 0), "西");

    assert_eq!(get_direction(0, -1), "北");
    assert_eq!(get_direction(0, -100), "北");

    assert_eq!(get_direction(0, 1), "南");
    assert_eq!(get_direction(0, 100), "南");

    assert_eq!(get_direction(1, -1), "东北");
    assert_eq!(get_direction(100, -100), "东北");

    assert_eq!(get_direction(1, 1), "东南");
    assert_eq!(get_direction(100, 100), "东南");

    assert_eq!(get_direction(-1, -1), "西北");
    assert_eq!(get_direction(-100, -100), "西北");

    assert_eq!(get_direction(-1, 1), "西南");
    assert_eq!(get_direction(-100, 100), "西南");

    assert_eq!(get_direction(0, 0), "原点");
}

#[test]
fn classify_unit_offsets() {
    assert_eq!(classify(1, 0), Direction::East);
    assert_eq!(classify(-1, 0), Direction::West);
    assert_eq!(classify(0, -1), Direction::North);
    assert_eq!(classify(0, 1), Direction::South);
    assert_eq!(classify(1, -1), Direction::Northeast);
    assert_eq!(classify(1, 1), Direction::Southeast);
    assert_eq!(classify(-1, -1), Direction::Northwest);
    assert_eq!(classify(-1, 1), Direction::Southwest);
    assert_eq!(classify(0, 0), Direction::Origin);
}

#[test]
fn classify_names() {
    assert_eq!(classify(1, 0).name(), "East");
    assert_eq!(classify(-1, 0).name(), "West");
    assert_eq!(classify(0, -1).name(), "North");
    assert_eq!(classify(0, 1).name(), "South");
    assert_eq!(classify(1, -1).name(), "Northeast");
    assert_eq!(classify(1, 1).name(), "Southeast");
    assert_eq!(classify(-1, -1).name(), "Northwest");
    assert_eq!(classify(-1, 1).name(), "Southwest");
    assert_eq!(classify(0, 0).name(), "Origin");
}

#[test]
fn classify_scaling_keeps_label() {
    assert_eq!(classify(100, -100), classify(1, -1));
    assert_eq!(classify(7, 3), classify(14, 6));
    assert_eq!(classify(-5, 0), classify(-500, 0));
}

#[test]
fn classify_extreme_values() {
    assert_eq!(classify(i32::MAX, i32::MIN), Direction::Northeast);
    assert_eq!(classify(i32::MIN, i32::MAX), Direction::Southwest);
    assert_eq!(classify(i32::MIN, 0), Direction::West);
    assert_eq!(classify(0, i32::MAX), Direction::South);
    assert_eq!(get_direction(i32::MIN, i32::MIN), "西北");
}

#[test]
fn labels_match_classification() {
    assert_eq!(classify(3, 4).label(), "东南");
    assert_eq!(Direction::Origin.label(), "原点");
    assert_eq!(get_direction(-2, 9), classify(-2, 9).label());
}
