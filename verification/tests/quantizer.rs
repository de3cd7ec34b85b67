use bubble_level::quantize;

#[test]
fn dead_zone_narrow_bound() {
    // interval = 400 / 5 = 80: everything strictly inside (-80, 80) is centered
    assert_eq!(quantize(0, 400), 0);
    assert_eq!(quantize(50, 400), 0);
    assert_eq!(quantize(-50, 400), 0);
    assert_eq!(quantize(79, 400), 0);
    assert_eq!(quantize(-79, 400), 0);
}

#[test]
fn dead_zone_wide_bound() {
    // interval = 1200 / 5 = 240
    assert_eq!(quantize(0, 1200), 0);
    assert_eq!(quantize(100, 1200), 0);
    assert_eq!(quantize(-100, 1200), 0);
    assert_eq!(quantize(239, 1200), 0);
    assert_eq!(quantize(-239, 1200), 0);
}

#[test]
fn narrow_bound_scenarios() {
    assert_eq!(quantize(50, 400), 0);
    assert_eq!(quantize(100, 400), -1);
    assert_eq!(quantize(-100, 400), 1);
    assert_eq!(quantize(300, 400), -2);
    assert_eq!(quantize(-300, 400), 2);
}

#[test]
fn wide_bound_scenarios() {
    assert_eq!(quantize(100, 1200), 0);
    assert_eq!(quantize(500, 1200), -1);
    assert_eq!(quantize(1000, 1200), -2);
}

#[test]
fn boundaries_fall_into_next_class() {
    // exactly interval, and exactly 3 * interval, belong to the class above
    assert_eq!(quantize(80, 400), -1);
    assert_eq!(quantize(-80, 400), 1);
    assert_eq!(quantize(240, 400), -2);
    assert_eq!(quantize(-240, 400), 2);
    assert_eq!(quantize(240, 1200), -1);
    assert_eq!(quantize(720, 1200), -2);
}

#[test]
fn antisymmetric_in_each_class() {
    for bound in [400, 1200] {
        for x in [1, 30, 100, 250, 500, 900, 2000] {
            assert_eq!(quantize(x, bound), -quantize(-x, bound));
        }
    }
    assert_eq!(quantize(0, 400), 0);
    assert_eq!(quantize(0, 1200), 0);
}
