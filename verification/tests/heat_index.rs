use wetbulb::heat_index::{select_formula, HeatIndexFormula};
use wetbulb::single::Single;

fn single(x: f32) -> Single {
    Single::from_bits(x.to_bits())
}

// the mean of the temperature and the simple estimate
fn mean(temp_f: f32, humid: f32) -> f32 {
    let simple = 61.0 + ((temp_f - 68.0) * 1.2) + (humid * 0.094);
    0.5 * (temp_f + simple)
}

fn formula(temp_f: f32, humid: f32) -> HeatIndexFormula {
    select_formula(single(mean(temp_f, humid)), single(temp_f), single(humid))
}

fn by_comparison(mean: f32, temp_f: f32, humid: f32) -> HeatIndexFormula {
    if mean > 79.0 {
        HeatIndexFormula::Rothfusz
    } else if humid > 85.0 && temp_f >= 80.0 && temp_f <= 87.0 {
        HeatIndexFormula::HumidityAdjusted
    } else {
        HeatIndexFormula::Baseline
    }
}

#[test]
fn mild_air_keeps_the_baseline() {
    // 61 + 0 + 3.76 = 64.76, and the mean with 68 is 66.38
    assert!((mean(68.0, 40.0) - 66.38).abs() < 1e-4);
    assert_eq!(formula(68.0, 40.0), HeatIndexFormula::Baseline);
}

#[test]
fn hot_air_takes_the_regression() {
    // 61 + 50.4 + 3.76 = 115.16, and the mean with 110 is 112.58
    assert!((mean(110.0, 40.0) - 112.58).abs() < 1e-4);
    assert_eq!(formula(110.0, 40.0), HeatIndexFormula::Rothfusz);
}

#[test]
fn regression_comes_before_the_humid_correction() {
    // 85 degrees at 90 percent is inside the correction's window, but its
    // mean is 87.43: the regression is asked first and takes it
    assert!((mean(85.0, 90.0) - 87.43).abs() < 1e-4);
    assert_eq!(formula(85.0, 90.0), HeatIndexFormula::Rothfusz);
}

#[test]
fn humid_correction_below_the_regression_floor() {
    let f = select_formula(single(78.5), single(85.0), single(90.0));
    assert_eq!(f, HeatIndexFormula::HumidityAdjusted);
    let f = select_formula(single(79.0), single(80.0), single(85.0001));
    assert_eq!(f, HeatIndexFormula::HumidityAdjusted);
    let f = select_formula(single(79.0), single(87.0), single(100.0));
    assert_eq!(f, HeatIndexFormula::HumidityAdjusted);
}

#[test]
fn humid_correction_window_is_exact() {
    // humidity must be above 85, not at it
    let f = select_formula(single(78.0), single(85.0), single(85.0));
    assert_eq!(f, HeatIndexFormula::Baseline);
    // the temperature window includes both of its ends and nothing beyond
    let f = select_formula(single(78.0), single(79.9999), single(90.0));
    assert_eq!(f, HeatIndexFormula::Baseline);
    let f = select_formula(single(78.0), single(87.0001), single(90.0));
    assert_eq!(f, HeatIndexFormula::Baseline);
    let f = select_formula(single(78.0), single(80.0), single(90.0));
    assert_eq!(f, HeatIndexFormula::HumidityAdjusted);
    let f = select_formula(single(78.0), single(87.0), single(90.0));
    assert_eq!(f, HeatIndexFormula::HumidityAdjusted);
}

#[test]
fn regression_floor_is_exact() {
    let f = select_formula(single(79.0), single(70.0), single(40.0));
    assert_eq!(f, HeatIndexFormula::Baseline);
    let f = select_formula(Single::from_bits(0x429e_0001), single(70.0), single(40.0));
    assert_eq!(f, HeatIndexFormula::Rothfusz);
    let f = select_formula(single(79.0001), single(85.0), single(90.0));
    assert_eq!(f, HeatIndexFormula::Rothfusz);
}

#[test]
fn nan_falls_through_to_the_baseline() {
    let nan = single(f32::NAN);
    assert_eq!(select_formula(nan, single(85.0), single(40.0)), HeatIndexFormula::Baseline);
    assert_eq!(select_formula(nan, single(85.0), single(90.0)), HeatIndexFormula::HumidityAdjusted);
    assert_eq!(select_formula(single(70.0), nan, single(90.0)), HeatIndexFormula::Baseline);
    assert_eq!(select_formula(single(70.0), single(85.0), nan), HeatIndexFormula::Baseline);
    assert_eq!(select_formula(single(f32::INFINITY), nan, nan), HeatIndexFormula::Rothfusz);
}

#[test]
fn formulas_agree_with_float_comparisons() {
    let marks = [
        f32::NEG_INFINITY,
        -1.0,
        0.0,
        78.9999,
        79.0,
        79.0001,
        79.9999,
        80.0,
        80.0001,
        84.9999,
        85.0,
        85.0001,
        86.9999,
        87.0,
        87.0001,
        200.0,
        f32::INFINITY,
        f32::NAN,
    ];
    for &m in &marks {
        for &t in &marks {
            for &h in &marks {
                assert_eq!(
                    select_formula(single(m), single(t), single(h)),
                    by_comparison(m, t, h),
                    "mean {:?} temp {:?} humid {:?}",
                    m,
                    t,
                    h
                );
            }
        }
    }
}

#[test]
fn computed_means_never_reach_the_humid_correction() {
    // inside the correction's window the simple estimate is already so high
    // that the regression takes over
    let mut t = 80.0f32;
    while t <= 87.0 {
        let mut h = 85.5f32;
        while h <= 100.0 {
            assert_eq!(formula(t, h), HeatIndexFormula::Rothfusz, "{:?} {:?}", t, h);
            h += 0.5;
        }
        t += 0.25;
    }
}
