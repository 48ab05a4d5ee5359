use wetbulb::severity::{classify, Color, SeverityLevel};
use wetbulb::single::Single;

fn level(x: f32) -> Option<SeverityLevel> {
    classify(Single::from_bits(x.to_bits()))
}

// the cascade of comparisons, on floats
fn by_comparison(x: f32) -> Option<SeverityLevel> {
    if x <= 80.0 {
        Some(SeverityLevel::Calm)
    } else if x <= 85.0 {
        Some(SeverityLevel::Caution)
    } else if x <= 88.0 {
        Some(SeverityLevel::ExtremeCaution)
    } else if x <= 90.0 {
        Some(SeverityLevel::Danger)
    } else if x > 90.0 {
        Some(SeverityLevel::ExtremeDanger)
    } else {
        None
    }
}

#[test]
fn eighty_is_calm() {
    assert_eq!(level(80.0), Some(SeverityLevel::Calm));
}

#[test]
fn just_above_eighty_is_caution() {
    assert_eq!(level(80.0001), Some(SeverityLevel::Caution));
    assert_eq!(classify(Single::from_bits(0x42a0_0001)), Some(SeverityLevel::Caution));
}

#[test]
fn ninety_is_danger() {
    assert_eq!(level(90.0), Some(SeverityLevel::Danger));
}

#[test]
fn just_above_ninety_is_extreme_danger() {
    assert_eq!(level(90.0001), Some(SeverityLevel::ExtremeDanger));
    assert_eq!(classify(Single::from_bits(0x42b4_0001)), Some(SeverityLevel::ExtremeDanger));
}

#[test]
fn inner_bounds_belong_to_the_lower_level() {
    assert_eq!(level(85.0), Some(SeverityLevel::Caution));
    assert_eq!(level(85.0001), Some(SeverityLevel::ExtremeCaution));
    assert_eq!(level(88.0), Some(SeverityLevel::ExtremeCaution));
    assert_eq!(level(88.0001), Some(SeverityLevel::Danger));
    assert_eq!(classify(Single::from_bits(0x42a9_ffff)), Some(SeverityLevel::Caution));
    assert_eq!(classify(Single::from_bits(0x42af_ffff)), Some(SeverityLevel::ExtremeCaution));
    assert_eq!(classify(Single::from_bits(0x42b3_ffff)), Some(SeverityLevel::Danger));
}

#[test]
fn cold_and_negative_are_calm() {
    assert_eq!(level(0.0), Some(SeverityLevel::Calm));
    assert_eq!(level(-0.0), Some(SeverityLevel::Calm));
    assert_eq!(level(-40.0), Some(SeverityLevel::Calm));
    assert_eq!(level(64.4), Some(SeverityLevel::Calm));
    assert_eq!(level(f32::MIN), Some(SeverityLevel::Calm));
    assert_eq!(level(f32::NEG_INFINITY), Some(SeverityLevel::Calm));
    assert_eq!(level(f32::MIN_POSITIVE), Some(SeverityLevel::Calm));
}

#[test]
fn huge_is_extreme_danger() {
    assert_eq!(level(1000.0), Some(SeverityLevel::ExtremeDanger));
    assert_eq!(level(f32::MAX), Some(SeverityLevel::ExtremeDanger));
    assert_eq!(level(f32::INFINITY), Some(SeverityLevel::ExtremeDanger));
}

#[test]
fn nan_has_no_level() {
    assert_eq!(level(f32::NAN), None);
    assert_eq!(level(-f32::NAN), None);
    assert_eq!(classify(Single::from_bits(0x7f80_0001)), None);
    assert_eq!(classify(Single::from_bits(0xffff_ffff)), None);
}

#[test]
fn levels_agree_with_float_comparisons() {
    let mut bits: u32 = 0;
    loop {
        let x = f32::from_bits(bits);
        assert_eq!(classify(Single::from_bits(bits)), by_comparison(x), "bits {:#x}", bits);
        match bits.checked_add(40_009) {
            Some(next) => bits = next,
            None => break,
        }
    }
}

#[test]
fn levels_agree_around_the_bounds() {
    for bound in [80.0f32, 85.0, 88.0, 90.0] {
        let centre = bound.to_bits();
        for bits in (centre - 2000)..(centre + 2000) {
            let x = f32::from_bits(bits);
            assert_eq!(classify(Single::from_bits(bits)), by_comparison(x), "bits {:#x}", bits);
        }
    }
}

#[test]
fn each_level_has_its_colour() {
    assert_eq!(SeverityLevel::Calm.color(), Color::White);
    assert_eq!(SeverityLevel::Caution.color(), Color::Green);
    assert_eq!(SeverityLevel::ExtremeCaution.color(), Color::Yellow);
    assert_eq!(SeverityLevel::Danger.color(), Color::Red);
    assert_eq!(SeverityLevel::ExtremeDanger.color(), Color::Blue);
}
