use rust_libretro::rate_table::{same_text, CoreLogicRate, RateTable};

#[test]
fn logic_rates_in_hertz() {
    assert_eq!(CoreLogicRate::LogicRate60.hertz(), 60);
    assert_eq!(CoreLogicRate::LogicRate120.hertz(), 120);
    assert_eq!(CoreLogicRate::LogicRate720.hertz(), 720);
}

#[test]
fn low_profile_multipliers() {
    let table = RateTable::new(CoreLogicRate::LogicRate60);
    assert_eq!(table.lookup("60"), Some(1));
    assert_eq!(table.lookup("30"), Some(2));
    assert_eq!(table.lookup("120"), None);
    assert_eq!(table.lookup("24"), None);
}

#[test]
fn medium_profile_multipliers() {
    let table = RateTable::new(CoreLogicRate::LogicRate120);
    assert_eq!(table.lookup("30"), Some(4));
    assert_eq!(table.lookup("60"), Some(2));
    assert_eq!(table.lookup("120"), Some(1));
    assert_eq!(table.lookup("240"), None);
}

#[test]
fn high_profile_multipliers() {
    let table = RateTable::new(CoreLogicRate::LogicRate720);
    assert_eq!(table.lookup("24"), Some(30));
    assert_eq!(table.lookup("30"), Some(24));
    assert_eq!(table.lookup("48"), Some(15));
    assert_eq!(table.lookup("51.4"), Some(14));
    assert_eq!(table.lookup("60"), Some(12));
    assert_eq!(table.lookup("72"), Some(10));
    assert_eq!(table.lookup("80"), Some(9));
    assert_eq!(table.lookup("90"), Some(8));
    assert_eq!(table.lookup("102.9"), Some(7));
    assert_eq!(table.lookup("120"), Some(6));
    assert_eq!(table.lookup("144"), Some(5));
    assert_eq!(table.lookup("180"), Some(4));
    assert_eq!(table.lookup("240"), Some(3));
}

#[test]
fn unsupported_rates_have_no_multiplier() {
    for rate in [
        CoreLogicRate::LogicRate60,
        CoreLogicRate::LogicRate120,
        CoreLogicRate::LogicRate720,
    ] {
        let table = RateTable::new(rate);
        for text in ["", "1000", "60.0", "060", " 60", "60 ", "sixty", "720", "51,4", "6"] {
            assert_eq!(table.lookup(text), None, "{:?} {:?}", rate, text);
        }
    }
}

#[test]
fn whole_rates_divide_the_logic_rate_exactly() {
    for rate in [
        CoreLogicRate::LogicRate60,
        CoreLogicRate::LogicRate120,
        CoreLogicRate::LogicRate720,
    ] {
        let table = RateTable::new(rate);
        for text in table.options() {
            let multiplier = table.lookup(text).unwrap();
            assert!(multiplier > 0);
            if let Ok(display) = text.parse::<u32>() {
                assert_eq!(multiplier * display, rate.hertz());
                assert_eq!(multiplier, rate.hertz() / display);
            }
        }
    }
}

#[test]
fn fractional_rates_take_the_nearest_multiplier() {
    let table = RateTable::new(CoreLogicRate::LogicRate720);
    for (text, tenths) in [("51.4", 514i64), ("102.9", 1029i64)] {
        let multiplier = table.lookup(text).unwrap() as i64;
        let error = (multiplier * tenths - 7200).abs();
        assert!(2 * error <= tenths);
    }
    assert_eq!(14 * 514, 7196);
    assert_eq!(7 * 1029, 7203);
}

#[test]
fn every_offered_rate_is_supported() {
    let low = RateTable::new(CoreLogicRate::LogicRate60);
    assert_eq!(low.options(), vec!["60", "30"]);
    let medium = RateTable::new(CoreLogicRate::LogicRate120);
    assert_eq!(medium.options(), vec!["60", "120", "30"]);
    let high = RateTable::new(CoreLogicRate::LogicRate720);
    assert_eq!(
        high.options(),
        vec!["60", "72", "80", "90", "102.9", "120", "144", "180", "240", "24", "30", "48", "51.4"]
    );
    for table in [low, medium, high] {
        for text in table.options() {
            assert!(table.lookup(text).is_some());
        }
    }
}

#[test]
fn same_text_compares_characters() {
    assert!(same_text("", ""));
    assert!(same_text("102.9", "102.9"));
    assert!(!same_text("102.9", "102.8"));
    assert!(!same_text("60", "600"));
    assert!(!same_text("600", "60"));
    assert!(same_text("h\u{e9}", "h\u{e9}"));
    assert!(!same_text("h\u{e9}", "he"));
}
