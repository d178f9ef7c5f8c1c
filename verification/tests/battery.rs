use dwm_status::features::battery::BatteryData;
use dwm_status::features::battery::BatteryInfo;
use dwm_status::features::battery::BatterySettings;

fn settings() -> BatterySettings {
    BatterySettings {
        charging: String::from("charging"),
        debug: false,
        discharging: String::from("discharging"),
        enable_notifier: false,
        no_battery: String::from("no_battery"),
        notifier_critical: 1,
        notifier_levels: vec![1, 2],
        separator: String::from("-separator-"),
    }
}

fn info1() -> BatteryInfo {
    BatteryInfo {
        capacity: 560,
        estimation: Some(600),
    }
}

fn info2() -> BatteryInfo {
    BatteryInfo {
        capacity: 750,
        estimation: Some(720),
    }
}

fn info3() -> BatteryInfo {
    BatteryInfo {
        capacity: 210,
        estimation: Some(1510),
    }
}

#[test]
fn test_display_data() {
    assert_eq!(BatteryData::new(true, settings()).render(), "no_battery");
    assert_eq!(BatteryData::new(false, settings()).render(), "no_battery");

    let mut one_charging = BatteryData::new(true, settings());
    one_charging.set(String::from("BAT0"), info1());
    assert_eq!(one_charging.render(), "charging 56% (00:10)");

    let mut one_discharging = BatteryData::new(false, settings());
    one_discharging.set(String::from("BAT0"), info1());
    assert_eq!(one_discharging.render(), "discharging 56% (00:10)");

    let mut two_charging = BatteryData::new(true, settings());
    two_charging.set(String::from("BAT0"), info1());
    two_charging.set(String::from("BAT1"), info2());
    assert_eq!(
        two_charging.render(),
        "charging 56% (00:10)-separator-75% (00:12)"
    );

    let mut two_discharging = BatteryData::new(false, settings());
    two_discharging.set(String::from("BAT0"), info1());
    two_discharging.set(String::from("BAT1"), info2());
    assert_eq!(
        two_discharging.render(),
        "discharging 56% (00:10)-separator-75% (00:12)"
    );

    let mut three = BatteryData::new(false, settings());
    three.set(String::from("BAT1"), info2());
    three.set(String::from("BAT2"), info3());
    three.set(String::from("BAT0"), info1());
    assert_eq!(
        three.render(),
        "discharging 56% (00:10)-separator-75% (00:12)-separator-21% (00:25)"
    );
}

#[test]
fn test_display_info() {
    assert_eq!(
        BatteryInfo {
            capacity: 0,
            estimation: Some(0),
        }
        .render(),
        "0% (00:00)"
    );
    assert_eq!(
        BatteryInfo {
            capacity: 356,
            estimation: Some(11759),
        }
        .render(),
        "36% (03:15)"
    );
    assert_eq!(
        BatteryInfo {
            capacity: 356,
            estimation: None,
        }
        .render(),
        "36%"
    );
}

#[test]
fn set_replaces_equal_key() {
    let mut data = BatteryData::new(true, settings());
    data.set(String::from("BAT0"), info1());
    data.set(String::from("BAT0"), info3());
    assert_eq!(data.render(), "charging 21% (00:25)");
}
