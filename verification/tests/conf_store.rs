use dwm_status::conf::Conf;
use dwm_status::conf::ConfValue;
use dwm_status::error::ErrorKind;
use dwm_status::feature::Feature;
use dwm_status::feature::Notifier;
use dwm_status::feature::Updater;
use dwm_status::features::battery::BatteryInfo;
use dwm_status::features::cpu_load::CpuLoadData;
use dwm_status::feature::Data;
use dwm_status::status_bar::StatusBar;

#[test]
fn conf_set_shadows_older_binding() {
    let mut conf = Conf::new();
    conf.set("key", ConfValue::Text(String::from("first")));
    conf.set("key", ConfValue::Text(String::from("second")));

    assert_eq!(conf.get_str("key").unwrap(), "second");
}

#[test]
fn get_str_on_flag_is_error() {
    let mut conf = Conf::new();
    conf.set("key", ConfValue::Flag(true));

    let error = conf.get_str("key").unwrap_err();
    assert_eq!(error.kind, ErrorKind::Configuration);
    assert_eq!(error.name, "config");
    assert_eq!(error.description, "key");
}

#[test]
fn get_str_on_missing_key_is_error() {
    let conf = Conf::new();

    let error = conf.get_str("key").unwrap_err();
    assert_eq!(error.kind, ErrorKind::Configuration);
    assert_eq!(error.description, "key");
}

fn load_feature(id: &str, one: u64) -> Feature {
    Feature::compose(
        String::from(id),
        String::from("cpu_load"),
        Notifier::Interval(20),
        Updater::new(Data::CpuLoad(CpuLoadData {
            one,
            five: 0,
            fifteen: 0,
            template: String::from("{CL1}"),
        })),
    )
}

#[test]
fn status_bar_single_feature_no_separator() {
    let bar = StatusBar::new(String::from(" / "));
    let features = vec![load_feature("cpu_load0", 123)];

    assert_eq!(bar.render(&features), "1.23");
}

#[test]
fn status_bar_joins_in_feature_order() {
    let bar = StatusBar::new(String::from(" / "));
    let features = vec![
        load_feature("cpu_load0", 123),
        load_feature("cpu_load1", 45),
        load_feature("cpu_load2", 6789),
    ];

    assert_eq!(bar.render(&features), "1.23 / 0.45 / 67.89");
}

#[test]
fn time_estimate_beyond_a_day() {
    let info = BatteryInfo {
        capacity: 1000,
        estimation: Some(90000),
    };

    assert_eq!(info.render(), "100% (25:00)");
}
