use dwm_status::feature::Data;
use dwm_status::feature::Notifier;
use dwm_status::features::cpu_load::ConfigEntry;
use dwm_status::features::cpu_load::CpuLoadData;
use dwm_status::features::cpu_load::create;
use dwm_status::features::network::NetworkData;
use dwm_status::features::network::RenderConfig;
use dwm_status::text::decimal_string;
use dwm_status::text::padded2_string;
use dwm_status::text::str_contains;
use dwm_status::text::str_replace;

#[test]
fn test_display() {
    let data = CpuLoadData {
        one: 50,
        five: 152,
        fifteen: 212,
        template: String::from("{CL5} {CL1} {CL15} {CL2} {CL1}"),
    };

    assert_eq!(data.render(), "1.52 0.50 2.12 {CL2} 0.50");
}

#[test]
fn cpu_load_create() {
    let settings = ConfigEntry {
        template: String::from("{CL1}"),
        update_interval: 60,
    };

    let feature = create(3, &settings).unwrap();

    assert_eq!(feature.id, "cpu_load3");
    assert_eq!(feature.name, "cpu_load");
    assert_eq!(feature.notifier, Notifier::Interval(60));
    assert_eq!(feature.render(), "0.00");
    match feature.updater.data {
        Data::CpuLoad(ref data) => {
            assert_eq!(data.one, 0);
            assert_eq!(data.five, 0);
            assert_eq!(data.fifteen, 0);
        },
        ref other => panic!("expected cpu load data, found {:?}", other),
    }
}

#[test]
fn network_render_values() {
    let data = NetworkData {
        ipv4: Some(String::from("10.0.0.1")),
        ipv6: None,
        essid: Some(String::from("mynet")),
        render: RenderConfig {
            no_value: String::from("NA"),
            template: String::from("{IPv4} \u{b7} {IPv6} \u{b7} {ESSID}"),
        },
    };

    assert_eq!(data.render(), "10.0.0.1 \u{b7} NA \u{b7} mynet");
}

#[test]
fn network_render_missing_values() {
    let data = NetworkData {
        ipv4: None,
        ipv6: None,
        essid: None,
        render: RenderConfig {
            no_value: String::from("NA"),
            template: String::from("net {IPv4} {UNKNOWN}"),
        },
    };

    assert_eq!(data.render(), "net NA {UNKNOWN}");
}

#[test]
fn decimal_and_padded_rendering() {
    assert_eq!(decimal_string(0), "0");
    assert_eq!(decimal_string(7), "7");
    assert_eq!(decimal_string(56), "56");
    assert_eq!(decimal_string(1510), "1510");
    assert_eq!(padded2_string(0), "00");
    assert_eq!(padded2_string(9), "09");
    assert_eq!(padded2_string(10), "10");
    assert_eq!(padded2_string(315), "315");
}

#[test]
fn contains_and_replace() {
    assert!(str_contains("{IPv4} and more", "{IPv4}"));
    assert!(!str_contains("IPv4} and more", "{IPv4}"));
    assert!(str_contains("anything", ""));
    assert_eq!(str_replace("aaa", "a", "bb"), "bbbbbb");
    assert_eq!(str_replace("{CL1} {CL15}", "{CL1}", "9.99"), "9.99 {CL15}");
    assert_eq!(str_replace("none here", "{CL1}", "9.99"), "none here");
}
