use dwm_status::conf::Conf;
use dwm_status::conf::ConfValue;
use dwm_status::error::ErrorKind;
use dwm_status::features::network::ConfigEntry;

fn flag_of(conf: &Conf, key: &str) -> bool {
    match conf.get(key) {
        Some(ConfValue::Flag(b)) => *b,
        other => panic!("expected a switch under {}, found {:?}", key, other.is_some()),
    }
}

fn test_config(template: &'static str, show_essid: bool, show_ipv4: bool, show_ipv6: bool) {
    let mut conf = Conf::new();
    conf.set(
        "network.template",
        ConfValue::Text(String::from(template)),
    );

    assert!(ConfigEntry::set_values(&mut conf).is_ok());

    assert_eq!(flag_of(&conf, "network.update.show_essid"), show_essid);
    assert_eq!(flag_of(&conf, "network.update.show_ipv4"), show_ipv4);
    assert_eq!(flag_of(&conf, "network.update.show_ipv6"), show_ipv6);
}

#[test]
fn config_when_ok() {
    let mut conf = Conf::new();

    assert!(ConfigEntry::set_default(&mut conf).is_ok());

    assert_eq!(conf.get_str("network.no_value").unwrap(), "NA");
    assert_eq!(
        conf.get_str("network.template").unwrap(),
        "{IPv4} \u{b7} {IPv6} \u{b7} {ESSID}"
    );
}

#[test]
fn default_keeps_existing_values() {
    let mut conf = Conf::new();
    conf.set("network.template", ConfValue::Text(String::from("custom")));

    assert!(ConfigEntry::set_default(&mut conf).is_ok());

    assert_eq!(conf.get_str("network.template").unwrap(), "custom");
    assert_eq!(conf.get_str("network.no_value").unwrap(), "NA");
}

#[test]
fn and_all_enabled() {
    test_config("{IPv4} \u{b7} {IPv6} \u{b7} {ESSID}", true, true, true);
}

#[test]
fn and_essid_enabled() {
    test_config("IPv4} \u{b7} IPv6} \u{b7} {ESSID}", true, false, false);
}

#[test]
fn and_ipv4_enabled() {
    test_config("{IPv4} \u{b7} IPv6} \u{b7} ESSID}", false, true, false);
}

#[test]
fn and_ipv6_enabled() {
    test_config("IPv4} \u{b7} {IPv6} \u{b7} ESSID}", false, false, true);
}

#[test]
fn and_nothing_enabled() {
    test_config("schubidu", false, false, false);
}

#[test]
fn in_get_str() {
    let mut conf = Conf::new();

    let error = ConfigEntry::set_values(&mut conf).unwrap_err();

    assert_eq!(error.kind, ErrorKind::Configuration);
    assert_eq!(error.description, "network.template");
}
