use dwm_status::dispatch::DispatchLoop;
use dwm_status::dispatch::LoopInput;
use dwm_status::error::ErrorKind;
use dwm_status::feature::Data;
use dwm_status::feature::Feature;
use dwm_status::feature::FetchOutcome;
use dwm_status::feature::Notifier;
use dwm_status::feature::Updater;
use dwm_status::features::cpu_load::CpuLoadData;
use dwm_status::features::network::NetworkData;
use dwm_status::features::network::RenderConfig;
use dwm_status::run;
use dwm_status::status_bar::StatusBar;

fn template_data(template: &str, value: Option<&str>) -> Data {
    Data::Network(NetworkData {
        ipv4: None,
        ipv6: None,
        essid: value.map(String::from),
        render: RenderConfig {
            no_value: String::from("NA"),
            template: String::from(template),
        },
    })
}

fn template_feature(id: &str, template: &str, value: Option<&str>) -> Feature {
    Feature::compose(
        String::from(id),
        String::from(id),
        Notifier::Event,
        Updater::new(template_data(template, value)),
    )
}

fn scenario_features() -> Vec<Feature> {
    vec![
        template_feature("battery0", "B:{ESSID}%", Some("50")),
        template_feature("net1", "N:{ESSID}", Some("up")),
    ]
}

fn bar() -> StatusBar {
    StatusBar::new(String::from(" | "))
}

#[test]
fn two_features_scenario() {
    let inputs = vec![
        LoopInput::Refresh(
            String::from("net1"),
            FetchOutcome::Fetched(template_data("N:{ESSID}", Some("down"))),
        ),
        LoopInput::Terminate,
    ];

    let (lines, outcome) = run(bar(), scenario_features(), inputs);

    assert!(outcome.is_ok());
    assert_eq!(lines, vec!["B:50% | N:up", "B:50% | N:down"]);
}

#[test]
fn refresh_failure_scenario() {
    let inputs = vec![
        LoopInput::Refresh(
            String::from("battery0"),
            FetchOutcome::Unreachable(String::from("source unreachable")),
        ),
        LoopInput::Refresh(
            String::from("net1"),
            FetchOutcome::Fetched(template_data("N:{ESSID}", Some("down"))),
        ),
    ];

    let (lines, outcome) = run(bar(), scenario_features(), inputs);

    let error = outcome.unwrap_err();
    assert_eq!(error.kind, ErrorKind::Refresh);
    assert_eq!(error.name, "battery0");
    assert_eq!(error.cause, Some(String::from("source unreachable")));
    assert_eq!(lines, vec!["B:50% | N:up"]);
}

#[test]
fn unknown_id_protocol_error() {
    let inputs = vec![
        LoopInput::Refresh(
            String::from("nope"),
            FetchOutcome::Fetched(template_data("N:{ESSID}", Some("down"))),
        ),
        LoopInput::Terminate,
    ];

    let (lines, outcome) = run(bar(), scenario_features(), inputs);

    let error = outcome.unwrap_err();
    assert_eq!(error.kind, ErrorKind::Protocol);
    assert_eq!(error.name, "invalid message");
    assert_eq!(error.description, "message id nope does not exist");
    assert_eq!(lines, vec!["B:50% | N:up"]);
}

#[test]
fn terminate_stops_consumption() {
    let inputs = vec![
        LoopInput::Terminate,
        LoopInput::Refresh(
            String::from("net1"),
            FetchOutcome::Fetched(template_data("N:{ESSID}", Some("down"))),
        ),
        LoopInput::Refresh(
            String::from("nope"),
            FetchOutcome::Unreachable(String::from("never looked at")),
        ),
    ];

    let (lines, outcome) = run(bar(), scenario_features(), inputs);

    assert!(outcome.is_ok());
    assert_eq!(lines, vec!["B:50% | N:up"]);
}

#[test]
fn refresh_idempotent_lines() {
    let refresh = || {
        LoopInput::Refresh(
            String::from("net1"),
            FetchOutcome::Fetched(template_data("N:{ESSID}", Some("up"))),
        )
    };
    let inputs = vec![refresh(), refresh(), LoopInput::Terminate];

    let (lines, outcome) = run(bar(), scenario_features(), inputs);

    assert!(outcome.is_ok());
    assert_eq!(lines, vec!["B:50% | N:up", "B:50% | N:up", "B:50% | N:up"]);
}

#[test]
fn order_preserved_after_refresh() {
    let features = vec![
        template_feature("net1", "N:{ESSID}", Some("up")),
        template_feature("battery0", "B:{ESSID}%", Some("50")),
    ];
    let inputs = vec![
        LoopInput::Refresh(
            String::from("battery0"),
            FetchOutcome::Fetched(template_data("B:{ESSID}%", Some("49"))),
        ),
        LoopInput::Terminate,
    ];

    let (lines, outcome) = run(bar(), features, inputs);

    assert!(outcome.is_ok());
    assert_eq!(lines, vec!["N:up | B:50%", "N:up | B:49%"]);
}

#[test]
fn empty_config_error() {
    let (lines, outcome) = run(bar(), Vec::new(), Vec::new());

    let error = outcome.unwrap_err();
    assert_eq!(error.kind, ErrorKind::Configuration);
    assert_eq!(error.name, "empty config");
    assert_eq!(error.description, "no features enabled");
    assert!(lines.is_empty());
}

#[test]
fn wrong_kind_fetch_error() {
    let inputs = vec![LoopInput::Refresh(
        String::from("net1"),
        FetchOutcome::Fetched(Data::CpuLoad(CpuLoadData {
            one: 0,
            five: 0,
            fifteen: 0,
            template: String::from("{CL1}"),
        })),
    )];

    let (lines, outcome) = run(bar(), scenario_features(), inputs);

    let error = outcome.unwrap_err();
    assert_eq!(error.kind, ErrorKind::Refresh);
    assert_eq!(error.name, "net1");
    assert_eq!(
        error.cause,
        Some(String::from("fetched data of a different feature kind"))
    );
    assert_eq!(lines, vec!["B:50% | N:up"]);
}

#[test]
fn process_steps_one_message_at_a_time() {
    let mut dispatch = DispatchLoop::new(bar(), scenario_features());

    let first = dispatch.process(LoopInput::Refresh(
        String::from("net1"),
        FetchOutcome::Fetched(template_data("N:{ESSID}", Some("down"))),
    ));
    assert_eq!(first.unwrap().unwrap(), "B:50% | N:down");

    let stop = dispatch.process(LoopInput::Terminate);
    assert!(stop.unwrap().is_none());

    let ignored = dispatch.process(LoopInput::Refresh(
        String::from("net1"),
        FetchOutcome::Fetched(template_data("N:{ESSID}", Some("up"))),
    ));
    assert!(ignored.unwrap().is_none());
}
