use thum::config::Config;
use thum::publication::Publication;
use thum::run::{main_2, start_run, Action, Event, Job, Progress, Run, Stage};

fn job() -> Job<'static> {
    Job {
        config: Config {
            mqtt_host: "broker.lan",
            mqtt_user: "thum",
            mqtt_pass: "pw",
            wifi_ssid: "home",
            wifi_psk: "secret",
        },
        uuid: "6f1c",
        previous: "Ok(\"default\")",
    }
}

/// What comes of a step that succeeds.
fn success(action: &Action) -> Event {
    match action {
        Action::Measure => Event::Climate("21.57".to_string(), "43.2".to_string()),
        Action::SampleVoltage => Event::Millivolts(1834),
        Action::ReadRssi => Event::Rssi(-67),
        Action::CheckLink => Event::Link(false),
        _ => Event::Done,
    }
}

fn brief(action: &Action) -> String {
    match action {
        Action::Publish(Publication { topic, payload, retain: false, .. }) => {
            format!("{topic} = {payload}")
        }
        Action::Publish(Publication { topic, .. }) => format!("{topic} kept"),
        other => format!("{:?}", other),
    }
}

/// Runs until the end; the step `fail_at`, if any, fails.
fn run(fail_at: Option<usize>) -> (Vec<String>, Result<(), String>) {
    let job = job();
    let mut done = Vec::new();
    let (mut run, mut action): (Run, Action) = start_run(&job);
    loop {
        if let Action::End(r) = action {
            assert!(!run.answered_by(&Event::Done));
            return (done, r);
        }
        let event = if fail_at == Some(done.len()) {
            Event::Failed("E".to_string())
        } else {
            success(&action)
        };
        done.push(brief(&action));
        assert!(run.is_well_formed());
        assert!(run.answered_by(&event));
        let next = main_2(&job, run, event);
        run = next.0;
        action = next.1;
    }
}

#[test]
fn a_run_takes_its_steps_in_order() {
    let (done, r) = run(None);
    assert_eq!(r, Ok(()));
    assert_eq!(
        done,
        [
            "TakePeripherals",
            "TakeEventLoop",
            "Measure",
            "SampleVoltage",
            "JoinWifi(\"home\", \"secret\")",
            "OpenBroker(\"mqtt://thum:pw@broker.lan\")",
            "homeassistant/sensor/thum/result/config kept",
            "thum/sensor/result/state = Ok(\"default\")",
            "homeassistant/sensor/thum/temperature/config kept",
            "homeassistant/sensor/thum/humidity/config kept",
            "thum/sensor/temperature/state = 21.57",
            "thum/sensor/humidity/state = 43.2",
            "ReadRssi",
            "homeassistant/sensor/thum/rssi/config kept",
            "thum/sensor/rssi/state = -67",
            "CheckLink",
            "homeassistant/sensor/thum/voltage/config kept",
            "thum/sensor/voltage/state = 3.67",
        ]
    );
}

#[test]
fn the_first_failure_ends_a_run_and_tells_where() {
    let errors = [
        "E",
        "E",
        "sht data error: E",
        "E",
        "wifi: E",
        "mqtt client: E",
        "p1: E",
        "E",
        "sht: E",
        "sht: E",
        "sht: E",
        "sht: E",
        "E",
        "rssi: E",
        "rssi: state: E",
        "is_up2: E",
        "p2: E",
        "p3: E",
    ];
    for (k, error) in errors.iter().enumerate() {
        let (done, r) = run(Some(k));
        assert_eq!(r, Err(error.to_string()));
        assert_eq!(done.len(), k + 1);
    }
}

#[test]
fn answers_fit_the_step_of_a_run() {
    let (run, _) = start_run(&job());
    assert!(run.answered_by(&Event::Done));
    assert!(run.answered_by(&Event::Failed(String::new())));
    assert!(!run.answered_by(&Event::Rssi(0)));
    assert!(!run.answered_by(&Event::Millivolts(0)));
    assert!(!run.answered_by(&Event::Link(true)));
    assert!(!run.answered_by(&Event::Climate(String::new(), String::new())));
}

#[test]
fn settings_have_defaults() {
    let c = Config::default();
    assert_eq!(c.mqtt_host, "localhost");
    assert_eq!(c.mqtt_user, "");
    assert_eq!(c.mqtt_pass, "");
    assert_eq!(c.wifi_ssid, "");
    assert_eq!(c.wifi_psk, "");
    assert_eq!(c.broker_url(), "mqtt://:@localhost");
}

#[test]
fn a_run_stands_at_a_step_that_its_stage_has() {
    let (mut run, _) = start_run(&job());
    assert!(run.is_well_formed());
    for (stage, steps) in [
        (Stage::Measure, 1),
        (Stage::PublishResult, 2),
        (Stage::PublishClimate, 4),
        (Stage::PublishRssi, 2),
        (Stage::PublishVoltage, 2),
    ] {
        run.progress = Progress::At(stage, steps - 1);
        assert!(run.is_well_formed());
        run.progress = Progress::At(stage, steps);
        assert!(!run.is_well_formed());
    }
    run.progress = Progress::Ended(Err(String::new()));
    assert!(run.is_well_formed());
}
