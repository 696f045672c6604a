use thum::wifi::{
    find_channel, has_room_for_password, has_room_for_ssid, start_wifi, wifi, AccessPoint,
    AuthMethod, Joining, WifiAction, WifiEvent, MAX_TX_POWER,
};

fn point(ssid: &str, channel: u8) -> AccessPoint {
    AccessPoint { ssid: ssid.to_string(), channel }
}

fn found() -> Vec<AccessPoint> {
    vec![point("cafe", 1), point("home", 6), point("home", 11), point("Home", 3)]
}

fn go_on(ssid: &str, pass: &str, joining: Joining, event: WifiEvent) -> (Joining, WifiAction) {
    assert!(joining.answered_by(&event));
    wifi(ssid, pass, joining, event)
}

/// What comes of a step that succeeds.
fn success(action: &WifiAction) -> WifiEvent {
    match action {
        WifiAction::Scan => WifiEvent::Scanned(found()),
        _ => WifiEvent::Done,
    }
}

/// Runs until the end; the step `fail_at`, if any, fails.
fn join(ssid: &str, pass: &str, fail_at: Option<usize>) -> (Vec<String>, Result<(), String>) {
    let mut done = Vec::new();
    let (mut joining, mut action) = start_wifi(ssid, pass);
    loop {
        if let WifiAction::End(r) = action {
            match joining {
                Joining::Ended(ref e) => assert_eq!(*e, r),
                Joining::At(_) => panic!("not ended"),
            }
            assert!(!joining.answered_by(&WifiEvent::Done));
            return (done, r);
        }
        let event = if fail_at == Some(done.len()) {
            WifiEvent::Failed("ESP_FAIL".to_string())
        } else {
            success(&action)
        };
        done.push(format!("{:?}", action));
        let next = go_on(ssid, pass, joining, event);
        joining = next.0;
        action = next.1;
    }
}

#[test]
fn a_network_without_a_name_is_refused_at_once() {
    let (done, r) = join("", "secret", None);
    assert!(done.is_empty());
    assert_eq!(r, Err("Missing WiFi name".to_string()));
}

#[test]
fn joining_takes_its_steps_in_order() {
    let (done, r) = join("home", "secret", None);
    assert_eq!(r, Ok(()));
    assert_eq!(
        done,
        [
            "CreateDriver",
            "LimitPower(56)",
            "WrapDriver",
            "ConfigureDefault",
            "Start",
            "Scan",
            "ConfigureClient(ClientConfiguration { ssid: \"home\", password: \"secret\", \
             channel: Some(6), auth_method: WPA2Personal })",
            "Connect",
            "WaitUntilUp",
            "ReadAddress",
        ]
    );
    assert_eq!(MAX_TX_POWER, 56);
}

#[test]
fn without_a_password_the_network_is_open() {
    let (done, r) = join("garden", "", None);
    assert_eq!(r, Ok(()));
    assert_eq!(
        done[6],
        "ConfigureClient(ClientConfiguration { ssid: \"garden\", password: \"\", \
         channel: None, auth_method: Open })"
    );
    assert_ne!(AuthMethod::Open, AuthMethod::WPA2Personal);
}

#[test]
fn the_first_failure_ends_joining() {
    for k in 0..10 {
        let (done, r) = join("home", "secret", Some(k));
        if k == 1 {
            assert_eq!(r, Ok(()));
            assert_eq!(done.len(), 10);
        } else {
            assert_eq!(r, Err("ESP_FAIL".to_string()));
            assert_eq!(done.len(), k + 1);
        }
    }
}

#[test]
fn the_channel_is_that_of_the_first_network_of_the_name() {
    assert_eq!(find_channel(&found(), "home"), Some(6));
    assert_eq!(find_channel(&found(), "cafe"), Some(1));
    assert_eq!(find_channel(&found(), "Home"), Some(3));
    assert_eq!(find_channel(&found(), "hom"), None);
    assert_eq!(find_channel(&Vec::new(), "home"), None);
}

#[test]
fn answers_fit_the_step_of_joining() {
    let (joining, _) = start_wifi("home", "");
    assert!(joining.answered_by(&WifiEvent::Done));
    assert!(joining.answered_by(&WifiEvent::Failed(String::new())));
    assert!(!joining.answered_by(&WifiEvent::Scanned(Vec::new())));
}

#[test]
fn names_and_passwords_are_measured_in_bytes() {
    assert!(has_room_for_ssid(""));
    assert!(has_room_for_ssid(&"a".repeat(32)));
    assert!(!has_room_for_ssid(&"a".repeat(33)));
    assert!(has_room_for_ssid(&"ä".repeat(16)));
    assert!(!has_room_for_ssid(&"ä".repeat(17)));
    assert!(has_room_for_password(&"a".repeat(64)));
    assert!(!has_room_for_password(&"a".repeat(65)));
    assert!(!has_room_for_password(&"€".repeat(22)));
}
