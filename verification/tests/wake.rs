use thum::wake::{
    outcome_text, previous_text, show, wake, WakeAction, WakeEvent, NAMESPACE, PREVIOUS_KEY,
    PREVIOUS_LIMIT, SLEEP_MICROS,
};

fn stored(res: Result<(), String>) -> Vec<u8> {
    match wake(WakeEvent::Ran(res)) {
        WakeAction::Store(bytes) => bytes,
        other => panic!("{:?}", other),
    }
}

fn told(read: Result<Option<Vec<u8>>, String>) -> String {
    match wake(WakeEvent::Looked(read)) {
        WakeAction::Run(text) => text,
        other => panic!("{:?}", other),
    }
}

#[test]
fn outcomes_are_stored_as_text() {
    assert_eq!(stored(Ok(())), b"Ok(())");
    assert_eq!(stored(Err("wifi: lost".to_string())), b"Err(wifi: lost)");
    assert_eq!(stored(Err(String::new())), b"Err()");
    let res: Result<(), anyhow::Error> = Ok(());
    assert_eq!(stored(Ok(())), format!("{:?}", res).as_bytes());
    let res: Result<(), anyhow::Error> = Err(anyhow::Error::msg("p1: ESP_FAIL"));
    assert!(format!("{:?}", res).starts_with("Err(p1: ESP_FAIL"));
    assert_eq!(outcome_text(&Err("p1: ESP_FAIL".to_string())), "Err(p1: ESP_FAIL)");
}

#[test]
fn nothing_stored_is_told_as_default() {
    assert_eq!(told(Ok(None)), "Ok(\"default\")");
    assert_eq!(told(Err("ESP_ERR_NVS_INVALID_LENGTH".to_string())), "Ok(\"default\")");
}

#[test]
fn what_was_stored_is_told_next_time() {
    assert_eq!(told(Ok(Some(stored(Ok(()))))), "Ok(\"Ok(())\")");
    assert_eq!(
        told(Ok(Some(stored(Err("sht: ä \"x\"\n".to_string()))))),
        "Ok(\"Err(sht: ä \\\"x\\\"\\n)\")"
    );
}

#[test]
fn stored_text_is_told_as_the_standard_library_debugs_it() {
    for bytes in [
        &b"plain"[..],
        b"",
        b" !#$%&()*+,-./09:;<=>?@AZ[]^_`az{|}~",
        b"it's",
        b"tab\tquote\"back\\slash",
        "\u{b0}C \u{301}\u{0}".as_bytes(),
        b"cut \xe2\x82",
        b"\xff",
        b"mid\xc0\xafdle",
    ] {
        assert_eq!(
            previous_text(&Ok(Some(bytes.to_vec()))),
            format!("{:?}", std::str::from_utf8(bytes))
        );
    }
}

#[test]
fn bytes_that_are_no_text_are_told_as_an_error() {
    assert_eq!(
        told(Ok(Some(vec![b'a', 0xff]))),
        "Err(Utf8Error { valid_up_to: 1, error_len: Some(1) })"
    );
}

#[test]
fn results_are_shown() {
    assert_eq!(show(Ok("x")), "Ok(x)");
    assert_eq!(show(Err("x")), "Err(x)");
}

#[test]
fn the_device_sleeps_whether_or_not_the_outcome_was_stored() {
    for res in [Ok(()), Err("full".to_string())] {
        match wake(WakeEvent::Stored(res)) {
            WakeAction::Sleep(micros) => assert_eq!(micros, 1_800_000_000),
            other => panic!("{:?}", other),
        }
    }
    assert_eq!(SLEEP_MICROS, 1_800_000_000);
}

#[test]
fn places_in_the_flash() {
    assert_eq!(NAMESPACE, "test_ns");
    assert_eq!(PREVIOUS_KEY, "previous");
    assert_eq!(PREVIOUS_LIMIT, 255);
}
