use serde_json::Value;
use thum::discovery::{DiscoveryDevice, DiscoveryTopic, ResultTopic};
use thum::entity::{Entity, Quantity, MODEL, NAME};
use thum::publication::{
    announce, give_state, publish_result, publish_rssi, publish_sht_data, publish_voltage,
    Publication, QoS,
};

const UUID: &str = "6f1c";

const DEVICE: &str = "{\"identifiers\":\"6f1c\",\"model\":\"esp32-c3\",\"name\":\"thum\"}";

fn assert_announces(p: &Publication, topic: &str, payload: &str) {
    assert_eq!(p.topic, topic);
    assert_eq!(p.qos, QoS::AtLeastOnce);
    assert!(p.retain);
    assert_eq!(p.payload, payload);
}

fn assert_states(p: &Publication, topic: &str, payload: &str) {
    assert_eq!(p.topic, topic);
    assert_eq!(p.qos, QoS::AtLeastOnce);
    assert!(!p.retain);
    assert_eq!(p.payload, payload);
}

fn measured(class: &str, name: &str, unit: &str) -> String {
    format!(
        "{{\"device\":{DEVICE},\"device_class\":\"{class}\",\"name\":\"{name}\",\"qos\":1,\
         \"state_class\":\"measurement\",\"state_topic\":\"thum/sensor/{class}/state\",\
         \"unique_id\":\"6f1c_{class}\",\"unit_of_measurement\":\"{unit}\"}}"
    )
}

#[test]
fn climate_is_announced_and_then_given() {
    let v = publish_sht_data(UUID, "21.57", "43.2");
    assert_eq!(v.len(), 4);
    assert_announces(
        &v[0],
        "homeassistant/sensor/thum/temperature/config",
        &measured("temperature", "Temperature", "°C"),
    );
    assert_announces(
        &v[1],
        "homeassistant/sensor/thum/humidity/config",
        &measured("humidity", "Humidity", "%"),
    );
    assert_states(&v[2], "thum/sensor/temperature/state", "21.57");
    assert_states(&v[3], "thum/sensor/humidity/state", "43.2");
}

#[test]
fn rssi_is_announced_and_then_given() {
    let v = publish_rssi(UUID, -67);
    assert_eq!(v.len(), 2);
    assert_announces(
        &v[0],
        "homeassistant/sensor/thum/rssi/config",
        &measured("rssi", "Rssi", "dBm"),
    );
    assert_states(&v[1], "thum/sensor/rssi/state", "-67");
}

#[test]
fn voltage_is_announced_and_then_given() {
    let v = publish_voltage(UUID, 1834);
    assert_eq!(v.len(), 2);
    assert_announces(
        &v[0],
        "homeassistant/sensor/thum/voltage/config",
        &measured("voltage", "Voltage", "V"),
    );
    assert_states(&v[1], "thum/sensor/voltage/state", "3.67");
}

#[test]
fn previous_result_is_announced_and_then_given() {
    let v = publish_result(UUID, "Ok(\"Ok(())\")");
    assert_eq!(v.len(), 2);
    let payload = format!(
        "{{\"command_template\":\"Res: {{{{ value }}}}\",\
         \"command_topic\":\"thum/sensor/result/state\",\"device\":{DEVICE},\
         \"name\":\"Result\",\"platform\":\"esp32-c3\",\"qos\":1,\
         \"state_topic\":\"thum/sensor/result/state\",\"unique_id\":\"6f1c_result\"}}"
    );
    assert_announces(&v[0], "homeassistant/sensor/thum/result/config", &payload);
    assert_states(&v[1], "thum/sensor/result/state", "Ok(\"Ok(())\")");
}

#[test]
fn record_reads_back() {
    for q in [
        Quantity::Temperature,
        Quantity::Humidity,
        Quantity::Rssi,
        Quantity::Voltage,
    ] {
        let e = Entity::Measured(q);
        let p = announce(UUID, e);
        let v: Value = serde_json::from_str(&p.payload).unwrap();
        assert_eq!(v.as_object().unwrap().len(), 8);
        assert_eq!(v["state_class"], "measurement");
        assert_eq!(v["state_topic"], give_state(e, String::new()).topic.as_str());
        assert_eq!(v["unique_id"], e.unique_id(UUID).as_str());
        assert_eq!(v["name"], q.label());
        assert_eq!(v["device_class"], e.word());
        assert_eq!(v["unit_of_measurement"], q.unit());
        assert_eq!(v["qos"], 1);
        assert_eq!(v["device"]["identifiers"], UUID);
        assert_eq!(v["device"]["name"], NAME);
        assert_eq!(v["device"]["model"], MODEL);
    }
}

#[test]
fn characters_are_escaped_where_json_asks_for_it() {
    let uuid = "a\"b\\c\n\u{1}é";
    let p = announce(uuid, Entity::Result);
    assert!(p.payload.contains("\"identifiers\":\"a\\\"b\\\\c\\n\\u0001é\""));
    let v: Value = serde_json::from_str(&p.payload).unwrap();
    assert_eq!(v["device"]["identifiers"], uuid);
    assert_eq!(v["unique_id"], format!("{uuid}_result").as_str());
}

#[test]
fn records_of_other_fields() {
    let t = DiscoveryTopic {
        state_class: "a",
        state_topic: "b",
        unique_id: "c",
        name: "d",
        device_class: "e",
        device: DiscoveryDevice { identifiers: "f", name: "g", model: "h" },
        unit_of_measurement: "i",
        qos: 255,
    };
    assert_eq!(
        t.to_json(),
        "{\"device\":{\"identifiers\":\"f\",\"model\":\"h\",\"name\":\"g\"},\
         \"device_class\":\"e\",\"name\":\"d\",\"qos\":255,\"state_class\":\"a\",\
         \"state_topic\":\"b\",\"unique_id\":\"c\",\"unit_of_measurement\":\"i\"}"
    );
    let r = ResultTopic {
        command_template: "a",
        platform: "b",
        qos: 10,
        unique_id: "c",
        state_topic: "d",
        command_topic: "e",
        name: "f",
        device: DiscoveryDevice { identifiers: "", name: "", model: "" },
    };
    assert_eq!(
        r.to_json(),
        "{\"command_template\":\"a\",\"command_topic\":\"e\",\
         \"device\":{\"identifiers\":\"\",\"model\":\"\",\"name\":\"\"},\"name\":\"f\",\
         \"platform\":\"b\",\"qos\":10,\"state_topic\":\"d\",\"unique_id\":\"c\"}"
    );
}

#[test]
fn entities_and_devices_are_told_apart() {
    let all = [
        Entity::Result,
        Entity::Measured(Quantity::Temperature),
        Entity::Measured(Quantity::Humidity),
        Entity::Measured(Quantity::Rssi),
        Entity::Measured(Quantity::Voltage),
    ];
    for a in all {
        for b in all {
            assert_eq!(a == b, a.state_topic() == b.state_topic());
            assert_eq!(a == b, a.config_topic() == b.config_topic());
            assert_eq!(a == b, a.unique_id(UUID) == b.unique_id(UUID));
            assert_ne!(a.config_topic(), b.state_topic());
        }
        assert_ne!(a.unique_id("1"), a.unique_id("2"));
    }
}

#[test]
fn records_are_told_apart_by_their_text() {
    let texts: Vec<String> = (0..9)
        .map(|k| {
            let pick = |i: usize| if i == k { "x" } else { "y" };
            DiscoveryTopic {
                state_class: pick(0),
                state_topic: pick(1),
                unique_id: pick(2),
                name: pick(3),
                device_class: pick(4),
                device: DiscoveryDevice { identifiers: pick(5), name: pick(6), model: pick(7) },
                unit_of_measurement: pick(8),
                qos: 1,
            }
            .to_json()
        })
        .collect();
    for i in 0..9 {
        for j in 0..9 {
            assert_eq!(i == j, texts[i] == texts[j]);
        }
    }
}

#[test]
fn every_control_character_is_escaped() {
    for code in 0..0x80u32 {
        let c = char::from_u32(code).unwrap();
        let expected = match c {
            '"' => "\\\"".to_string(),
            '\\' => "\\\\".to_string(),
            '\u{8}' => "\\b".to_string(),
            '\t' => "\\t".to_string(),
            '\n' => "\\n".to_string(),
            '\u{c}' => "\\f".to_string(),
            '\r' => "\\r".to_string(),
            c if code < 0x20 => format!("\\u{:04x}", c as u32),
            c => c.to_string(),
        };
        let p = announce(&c.to_string(), Entity::Result);
        assert!(p.payload.contains(&format!("\"identifiers\":\"{expected}\",")));
    }
}

#[test]
fn result_records_are_told_apart_by_their_text() {
    let texts: Vec<String> = (0..10)
        .map(|k| {
            let pick = |i: usize| if i == k { "\",\"x" } else { "\\" };
            ResultTopic {
                command_template: pick(0),
                platform: pick(1),
                qos: if k == 9 { 11 } else { 1 },
                unique_id: pick(2),
                state_topic: pick(3),
                command_topic: pick(4),
                name: pick(5),
                device: DiscoveryDevice { identifiers: pick(6), name: pick(7), model: pick(8) },
            }
            .to_json()
        })
        .collect();
    for i in 0..10 {
        for j in 0..10 {
            assert_eq!(i == j, texts[i] == texts[j]);
        }
    }
}
