//! The messages that the device publishes.

use crate::discovery::{
    lemma_device_text, lemma_measured_text, lemma_result_text, DiscoveryDevice, DiscoveryTopic,
    ResultTopic,
};
use crate::entity::{
    config_topic, label, law_topics_are_these, state_topic, unique_id, unit, word, Entity,
    Quantity, MODEL, NAME,
};
use crate::json::{
    json_object, json_string, law_numbers_are_told_apart, law_strings_are_told_apart,
    law_text_tells_the_members, told_apart, Member,
};
use crate::text::{decimal, integer, integer_text, law_one_more_digit};
use crate::voltage::{hundredths, two_places, volts_text};
use vstd::prelude::*;

verus! {

/// How hard the broker tries to hand a message on.
#[derive(Debug, Clone, Copy, PartialEq, Eq, Structural)]
pub enum QoS {
    AtMostOnce,
    AtLeastOnce,
    ExactlyOnce,
}

/// The quality of service that the records announce for the states.
pub const QOS: u8 = 1;

/// A message to the broker.
#[derive(Debug)]
pub struct Publication {
    pub topic: String,
    pub qos: QoS,
    pub retain: bool,
    pub payload: String,
}

/// What a message says.
#[verifier::ext_equal]
pub struct PublicationView {
    pub topic: Seq<char>,
    pub qos: QoS,
    pub retain: bool,
    pub payload: Seq<char>,
}

impl View for Publication {
    type V = PublicationView;

    open spec fn view(&self) -> PublicationView {
        PublicationView {
            topic: self.topic@,
            qos: self.qos,
            retain: self.retain,
            payload: self.payload@,
        }
    }
}

/// What each of several messages says.
pub open spec fn views(v: Seq<Publication>) -> Seq<PublicationView> {
    Seq::new(v.len(), |i: int| v[i]@)
}

/// The JSON text of the device `uuid`.
pub open spec fn device_text(uuid: Seq<char>) -> Seq<char> {
    json_object(
        seq![
            ("identifiers"@, json_string(uuid)),
            ("model"@, json_string(MODEL@)),
            ("name"@, json_string(NAME@)),
        ],
    )
}

/// What the record of a measured quantity says.
pub open spec fn measured_members(uuid: Seq<char>, q: Quantity) -> Seq<Member> {
    let e = Entity::Measured(q);
    seq![
        ("device"@, device_text(uuid)),
        ("device_class"@, json_string(word(e))),
        ("name"@, json_string(label(q))),
        ("qos"@, decimal(QOS as nat)),
        ("state_class"@, json_string("measurement"@)),
        ("state_topic"@, json_string(state_topic(e))),
        ("unique_id"@, json_string(unique_id(uuid, e))),
        ("unit_of_measurement"@, json_string(unit(q))),
    ]
}

/// What the record of the previous result says.
pub open spec fn result_members(uuid: Seq<char>) -> Seq<Member> {
    seq![
        ("command_template"@, json_string("Res: {{ value }}"@)),
        ("command_topic"@, json_string(state_topic(Entity::Result))),
        ("device"@, device_text(uuid)),
        ("name"@, json_string("Result"@)),
        ("platform"@, json_string(MODEL@)),
        ("qos"@, decimal(QOS as nat)),
        ("state_topic"@, json_string(state_topic(Entity::Result))),
        ("unique_id"@, json_string(unique_id(uuid, Entity::Result))),
    ]
}

/// What the record of an entity says.
pub open spec fn record_members(uuid: Seq<char>, e: Entity) -> Seq<Member> {
    match e {
        Entity::Result => result_members(uuid),
        Entity::Measured(q) => measured_members(uuid, q),
    }
}

/// The message that announces an entity: it is retained, so that Home Assistant
/// finds it whenever it starts.
pub open spec fn announcement(uuid: Seq<char>, e: Entity) -> PublicationView {
    PublicationView {
        topic: config_topic(e),
        qos: QoS::AtLeastOnce,
        retain: true,
        payload: json_object(record_members(uuid, e)),
    }
}

/// The message that gives the state of an entity: it is not retained.
pub open spec fn state_message(e: Entity, state: Seq<char>) -> PublicationView {
    PublicationView {
        topic: state_topic(e),
        qos: QoS::AtLeastOnce,
        retain: false,
        payload: state,
    }
}

/// The messages about how the previous run ended.
pub open spec fn result_messages(uuid: Seq<char>, previous: Seq<char>) -> Seq<PublicationView> {
    seq![announcement(uuid, Entity::Result), state_message(Entity::Result, previous)]
}

/// The messages about temperature and humidity: both are announced before
/// either state is given.
pub open spec fn climate_messages(
    uuid: Seq<char>,
    temperature: Seq<char>,
    humidity: Seq<char>,
) -> Seq<PublicationView> {
    seq![
        announcement(uuid, Entity::Measured(Quantity::Temperature)),
        announcement(uuid, Entity::Measured(Quantity::Humidity)),
        state_message(Entity::Measured(Quantity::Temperature), temperature),
        state_message(Entity::Measured(Quantity::Humidity), humidity),
    ]
}

/// The messages about the strength of the WiFi signal.
pub open spec fn rssi_messages(uuid: Seq<char>, rssi: int) -> Seq<PublicationView> {
    seq![
        announcement(uuid, Entity::Measured(Quantity::Rssi)),
        state_message(Entity::Measured(Quantity::Rssi), integer(rssi)),
    ]
}

/// The messages about the supply voltage.
pub open spec fn voltage_messages(uuid: Seq<char>, millivolts: nat) -> Seq<PublicationView> {
    seq![
        announcement(uuid, Entity::Measured(Quantity::Voltage)),
        state_message(
            Entity::Measured(Quantity::Voltage),
            two_places(hundredths(millivolts)),
        ),
    ]
}

/// The device `uuid`.
fn device<'a>(uuid: &'a str) -> (d: DiscoveryDevice<'a>)
    ensures
        json_object(d.members()) == device_text(uuid@),
{
    DiscoveryDevice { identifiers: uuid, name: NAME, model: MODEL }
}

/// Announces an entity.
pub fn announce(uuid: &str, e: Entity) -> (p: Publication)
    ensures
        p@ == announcement(uuid@, e),
        p.topic@ == announcement(uuid@, e).topic,
        p.qos == QoS::AtLeastOnce,
        p.retain,
        p.payload@ == announcement(uuid@, e).payload,
{
    let state_topic = e.state_topic();
    let unique_id = e.unique_id(uuid);
    let payload = match e {
        Entity::Result => {
            let record = ResultTopic {
                command_template: "Res: {{ value }}",
                platform: MODEL,
                qos: QOS,
                unique_id: unique_id.as_str(),
                state_topic: state_topic.as_str(),
                command_topic: state_topic.as_str(),
                name: "Result",
                device: device(uuid),
            };
            assert(record.members() =~= result_members(uuid@));
            record.to_json()
        },
        Entity::Measured(q) => {
            let record = DiscoveryTopic {
                state_class: "measurement",
                state_topic: state_topic.as_str(),
                unique_id: unique_id.as_str(),
                name: q.label(),
                device_class: e.word(),
                device: device(uuid),
                unit_of_measurement: q.unit(),
                qos: QOS,
            };
            assert(record.members() =~= measured_members(uuid@, q));
            record.to_json()
        },
    };
    Publication { topic: e.config_topic(), qos: QoS::AtLeastOnce, retain: true, payload }
}

/// Gives the state of an entity.
pub fn give_state(e: Entity, state: String) -> (p: Publication)
    ensures
        p@ == state_message(e, state@),
        p.topic@ == state_topic(e),
        p.qos == QoS::AtLeastOnce,
        !p.retain,
        p.payload@ == state@,
{
    Publication { topic: e.state_topic(), qos: QoS::AtLeastOnce, retain: false, payload: state }
}

/// What is published about how the previous run ended.
pub fn publish_result(uuid: &str, previous: &str) -> (v: Vec<Publication>)
    ensures
        views(v@) == result_messages(uuid@, previous@),
        v@.len() == 2,
        v@[0].topic@ == "homeassistant/sensor/thum/result/config"@,
        v@[0].retain && v@[0].qos == QoS::AtLeastOnce,
        v@[0].payload@ == announcement(uuid@, Entity::Result).payload,
        v@[1].topic@ == "thum/sensor/result/state"@,
        !v@[1].retain && v@[1].qos == QoS::AtLeastOnce,
        v@[1].payload@ == previous@,
{
    proof {
        law_topics_are_these(Entity::Result);
    }
    let v = vec![announce(uuid, Entity::Result), give_state(Entity::Result, previous.to_owned())];
    assert(views(v@) =~= result_messages(uuid@, previous@));
    v
}

/// What is published about a measurement of temperature and humidity, given as
/// texts.
pub fn publish_sht_data(uuid: &str, temperature: &str, humidity: &str) -> (v: Vec<Publication>)
    ensures
        views(v@) == climate_messages(uuid@, temperature@, humidity@),
        v@.len() == 4,
        v@[0].topic@ == "homeassistant/sensor/thum/temperature/config"@,
        v@[0].retain && v@[0].qos == QoS::AtLeastOnce,
        v@[0].payload@ == announcement(uuid@, Entity::Measured(Quantity::Temperature)).payload,
        v@[1].topic@ == "homeassistant/sensor/thum/humidity/config"@,
        v@[1].retain && v@[1].qos == QoS::AtLeastOnce,
        v@[1].payload@ == announcement(uuid@, Entity::Measured(Quantity::Humidity)).payload,
        v@[2].topic@ == "thum/sensor/temperature/state"@,
        !v@[2].retain && v@[2].qos == QoS::AtLeastOnce,
        v@[2].payload@ == temperature@,
        v@[3].topic@ == "thum/sensor/humidity/state"@,
        !v@[3].retain && v@[3].qos == QoS::AtLeastOnce,
        v@[3].payload@ == humidity@,
{
    proof {
        law_topics_are_these(Entity::Measured(Quantity::Temperature));
        law_topics_are_these(Entity::Measured(Quantity::Humidity));
    }
    let v = vec![
        announce(uuid, Entity::Measured(Quantity::Temperature)),
        announce(uuid, Entity::Measured(Quantity::Humidity)),
        give_state(Entity::Measured(Quantity::Temperature), temperature.to_owned()),
        give_state(Entity::Measured(Quantity::Humidity), humidity.to_owned()),
    ];
    assert(views(v@) =~= climate_messages(uuid@, temperature@, humidity@));
    v
}

/// What is published about the strength of the WiFi signal, in dBm.
pub fn publish_rssi(uuid: &str, rssi: i32) -> (v: Vec<Publication>)
    ensures
        views(v@) == rssi_messages(uuid@, rssi as int),
        v@.len() == 2,
        v@[0].topic@ == "homeassistant/sensor/thum/rssi/config"@,
        v@[0].retain && v@[0].qos == QoS::AtLeastOnce,
        v@[0].payload@ == announcement(uuid@, Entity::Measured(Quantity::Rssi)).payload,
        v@[1].topic@ == "thum/sensor/rssi/state"@,
        !v@[1].retain && v@[1].qos == QoS::AtLeastOnce,
        v@[1].payload@ == integer(rssi as int),
{
    proof {
        law_topics_are_these(Entity::Measured(Quantity::Rssi));
    }
    let v = vec![
        announce(uuid, Entity::Measured(Quantity::Rssi)),
        give_state(Entity::Measured(Quantity::Rssi), integer_text(rssi)),
    ];
    assert(views(v@) =~= rssi_messages(uuid@, rssi as int));
    v
}

/// What is published about the supply voltage, where the sampled pin is at
/// `millivolts`.
pub fn publish_voltage(uuid: &str, millivolts: u16) -> (v: Vec<Publication>)
    ensures
        views(v@) == voltage_messages(uuid@, millivolts as nat),
        v@.len() == 2,
        v@[0].topic@ == "homeassistant/sensor/thum/voltage/config"@,
        v@[0].retain && v@[0].qos == QoS::AtLeastOnce,
        v@[0].payload@ == announcement(uuid@, Entity::Measured(Quantity::Voltage)).payload,
        v@[1].topic@ == "thum/sensor/voltage/state"@,
        !v@[1].retain && v@[1].qos == QoS::AtLeastOnce,
        v@[1].payload@ == two_places(hundredths(millivolts as nat)),
{
    proof {
        law_topics_are_these(Entity::Measured(Quantity::Voltage));
    }
    let v = vec![
        announce(uuid, Entity::Measured(Quantity::Voltage)),
        give_state(Entity::Measured(Quantity::Voltage), volts_text(millivolts)),
    ];
    assert(views(v@) =~= voltage_messages(uuid@, millivolts as nat));
    v
}

/// The state of an entity is given as it is, character by character, on the topic
/// of the entity, and it is not retained.
pub proof fn law_state_is_given_as_it_is(e: Entity, s: Seq<char>)
    ensures
        state_message(e, s).payload == s,
        state_message(e, s).topic == (match e {
            Entity::Result => "thum/sensor/result/state"@,
            Entity::Measured(Quantity::Temperature) => "thum/sensor/temperature/state"@,
            Entity::Measured(Quantity::Humidity) => "thum/sensor/humidity/state"@,
            Entity::Measured(Quantity::Rssi) => "thum/sensor/rssi/state"@,
            Entity::Measured(Quantity::Voltage) => "thum/sensor/voltage/state"@,
        }),
        state_message(e, s).qos == QoS::AtLeastOnce,
        !state_message(e, s).retain,
{
    law_topics_are_these(e);
}

/// What was found out is what the messages say, each on the topic of its entity.
pub proof fn law_messages_say_what_was_found_out(
    uuid: Seq<char>,
    previous: Seq<char>,
    temperature: Seq<char>,
    humidity: Seq<char>,
    rssi: int,
    millivolts: nat,
)
    ensures
        ({
            let m = result_messages(uuid, previous);
            &&& m.len() == 2
            &&& m[0] == announcement(uuid, Entity::Result)
            &&& m[1].topic == "thum/sensor/result/state"@
            &&& m[1].payload == previous
        }),
        ({
            let m = climate_messages(uuid, temperature, humidity);
            &&& m.len() == 4
            &&& m[0] == announcement(uuid, Entity::Measured(Quantity::Temperature))
            &&& m[1] == announcement(uuid, Entity::Measured(Quantity::Humidity))
            &&& m[2].topic == "thum/sensor/temperature/state"@
            &&& m[2].payload == temperature
            &&& m[3].topic == "thum/sensor/humidity/state"@
            &&& m[3].payload == humidity
        }),
        ({
            let m = rssi_messages(uuid, rssi);
            &&& m.len() == 2
            &&& m[0] == announcement(uuid, Entity::Measured(Quantity::Rssi))
            &&& m[1].topic == "thum/sensor/rssi/state"@
            &&& m[1].payload == integer(rssi)
        }),
        ({
            let m = voltage_messages(uuid, millivolts);
            &&& m.len() == 2
            &&& m[0] == announcement(uuid, Entity::Measured(Quantity::Voltage))
            &&& m[1].topic == "thum/sensor/voltage/state"@
            &&& m[1].payload == two_places(hundredths(millivolts))
        }),
{
    law_topics_are_these(Entity::Result);
    law_topics_are_these(Entity::Measured(Quantity::Temperature));
    law_topics_are_these(Entity::Measured(Quantity::Humidity));
    law_topics_are_these(Entity::Measured(Quantity::Rssi));
    law_topics_are_these(Entity::Measured(Quantity::Voltage));
}

/// The device of a record is the one that was named, whatever its identifier:
/// the identifier stands in the text, in the record of every entity, and two
/// devices never have the same text.
pub proof fn law_records_name_the_device(a: Seq<char>, b: Seq<char>, e: Entity)
    ensures
        device_text(a) == "{\"identifiers\":"@ + json_string(a) + ",\"model\":"@ + json_string(
            "esp32-c3"@,
        ) + ",\"name\":"@ + json_string("thum"@) + "}"@,
        record_members(a, e).contains(
            (
                "device"@,
                "{\"identifiers\":"@ + json_string(a) + ",\"model\":"@ + json_string("esp32-c3"@)
                    + ",\"name\":"@ + json_string("thum"@) + "}"@,
            ),
        ),
        device_text(a) == device_text(b) ==> a == b,
        announcement(a, e).payload == announcement(b, e).payload ==> a == b,
{
    lemma_device_text(json_string(a), json_string(MODEL@), json_string(NAME@));
    let m = record_members(a, e);
    match e {
        Entity::Result => {
            assert(m[2] == ("device"@, device_text(a)));
        },
        Entity::Measured(_) => {
            assert(m[0] == ("device"@, device_text(a)));
        },
    }
    lemma_devices_are_told_apart(a, b);
    lemma_records_are_told_apart(a, b, e);
}

proof fn lemma_devices_are_told_apart(a: Seq<char>, b: Seq<char>)
    ensures
        told_apart(device_text(a), device_text(b)),
        device_text(a) == device_text(b) ==> a == b,
{
    let m: Seq<Member> = seq![
        ("identifiers"@, json_string(a)),
        ("model"@, json_string(MODEL@)),
        ("name"@, json_string(NAME@)),
    ];
    let n: Seq<Member> = seq![
        ("identifiers"@, json_string(b)),
        ("model"@, json_string(MODEL@)),
        ("name"@, json_string(NAME@)),
    ];
    law_strings_are_told_apart(a, b);
    law_strings_are_told_apart(MODEL@, MODEL@);
    law_strings_are_told_apart(NAME@, NAME@);
    law_text_tells_the_members(m, n);
    assert(m == n ==> m[0] == n[0]);
}

proof fn lemma_records_are_told_apart(a: Seq<char>, b: Seq<char>, e: Entity)
    ensures
        announcement(a, e).payload == announcement(b, e).payload ==> a == b,
{
    let m = record_members(a, e);
    let n = record_members(b, e);
    lemma_devices_are_told_apart(a, b);
    law_strings_are_told_apart(unique_id(a, e), unique_id(b, e));
    law_strings_are_told_apart(state_topic(e), state_topic(e));
    law_numbers_are_told_apart(QOS as nat, QOS as nat);
    match e {
        Entity::Result => {
            law_strings_are_told_apart("Res: {{ value }}"@, "Res: {{ value }}"@);
            law_strings_are_told_apart("Result"@, "Result"@);
            law_strings_are_told_apart(MODEL@, MODEL@);
            law_text_tells_the_members(m, n);
            assert(m == n ==> m[2] == n[2]);
        },
        Entity::Measured(q) => {
            law_strings_are_told_apart(word(e), word(e));
            law_strings_are_told_apart(label(q), label(q));
            law_strings_are_told_apart("measurement"@, "measurement"@);
            law_strings_are_told_apart(unit(q), unit(q));
            law_text_tells_the_members(m, n);
            assert(m == n ==> m[0] == n[0]);
        },
    }
}

/// An entity is announced on its own topic, for good, with this text, whatever
/// the identifier of the device.
pub proof fn law_announcement_is_this(uuid: Seq<char>, e: Entity)
    ensures
        announcement(uuid, e).retain,
        announcement(uuid, e).qos == QoS::AtLeastOnce,
        announcement(uuid, e).topic == (match e {
            Entity::Result => "homeassistant/sensor/thum/result/config"@,
            Entity::Measured(Quantity::Temperature) => "homeassistant/sensor/thum/temperature/config"@,
            Entity::Measured(Quantity::Humidity) => "homeassistant/sensor/thum/humidity/config"@,
            Entity::Measured(Quantity::Rssi) => "homeassistant/sensor/thum/rssi/config"@,
            Entity::Measured(Quantity::Voltage) => "homeassistant/sensor/thum/voltage/config"@,
        }),
        announcement(uuid, e).payload == ({
            let device = "{\"identifiers\":"@ + json_string(uuid) + ",\"model\":"@ + json_string(
                "esp32-c3"@,
            ) + ",\"name\":"@ + json_string("thum"@) + "}"@;
            let measured = |id: Seq<char>, name: Seq<char>, unit: Seq<char>|
                "{\"device\":"@ + device
                    + ",\"device_class\":"@ + json_string(id)
                    + ",\"name\":"@ + json_string(name)
                    + ",\"qos\":"@ + "1"@
                    + ",\"state_class\":"@ + json_string("measurement"@)
                    + ",\"state_topic\":"@ + json_string("thum/sensor/"@ + id + "/state"@)
                    + ",\"unique_id\":"@ + json_string(uuid + "_"@ + id)
                    + ",\"unit_of_measurement\":"@ + json_string(unit)
                    + "}"@;
            match e {
                Entity::Result => "{\"command_template\":"@ + json_string("Res: {{ value }}"@)
                    + ",\"command_topic\":"@ + json_string("thum/sensor/result/state"@)
                    + ",\"device\":"@ + device
                    + ",\"name\":"@ + json_string("Result"@)
                    + ",\"platform\":"@ + json_string("esp32-c3"@)
                    + ",\"qos\":"@ + "1"@
                    + ",\"state_topic\":"@ + json_string("thum/sensor/result/state"@)
                    + ",\"unique_id\":"@ + json_string(uuid + "_result"@)
                    + "}"@,
                Entity::Measured(Quantity::Temperature) => measured(
                    "temperature"@,
                    "Temperature"@,
                    "\u{b0}C"@,
                ),
                Entity::Measured(Quantity::Humidity) => measured(
                    "humidity"@,
                    "Humidity"@,
                    "%"@,
                ),
                Entity::Measured(Quantity::Rssi) => measured("rssi"@, "Rssi"@, "dBm"@),
                Entity::Measured(Quantity::Voltage) => measured("voltage"@, "Voltage"@, "V"@),
            }
        }),
{
    law_topics_are_these(e);
    law_one_more_digit(0, 1);
    reveal_strlit("1");
    assert(decimal(1) =~= "1"@);
    lemma_device_text(json_string(uuid), json_string(MODEL@), json_string(NAME@));
    match e {
        Entity::Result => {
            reveal_strlit("_");
            reveal_strlit("result");
            reveal_strlit("_result");
            assert(unique_id(uuid, e) =~= uuid + "_result"@);
            lemma_result_text(
                json_string("Res: {{ value }}"@),
                json_string(state_topic(e)),
                device_text(uuid),
                json_string("Result"@),
                json_string(MODEL@),
                decimal(1),
                json_string(state_topic(e)),
                json_string(unique_id(uuid, e)),
            );
        },
        Entity::Measured(q) => {
            reveal_strlit("thum");
            reveal_strlit("/sensor/");
            reveal_strlit("thum/sensor/");
            assert(NAME@ + "/sensor/"@ =~= "thum/sensor/"@);
            lemma_measured_text(
                device_text(uuid),
                json_string(word(e)),
                json_string(label(q)),
                decimal(1),
                json_string("measurement"@),
                json_string(state_topic(e)),
                json_string(unique_id(uuid, e)),
                json_string(unit(q)),
            );
        },
    }
}

/// The record of an entity names the topic on which its state is given, and the
/// identifier that is its own.
pub proof fn law_record_names_the_state_topic(uuid: Seq<char>, e: Entity)
    ensures
        record_members(uuid, e).contains(("state_topic"@, json_string(state_topic(e)))),
        record_members(uuid, e).contains(("unique_id"@, json_string(unique_id(uuid, e)))),
{
    let m = record_members(uuid, e);
    match e {
        Entity::Result => {
            assert(m[6] == ("state_topic"@, json_string(state_topic(e))));
            assert(m[7] == ("unique_id"@, json_string(unique_id(uuid, e))));
        },
        Entity::Measured(_) => {
            assert(m[5] == ("state_topic"@, json_string(state_topic(e))));
            assert(m[6] == ("unique_id"@, json_string(unique_id(uuid, e))));
        },
    }
}

} // verus!
