//! The records that announce an entity to Home Assistant.

use crate::json::{
    alike, json_object, json_string, law_numbers_are_told_apart,
    law_object_text_grows_by_its_members, law_ordinary_string_stands_as_it_is,
    law_strings_are_told_apart, law_text_tells_the_members, number_value, parts_at, string_value,
    value_text, value_to_string, Member, Object,
};
use crate::text::decimal;
use serde_json::Value;
use vstd::prelude::*;

verus! {

/// The device that an entity belongs to.
#[derive(Debug)]
pub struct DiscoveryDevice<'a> {
    pub identifiers: &'a str,
    pub name: &'a str,
    pub model: &'a str,
}

/// The announcement of a measured quantity.
#[derive(Debug)]
pub struct DiscoveryTopic<'a> {
    pub state_class: &'a str,
    pub state_topic: &'a str,
    pub unique_id: &'a str,
    pub name: &'a str,
    pub device_class: &'a str,
    pub device: DiscoveryDevice<'a>,
    pub unit_of_measurement: &'a str,
    pub qos: u8,
}

/// The announcement of the entity that shows how the previous run ended.
#[derive(Debug)]
pub struct ResultTopic<'a> {
    pub command_template: &'a str,
    pub platform: &'a str,
    pub qos: u8,
    pub unique_id: &'a str,
    pub state_topic: &'a str,
    pub command_topic: &'a str,
    pub name: &'a str,
    pub device: DiscoveryDevice<'a>,
}

impl<'a> DiscoveryDevice<'a> {
    /// The members of the JSON object, by key.
    pub open spec fn members(&self) -> Seq<Member> {
        seq![
            ("identifiers"@, json_string(self.identifiers@)),
            ("model"@, json_string(self.model@)),
            ("name"@, json_string(self.name@)),
        ]
    }

    /// The device as a JSON object.
    fn to_value(&self) -> (v: Value)
        ensures
            value_text(v) == json_object(self.members()),
    {
        proof {
            reveal_strlit("identifiers");
            reveal_strlit("model");
            reveal_strlit("name");
            assert(parts_at("identifiers"@, "model"@, 0));
            assert(parts_at("model"@, "name"@, 0));
        }
        let mut o = Object::new();
        o.put("identifiers", string_value(self.identifiers));
        o.put("model", string_value(self.model));
        o.put("name", string_value(self.name));
        assert(o.members() =~= self.members());
        o.into_value()
    }
}

impl<'a> DiscoveryTopic<'a> {
    /// The members of the JSON object, by key.
    pub open spec fn members(&self) -> Seq<Member> {
        seq![
            ("device"@, json_object(self.device.members())),
            ("device_class"@, json_string(self.device_class@)),
            ("name"@, json_string(self.name@)),
            ("qos"@, decimal(self.qos as nat)),
            ("state_class"@, json_string(self.state_class@)),
            ("state_topic"@, json_string(self.state_topic@)),
            ("unique_id"@, json_string(self.unique_id@)),
            ("unit_of_measurement"@, json_string(self.unit_of_measurement@)),
        ]
    }

    /// The record as JSON text: what Home Assistant is sent.
    pub fn to_json(&self) -> (r: String)
        ensures
            r@ == json_object(self.members()),
            r@ == "{\"device\":"@ + ("{\"identifiers\":"@ + json_string(self.device.identifiers@)
                    + ",\"model\":"@ + json_string(self.device.model@)
                    + ",\"name\":"@ + json_string(self.device.name@)
                    + "}"@)
                + ",\"device_class\":"@ + json_string(self.device_class@)
                + ",\"name\":"@ + json_string(self.name@)
                + ",\"qos\":"@ + decimal(self.qos as nat)
                + ",\"state_class\":"@ + json_string(self.state_class@)
                + ",\"state_topic\":"@ + json_string(self.state_topic@)
                + ",\"unique_id\":"@ + json_string(self.unique_id@)
                + ",\"unit_of_measurement\":"@ + json_string(self.unit_of_measurement@)
                + "}"@,
    {
        proof {
            reveal_strlit("device");
            reveal_strlit("device_class");
            reveal_strlit("name");
            reveal_strlit("qos");
            reveal_strlit("state_class");
            reveal_strlit("state_topic");
            reveal_strlit("unique_id");
            reveal_strlit("unit_of_measurement");
            assert(parts_at("device"@, "device_class"@, 6));
            assert(parts_at("device_class"@, "name"@, 0));
            assert(parts_at("name"@, "qos"@, 0));
            assert(parts_at("qos"@, "state_class"@, 0));
            assert(parts_at("state_class"@, "state_topic"@, 6));
            assert(parts_at("state_topic"@, "unique_id"@, 0));
            assert(parts_at("unique_id"@, "unit_of_measurement"@, 3));
        }
        let mut o = Object::new();
        o.put("device", self.device.to_value());
        o.put("device_class", string_value(self.device_class));
        o.put("name", string_value(self.name));
        o.put("qos", number_value(self.qos));
        o.put("state_class", string_value(self.state_class));
        o.put("state_topic", string_value(self.state_topic));
        o.put("unique_id", string_value(self.unique_id));
        o.put("unit_of_measurement", string_value(self.unit_of_measurement));
        assert(o.members() =~= self.members());
        proof {
            law_record_is_this_text(*self);
        }
        value_to_string(&o.into_value())
    }
}

impl<'a> ResultTopic<'a> {
    /// The members of the JSON object, by key.
    pub open spec fn members(&self) -> Seq<Member> {
        seq![
            ("command_template"@, json_string(self.command_template@)),
            ("command_topic"@, json_string(self.command_topic@)),
            ("device"@, json_object(self.device.members())),
            ("name"@, json_string(self.name@)),
            ("platform"@, json_string(self.platform@)),
            ("qos"@, decimal(self.qos as nat)),
            ("state_topic"@, json_string(self.state_topic@)),
            ("unique_id"@, json_string(self.unique_id@)),
        ]
    }

    /// The record as JSON text: what Home Assistant is sent.
    pub fn to_json(&self) -> (r: String)
        ensures
            r@ == json_object(self.members()),
            r@ == "{\"command_template\":"@ + json_string(self.command_template@)
                + ",\"command_topic\":"@ + json_string(self.command_topic@)
                + ",\"device\":"@ + ("{\"identifiers\":"@ + json_string(self.device.identifiers@)
                    + ",\"model\":"@ + json_string(self.device.model@)
                    + ",\"name\":"@ + json_string(self.device.name@)
                    + "}"@)
                + ",\"name\":"@ + json_string(self.name@)
                + ",\"platform\":"@ + json_string(self.platform@)
                + ",\"qos\":"@ + decimal(self.qos as nat)
                + ",\"state_topic\":"@ + json_string(self.state_topic@)
                + ",\"unique_id\":"@ + json_string(self.unique_id@)
                + "}"@,
    {
        proof {
            reveal_strlit("command_template");
            reveal_strlit("command_topic");
            reveal_strlit("device");
            reveal_strlit("name");
            reveal_strlit("platform");
            reveal_strlit("qos");
            reveal_strlit("state_topic");
            reveal_strlit("unique_id");
            assert(parts_at("command_template"@, "command_topic"@, 9));
            assert(parts_at("command_topic"@, "device"@, 0));
            assert(parts_at("device"@, "name"@, 0));
            assert(parts_at("name"@, "platform"@, 0));
            assert(parts_at("platform"@, "qos"@, 0));
            assert(parts_at("qos"@, "state_topic"@, 0));
            assert(parts_at("state_topic"@, "unique_id"@, 0));
        }
        let mut o = Object::new();
        o.put("command_template", string_value(self.command_template));
        o.put("command_topic", string_value(self.command_topic));
        o.put("device", self.device.to_value());
        o.put("name", string_value(self.name));
        o.put("platform", string_value(self.platform));
        o.put("qos", number_value(self.qos));
        o.put("state_topic", string_value(self.state_topic));
        o.put("unique_id", string_value(self.unique_id));
        assert(o.members() =~= self.members());
        proof {
            law_result_record_is_this_text(*self);
        }
        value_to_string(&o.into_value())
    }
}

/// The text of an object up to its closing brace.
spec fn opened(m: Seq<Member>) -> Seq<char> {
    json_object(m).drop_last()
}

proof fn lemma_one_more_member(m: Seq<Member>, i: int, lead: Seq<char>)
    requires
        0 <= i < m.len(),
        forall|j: int|
            0 <= j < m[i].0.len() ==> #[trigger] m[i].0[j] != '"' && m[i].0[j] != '\\'
                && m[i].0[j] as int >= 0x20,
        lead =~= seq![if i == 0 { '{' } else { ',' }, '"'] + m[i].0 + seq!['"', ':'],
    ensures
        i == 0 ==> opened(m.take(1)) == lead + m[i].1,
        i > 0 ==> opened(m.take(i + 1)) == opened(m.take(i)) + lead + m[i].1,
{
    let front = m.take(i);
    assert(front.push(m[i]) =~= m.take(i + 1));
    law_ordinary_string_stands_as_it_is(m[i].0);
    law_object_text_grows_by_its_members(front, m[i].0, m[i].1);
    if i == 0 {
        assert(front =~= Seq::<Member>::empty());
        assert(opened(m.take(1)) =~= lead + m[i].1);
    } else {
        assert(opened(m.take(i + 1)) =~= opened(front) + lead + m[i].1);
    }
}

/// The text of an object with the keys of a device.
pub(crate) proof fn lemma_device_text(
    identifiers: Seq<char>,
    model: Seq<char>,
    name: Seq<char>,
)
    ensures
        json_object(
            seq![
                ("identifiers"@, identifiers),
                ("model"@, model),
                ("name"@, name),
            ],
        ) == "{\"identifiers\":"@ + identifiers
            + ",\"model\":"@ + model
            + ",\"name\":"@ + name
            + "}"@,
{
    let m: Seq<Member> = seq![
        ("identifiers"@, identifiers),
        ("model"@, model),
        ("name"@, name),
    ];
    reveal_strlit("}");
    reveal_strlit("identifiers");
    reveal_strlit("{\"identifiers\":");
    lemma_one_more_member(m, 0, "{\"identifiers\":"@);
    reveal_strlit("model");
    reveal_strlit(",\"model\":");
    lemma_one_more_member(m, 1, ",\"model\":"@);
    reveal_strlit("name");
    reveal_strlit(",\"name\":");
    lemma_one_more_member(m, 2, ",\"name\":"@);
    assert(m.take(3) =~= m);
    law_object_text_grows_by_its_members(m.take(2), m[2].0, m[2].1);
    assert(m.take(2).push(m[2]) =~= m);
    assert(json_object(m) =~= opened(m) + "}"@);
}

/// The text of an object with the keys of a record of a measured quantity.
pub(crate) proof fn lemma_measured_text(
    device: Seq<char>,
    device_class: Seq<char>,
    name: Seq<char>,
    qos: Seq<char>,
    state_class: Seq<char>,
    state_topic: Seq<char>,
    unique_id: Seq<char>,
    unit_of_measurement: Seq<char>,
)
    ensures
        json_object(
            seq![
                ("device"@, device),
                ("device_class"@, device_class),
                ("name"@, name),
                ("qos"@, qos),
                ("state_class"@, state_class),
                ("state_topic"@, state_topic),
                ("unique_id"@, unique_id),
                ("unit_of_measurement"@, unit_of_measurement),
            ],
        ) == "{\"device\":"@ + device
            + ",\"device_class\":"@ + device_class
            + ",\"name\":"@ + name
            + ",\"qos\":"@ + qos
            + ",\"state_class\":"@ + state_class
            + ",\"state_topic\":"@ + state_topic
            + ",\"unique_id\":"@ + unique_id
            + ",\"unit_of_measurement\":"@ + unit_of_measurement
            + "}"@,
{
    let m: Seq<Member> = seq![
        ("device"@, device),
        ("device_class"@, device_class),
        ("name"@, name),
        ("qos"@, qos),
        ("state_class"@, state_class),
        ("state_topic"@, state_topic),
        ("unique_id"@, unique_id),
        ("unit_of_measurement"@, unit_of_measurement),
    ];
    reveal_strlit("}");
    reveal_strlit("device");
    reveal_strlit("{\"device\":");
    lemma_one_more_member(m, 0, "{\"device\":"@);
    reveal_strlit("device_class");
    reveal_strlit(",\"device_class\":");
    lemma_one_more_member(m, 1, ",\"device_class\":"@);
    reveal_strlit("name");
    reveal_strlit(",\"name\":");
    lemma_one_more_member(m, 2, ",\"name\":"@);
    reveal_strlit("qos");
    reveal_strlit(",\"qos\":");
    lemma_one_more_member(m, 3, ",\"qos\":"@);
    reveal_strlit("state_class");
    reveal_strlit(",\"state_class\":");
    lemma_one_more_member(m, 4, ",\"state_class\":"@);
    reveal_strlit("state_topic");
    reveal_strlit(",\"state_topic\":");
    lemma_one_more_member(m, 5, ",\"state_topic\":"@);
    reveal_strlit("unique_id");
    reveal_strlit(",\"unique_id\":");
    lemma_one_more_member(m, 6, ",\"unique_id\":"@);
    reveal_strlit("unit_of_measurement");
    reveal_strlit(",\"unit_of_measurement\":");
    lemma_one_more_member(m, 7, ",\"unit_of_measurement\":"@);
    assert(m.take(8) =~= m);
    law_object_text_grows_by_its_members(m.take(7), m[7].0, m[7].1);
    assert(m.take(7).push(m[7]) =~= m);
    assert(json_object(m) =~= opened(m) + "}"@);
}

/// The text of an object with the keys of a record of the previous result.
pub(crate) proof fn lemma_result_text(
    command_template: Seq<char>,
    command_topic: Seq<char>,
    device: Seq<char>,
    name: Seq<char>,
    platform: Seq<char>,
    qos: Seq<char>,
    state_topic: Seq<char>,
    unique_id: Seq<char>,
)
    ensures
        json_object(
            seq![
                ("command_template"@, command_template),
                ("command_topic"@, command_topic),
                ("device"@, device),
                ("name"@, name),
                ("platform"@, platform),
                ("qos"@, qos),
                ("state_topic"@, state_topic),
                ("unique_id"@, unique_id),
            ],
        ) == "{\"command_template\":"@ + command_template
            + ",\"command_topic\":"@ + command_topic
            + ",\"device\":"@ + device
            + ",\"name\":"@ + name
            + ",\"platform\":"@ + platform
            + ",\"qos\":"@ + qos
            + ",\"state_topic\":"@ + state_topic
            + ",\"unique_id\":"@ + unique_id
            + "}"@,
{
    let m: Seq<Member> = seq![
        ("command_template"@, command_template),
        ("command_topic"@, command_topic),
        ("device"@, device),
        ("name"@, name),
        ("platform"@, platform),
        ("qos"@, qos),
        ("state_topic"@, state_topic),
        ("unique_id"@, unique_id),
    ];
    reveal_strlit("}");
    reveal_strlit("command_template");
    reveal_strlit("{\"command_template\":");
    lemma_one_more_member(m, 0, "{\"command_template\":"@);
    reveal_strlit("command_topic");
    reveal_strlit(",\"command_topic\":");
    lemma_one_more_member(m, 1, ",\"command_topic\":"@);
    reveal_strlit("device");
    reveal_strlit(",\"device\":");
    lemma_one_more_member(m, 2, ",\"device\":"@);
    reveal_strlit("name");
    reveal_strlit(",\"name\":");
    lemma_one_more_member(m, 3, ",\"name\":"@);
    reveal_strlit("platform");
    reveal_strlit(",\"platform\":");
    lemma_one_more_member(m, 4, ",\"platform\":"@);
    reveal_strlit("qos");
    reveal_strlit(",\"qos\":");
    lemma_one_more_member(m, 5, ",\"qos\":"@);
    reveal_strlit("state_topic");
    reveal_strlit(",\"state_topic\":");
    lemma_one_more_member(m, 6, ",\"state_topic\":"@);
    reveal_strlit("unique_id");
    reveal_strlit(",\"unique_id\":");
    lemma_one_more_member(m, 7, ",\"unique_id\":"@);
    assert(m.take(8) =~= m);
    law_object_text_grows_by_its_members(m.take(7), m[7].0, m[7].1);
    assert(m.take(7).push(m[7]) =~= m);
    assert(json_object(m) =~= opened(m) + "}"@);
}

/// The text of a device holds each of its fields under the key of that name.
pub proof fn law_device_is_this_text(t: DiscoveryDevice)
    ensures
        json_object(t.members()) == "{\"identifiers\":"@ + json_string(t.identifiers@)
            + ",\"model\":"@ + json_string(t.model@)
            + ",\"name\":"@ + json_string(t.name@)
            + "}"@,
{
    lemma_device_text(
        json_string(t.identifiers@),
        json_string(t.model@),
        json_string(t.name@),
    );
}

/// The text of a record of a measured quantity holds each of its fields under the
/// key of that name.
pub proof fn law_record_is_this_text(t: DiscoveryTopic)
    ensures
        json_object(t.members()) == "{\"device\":"@ + ("{\"identifiers\":"@ + json_string(
            t.device.identifiers@,
        )
                + ",\"model\":"@ + json_string(t.device.model@)
                + ",\"name\":"@ + json_string(t.device.name@)
                + "}"@)
            + ",\"device_class\":"@ + json_string(t.device_class@)
            + ",\"name\":"@ + json_string(t.name@)
            + ",\"qos\":"@ + decimal(t.qos as nat)
            + ",\"state_class\":"@ + json_string(t.state_class@)
            + ",\"state_topic\":"@ + json_string(t.state_topic@)
            + ",\"unique_id\":"@ + json_string(t.unique_id@)
            + ",\"unit_of_measurement\":"@ + json_string(t.unit_of_measurement@)
            + "}"@,
{
    law_device_is_this_text(t.device);
    lemma_measured_text(
        json_object(t.device.members()),
        json_string(t.device_class@),
        json_string(t.name@),
        decimal(t.qos as nat),
        json_string(t.state_class@),
        json_string(t.state_topic@),
        json_string(t.unique_id@),
        json_string(t.unit_of_measurement@),
    );
}

/// The text of a record of the previous result holds each of its fields under the
/// key of that name.
pub proof fn law_result_record_is_this_text(t: ResultTopic)
    ensures
        json_object(t.members()) == "{\"command_template\":"@ + json_string(t.command_template@)
            + ",\"command_topic\":"@ + json_string(t.command_topic@)
            + ",\"device\":"@ + ("{\"identifiers\":"@ + json_string(t.device.identifiers@)
                + ",\"model\":"@ + json_string(t.device.model@)
                + ",\"name\":"@ + json_string(t.device.name@)
                + "}"@)
            + ",\"name\":"@ + json_string(t.name@)
            + ",\"platform\":"@ + json_string(t.platform@)
            + ",\"qos\":"@ + decimal(t.qos as nat)
            + ",\"state_topic\":"@ + json_string(t.state_topic@)
            + ",\"unique_id\":"@ + json_string(t.unique_id@)
            + "}"@,
{
    law_device_is_this_text(t.device);
    lemma_result_text(
        json_string(t.command_template@),
        json_string(t.command_topic@),
        json_object(t.device.members()),
        json_string(t.name@),
        json_string(t.platform@),
        decimal(t.qos as nat),
        json_string(t.state_topic@),
        json_string(t.unique_id@),
    );
}

proof fn lemma_devices_alike(a: DiscoveryDevice, b: DiscoveryDevice)
    ensures
        alike(a.members(), b.members()),
{
    law_strings_are_told_apart(a.identifiers@, b.identifiers@);
    law_strings_are_told_apart(a.model@, b.model@);
    law_strings_are_told_apart(a.name@, b.name@);
}

/// The text of a device tells the device: who reads it can read every field.
pub proof fn law_text_tells_the_device(a: DiscoveryDevice, b: DiscoveryDevice)
    requires
        json_object(a.members()) == json_object(b.members()),
    ensures
        a.identifiers@ == b.identifiers@,
        a.name@ == b.name@,
        a.model@ == b.model@,
{
    let m = a.members();
    let n = b.members();
    lemma_devices_alike(a, b);
    law_text_tells_the_members(m, n);
    assert(m[0] == n[0] && m[1] == n[1] && m[2] == n[2]);
    law_strings_are_told_apart(a.identifiers@, b.identifiers@);
    law_strings_are_told_apart(a.model@, b.model@);
    law_strings_are_told_apart(a.name@, b.name@);
}

/// The text of a record of a measured quantity tells the record: who reads it can
/// read every field.
pub proof fn law_text_tells_the_record(a: DiscoveryTopic, b: DiscoveryTopic)
    requires
        json_object(a.members()) == json_object(b.members()),
    ensures
        a.state_class@ == b.state_class@,
        a.state_topic@ == b.state_topic@,
        a.unique_id@ == b.unique_id@,
        a.name@ == b.name@,
        a.device_class@ == b.device_class@,
        a.device.identifiers@ == b.device.identifiers@,
        a.device.name@ == b.device.name@,
        a.device.model@ == b.device.model@,
        a.unit_of_measurement@ == b.unit_of_measurement@,
        a.qos == b.qos,
{
    let m = a.members();
    let n = b.members();
    lemma_devices_alike(a.device, b.device);
    law_text_tells_the_members(a.device.members(), b.device.members());
    law_strings_are_told_apart(a.device_class@, b.device_class@);
    law_strings_are_told_apart(a.name@, b.name@);
    law_numbers_are_told_apart(a.qos as nat, b.qos as nat);
    law_strings_are_told_apart(a.state_class@, b.state_class@);
    law_strings_are_told_apart(a.state_topic@, b.state_topic@);
    law_strings_are_told_apart(a.unique_id@, b.unique_id@);
    law_strings_are_told_apart(a.unit_of_measurement@, b.unit_of_measurement@);
    law_text_tells_the_members(m, n);
    assert(m[0] == n[0] && m[1] == n[1] && m[2] == n[2] && m[3] == n[3]);
    assert(m[4] == n[4] && m[5] == n[5] && m[6] == n[6] && m[7] == n[7]);
    law_text_tells_the_device(a.device, b.device);
}

/// The text of a record of the previous result tells the record: who reads it can
/// read every field.
pub proof fn law_text_tells_the_result_record(a: ResultTopic, b: ResultTopic)
    requires
        json_object(a.members()) == json_object(b.members()),
    ensures
        a.command_template@ == b.command_template@,
        a.platform@ == b.platform@,
        a.qos == b.qos,
        a.unique_id@ == b.unique_id@,
        a.state_topic@ == b.state_topic@,
        a.command_topic@ == b.command_topic@,
        a.name@ == b.name@,
        a.device.identifiers@ == b.device.identifiers@,
        a.device.name@ == b.device.name@,
        a.device.model@ == b.device.model@,
{
    let m = a.members();
    let n = b.members();
    law_strings_are_told_apart(a.command_template@, b.command_template@);
    law_strings_are_told_apart(a.command_topic@, b.command_topic@);
    lemma_devices_alike(a.device, b.device);
    law_text_tells_the_members(a.device.members(), b.device.members());
    law_strings_are_told_apart(a.name@, b.name@);
    law_strings_are_told_apart(a.platform@, b.platform@);
    law_numbers_are_told_apart(a.qos as nat, b.qos as nat);
    law_strings_are_told_apart(a.state_topic@, b.state_topic@);
    law_strings_are_told_apart(a.unique_id@, b.unique_id@);
    law_text_tells_the_members(m, n);
    assert(m[0] == n[0] && m[1] == n[1] && m[2] == n[2] && m[3] == n[3]);
    assert(m[4] == n[4] && m[5] == n[5] && m[6] == n[6] && m[7] == n[7]);
    law_text_tells_the_device(a.device, b.device);
}

} // verus!
