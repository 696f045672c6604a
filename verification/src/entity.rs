//! The entities that the device shows in Home Assistant, and their topics.

use vstd::prelude::*;
use vstd::string::*;

verus! {

/// The name of the device, in its topics and in its records.
pub const NAME: &'static str = "thum";

/// The model of the device.
pub const MODEL: &'static str = "esp32-c3";

/// A quantity that the device measures.
#[derive(Debug, Clone, Copy, PartialEq, Eq, Structural)]
pub enum Quantity {
    Temperature,
    Humidity,
    Rssi,
    Voltage,
}

/// What the device shows: how its previous run ended, and what it measures.
#[derive(Debug, Clone, Copy, PartialEq, Eq, Structural)]
pub enum Entity {
    Result,
    Measured(Quantity),
}

/// The word that stands for an entity in its topics and its identifier.
pub open spec fn word(e: Entity) -> Seq<char> {
    match e {
        Entity::Result => "result"@,
        Entity::Measured(Quantity::Temperature) => "temperature"@,
        Entity::Measured(Quantity::Humidity) => "humidity"@,
        Entity::Measured(Quantity::Rssi) => "rssi"@,
        Entity::Measured(Quantity::Voltage) => "voltage"@,
    }
}

/// The name under which Home Assistant shows a quantity.
pub open spec fn label(q: Quantity) -> Seq<char> {
    match q {
        Quantity::Temperature => "Temperature"@,
        Quantity::Humidity => "Humidity"@,
        Quantity::Rssi => "Rssi"@,
        Quantity::Voltage => "Voltage"@,
    }
}

/// The unit that a quantity is given in.
pub open spec fn unit(q: Quantity) -> Seq<char> {
    match q {
        Quantity::Temperature => "\u{b0}C"@,
        Quantity::Humidity => "%"@,
        Quantity::Rssi => "dBm"@,
        Quantity::Voltage => "V"@,
    }
}

/// The topic on which the state of an entity is published.
pub open spec fn state_topic(e: Entity) -> Seq<char> {
    NAME@ + "/sensor/"@ + word(e) + "/state"@
}

/// The topic on which an entity is announced.
pub open spec fn config_topic(e: Entity) -> Seq<char> {
    "homeassistant/sensor/"@ + NAME@ + "/"@ + word(e) + "/config"@
}

/// The identifier of an entity of the device `uuid`.
pub open spec fn unique_id(uuid: Seq<char>, e: Entity) -> Seq<char> {
    uuid + "_"@ + word(e)
}

impl Entity {
    /// The word that stands for the entity in its topics and its identifier.
    pub fn word(&self) -> (r: &'static str)
        ensures
            r@ == word(*self),
    {
        match self {
            Entity::Result => "result",
            Entity::Measured(Quantity::Temperature) => "temperature",
            Entity::Measured(Quantity::Humidity) => "humidity",
            Entity::Measured(Quantity::Rssi) => "rssi",
            Entity::Measured(Quantity::Voltage) => "voltage",
        }
    }

    /// The topic on which the state of the entity is published.
    pub fn state_topic(&self) -> (r: String)
        ensures
            r@ == state_topic(*self),
    {
        NAME.to_owned().concat("/sensor/").concat(self.word()).concat("/state")
    }

    /// The topic on which the entity is announced.
    pub fn config_topic(&self) -> (r: String)
        ensures
            r@ == config_topic(*self),
    {
        "homeassistant/sensor/".to_owned().concat(NAME).concat("/").concat(self.word()).concat(
            "/config",
        )
    }

    /// The identifier of the entity, for the device `uuid`.
    pub fn unique_id(&self, uuid: &str) -> (r: String)
        ensures
            r@ == unique_id(uuid@, *self),
    {
        uuid.to_owned().concat("_").concat(self.word())
    }
}

impl Quantity {
    /// The name under which Home Assistant shows the quantity.
    pub fn label(&self) -> (r: &'static str)
        ensures
            r@ == label(*self),
    {
        match self {
            Quantity::Temperature => "Temperature",
            Quantity::Humidity => "Humidity",
            Quantity::Rssi => "Rssi",
            Quantity::Voltage => "Voltage",
        }
    }

    /// The unit that the quantity is given in.
    pub fn unit(&self) -> (r: &'static str)
        ensures
            r@ == unit(*self),
    {
        match self {
            Quantity::Temperature => "\u{b0}C",
            Quantity::Humidity => "%",
            Quantity::Rssi => "dBm",
            Quantity::Voltage => "V",
        }
    }
}

/// Two entities of one device differ in the topic that announces them, in the
/// topic of their state and in their identifier.
pub proof fn law_entities_are_told_apart(uuid: Seq<char>, a: Entity, b: Entity)
    requires
        a != b,
    ensures
        state_topic(a) != state_topic(b),
        config_topic(a) != config_topic(b),
        unique_id(uuid, a) != unique_id(uuid, b),
{
    lemma_words_differ(a, b);
    lemma_framed(NAME@ + "/sensor/"@, word(a), word(b), "/state"@);
    lemma_framed("homeassistant/sensor/"@ + NAME@ + "/"@, word(a), word(b), "/config"@);
    lemma_framed(uuid + "_"@, word(a), word(b), Seq::empty());
    assert(unique_id(uuid, a) + Seq::<char>::empty() =~= unique_id(uuid, a));
    assert(unique_id(uuid, b) + Seq::<char>::empty() =~= unique_id(uuid, b));
}

/// Each entity has these two topics.
pub proof fn law_topics_are_these(e: Entity)
    ensures
        state_topic(e) == (match e {
            Entity::Result => "thum/sensor/result/state"@,
            Entity::Measured(Quantity::Temperature) => "thum/sensor/temperature/state"@,
            Entity::Measured(Quantity::Humidity) => "thum/sensor/humidity/state"@,
            Entity::Measured(Quantity::Rssi) => "thum/sensor/rssi/state"@,
            Entity::Measured(Quantity::Voltage) => "thum/sensor/voltage/state"@,
        }),
        config_topic(e) == (match e {
            Entity::Result => "homeassistant/sensor/thum/result/config"@,
            Entity::Measured(Quantity::Temperature) => "homeassistant/sensor/thum/temperature/config"@,
            Entity::Measured(Quantity::Humidity) => "homeassistant/sensor/thum/humidity/config"@,
            Entity::Measured(Quantity::Rssi) => "homeassistant/sensor/thum/rssi/config"@,
            Entity::Measured(Quantity::Voltage) => "homeassistant/sensor/thum/voltage/config"@,
        }),
{
    reveal_strlit("thum");
    reveal_strlit("/sensor/");
    reveal_strlit("/state");
    reveal_strlit("homeassistant/sensor/");
    reveal_strlit("/");
    reveal_strlit("/config");
    match e {
        Entity::Result => {
            reveal_strlit("result");
            reveal_strlit("thum/sensor/result/state");
            reveal_strlit("homeassistant/sensor/thum/result/config");
            assert(state_topic(e) =~= "thum/sensor/result/state"@);
            assert(config_topic(e) =~= "homeassistant/sensor/thum/result/config"@);
        },
        Entity::Measured(Quantity::Temperature) => {
            reveal_strlit("temperature");
            reveal_strlit("thum/sensor/temperature/state");
            reveal_strlit("homeassistant/sensor/thum/temperature/config");
            assert(state_topic(e) =~= "thum/sensor/temperature/state"@);
            assert(config_topic(e) =~= "homeassistant/sensor/thum/temperature/config"@);
        },
        Entity::Measured(Quantity::Humidity) => {
            reveal_strlit("humidity");
            reveal_strlit("thum/sensor/humidity/state");
            reveal_strlit("homeassistant/sensor/thum/humidity/config");
            assert(state_topic(e) =~= "thum/sensor/humidity/state"@);
            assert(config_topic(e) =~= "homeassistant/sensor/thum/humidity/config"@);
        },
        Entity::Measured(Quantity::Rssi) => {
            reveal_strlit("rssi");
            reveal_strlit("thum/sensor/rssi/state");
            reveal_strlit("homeassistant/sensor/thum/rssi/config");
            assert(state_topic(e) =~= "thum/sensor/rssi/state"@);
            assert(config_topic(e) =~= "homeassistant/sensor/thum/rssi/config"@);
        },
        Entity::Measured(Quantity::Voltage) => {
            reveal_strlit("voltage");
            reveal_strlit("thum/sensor/voltage/state");
            reveal_strlit("homeassistant/sensor/thum/voltage/config");
            assert(state_topic(e) =~= "thum/sensor/voltage/state"@);
            assert(config_topic(e) =~= "homeassistant/sensor/thum/voltage/config"@);
        },
    }
}

/// The identifier of an entity starts with that of the device, whatever that is,
/// and ends with the entity.
pub proof fn law_unique_id_starts_with_the_device(uuid: Seq<char>, e: Entity)
    ensures
        unique_id(uuid, e).take(uuid.len() as int) == uuid,
        unique_id(uuid, e).skip(uuid.len() as int) == (match e {
            Entity::Result => "_result"@,
            Entity::Measured(Quantity::Temperature) => "_temperature"@,
            Entity::Measured(Quantity::Humidity) => "_humidity"@,
            Entity::Measured(Quantity::Rssi) => "_rssi"@,
            Entity::Measured(Quantity::Voltage) => "_voltage"@,
        }),
{
    reveal_strlit("_");
    assert(unique_id(uuid, e).take(uuid.len() as int) =~= uuid);
    assert(unique_id(uuid, e).skip(uuid.len() as int) =~= "_"@ + word(e));
    match e {
        Entity::Result => {
            reveal_strlit("result");
            reveal_strlit("_result");
            assert("_"@ + word(e) =~= "_result"@);
        },
        Entity::Measured(Quantity::Temperature) => {
            reveal_strlit("temperature");
            reveal_strlit("_temperature");
            assert("_"@ + word(e) =~= "_temperature"@);
        },
        Entity::Measured(Quantity::Humidity) => {
            reveal_strlit("humidity");
            reveal_strlit("_humidity");
            assert("_"@ + word(e) =~= "_humidity"@);
        },
        Entity::Measured(Quantity::Rssi) => {
            reveal_strlit("rssi");
            reveal_strlit("_rssi");
            assert("_"@ + word(e) =~= "_rssi"@);
        },
        Entity::Measured(Quantity::Voltage) => {
            reveal_strlit("voltage");
            reveal_strlit("_voltage");
            assert("_"@ + word(e) =~= "_voltage"@);
        },
    }
}

/// Two devices differ in the identifier of each entity.
pub proof fn law_devices_are_told_apart(a: Seq<char>, b: Seq<char>, e: Entity)
    requires
        a != b,
    ensures
        unique_id(a, e) != unique_id(b, e),
{
    lemma_framed(Seq::empty(), a, b, "_"@ + word(e));
    assert(Seq::<char>::empty() + a + ("_"@ + word(e)) =~= unique_id(a, e));
    assert(Seq::<char>::empty() + b + ("_"@ + word(e)) =~= unique_id(b, e));
}

/// Announcements and states go to different topics, whatever the entities.
pub proof fn law_announcements_and_states_do_not_mix(a: Entity, b: Entity)
    ensures
        config_topic(a) != state_topic(b),
{
    reveal_strlit("thum");
    reveal_strlit("homeassistant/sensor/");
    assert(config_topic(a)[0] == 'h');
    assert(state_topic(b)[0] == 't');
}

proof fn lemma_words_differ(a: Entity, b: Entity)
    requires
        a != b,
    ensures
        word(a) != word(b),
{
    reveal_strlit("result");
    reveal_strlit("temperature");
    reveal_strlit("humidity");
    reveal_strlit("rssi");
    reveal_strlit("voltage");
    assert("result"@[1] == 'e');
    assert("rssi"@[1] == 's');
    assert("temperature"@[0] == 't');
    assert("humidity"@[0] == 'h');
    assert("voltage"@[0] == 'v');
    assert("result"@[0] == 'r');
    assert("rssi"@[0] == 'r');
}

proof fn lemma_framed(front: Seq<char>, a: Seq<char>, b: Seq<char>, back: Seq<char>)
    requires
        a != b,
    ensures
        front + a + back != front + b + back,
{
    let x = front + a + back;
    let y = front + b + back;
    if x == y {
        assert(x.len() == front.len() + a.len() + back.len());
        assert(y.len() == front.len() + b.len() + back.len());
        assert forall|i: int| 0 <= i < a.len() implies a[i] == b[i] by {
            assert(x[front.len() + i] == y[front.len() + i]);
        }
        assert(a =~= b);
    }
}

} // verus!
