//! One run of the device, step by step: it measures, joins the network, and
//! publishes.

use crate::config::Config;
use crate::entity::{law_entities_are_told_apart, state_topic, Entity, Quantity};
use crate::json::json_string;
use crate::publication::{
    announcement, climate_messages, law_record_names_the_state_topic, publish_result, publish_rssi,
    publish_sht_data, publish_voltage, record_members, result_messages, rssi_messages,
    state_message, views, voltage_messages, Publication, PublicationView, QoS,
};
use crate::text::integer;
use crate::voltage::{hundredths, two_places};
use crate::wake::{debugged, law_outcome_reads_back, outcome, previous, shown};
use crate::wifi::ending;
use vstd::prelude::*;
use vstd::string::*;
use vstd::utf8::*;

verus! {

/// To how many places the temperature is published.
pub const TEMPERATURE_PLACES: usize = 2;

/// To how many places the humidity is published.
pub const HUMIDITY_PLACES: usize = 1;

/// What a run is given.
#[derive(Debug)]
pub struct Job<'a> {
    pub config: Config,
    /// The identifier of the device.
    pub uuid: &'a str,
    /// How the previous run ended.
    pub previous: &'a str,
}

/// What a run has found out.
#[derive(Debug)]
pub struct Readings {
    pub temperature: String,
    pub humidity: String,
    pub millivolts: u16,
    pub rssi: i32,
}

/// The part of a run that is under way.
#[derive(Debug, Clone, Copy, PartialEq, Eq, Structural)]
pub enum Stage {
    TakePeripherals,
    TakeEventLoop,
    Measure,
    SampleVoltage,
    JoinWifi,
    OpenBroker,
    PublishResult,
    PublishClimate,
    ReadRssi,
    PublishRssi,
    CheckLink,
    PublishVoltage,
}

/// How far a run has come.
#[derive(Debug)]
pub enum Progress {
    /// This stage is under way, and so many of its messages are sent.
    At(Stage, usize),
    /// Nothing is left to do.
    Ended(Result<(), String>),
}

/// A run: how far it has come, and what it has found out.
#[derive(Debug)]
pub struct Run {
    pub progress: Progress,
    pub readings: Readings,
}

/// What has come of the step that was under way.
#[derive(Debug)]
pub enum Event {
    Done,
    /// The measured temperature and humidity, as texts.
    Climate(String, String),
    /// The sampled voltage.
    Millivolts(u16),
    /// The strength of the WiFi signal, in dBm.
    Rssi(i32),
    /// Whether the link was up.
    Link(bool),
    Failed(String),
}

/// What is to be done next.
#[derive(Debug)]
pub enum Action {
    TakePeripherals,
    TakeEventLoop,
    Measure,
    SampleVoltage,
    /// Join the network of that name, with that password.
    JoinWifi(String, String),
    /// Connect to the broker at that address.
    OpenBroker(String),
    Publish(Publication),
    ReadRssi,
    CheckLink,
    /// Nothing: the run has ended so.
    End(Result<(), String>),
}

/// What a run is given.
pub struct JobView {
    pub ssid: Seq<char>,
    pub psk: Seq<char>,
    pub broker_url: Seq<char>,
    pub uuid: Seq<char>,
    pub previous: Seq<char>,
}

/// What a run has found out.
#[verifier::ext_equal]
pub struct ReadingsView {
    pub temperature: Seq<char>,
    pub humidity: Seq<char>,
    pub millivolts: u16,
    pub rssi: i32,
}

/// How far a run has come.
pub enum ProgressView {
    At(Stage, int),
    Ended(Result<(), Seq<char>>),
}

/// A run: how far it has come, and what it has found out.
#[verifier::ext_equal]
pub struct RunView {
    pub progress: ProgressView,
    pub readings: ReadingsView,
}

/// What has come of a step.
pub enum EventView {
    Done,
    Climate(Seq<char>, Seq<char>),
    Millivolts(u16),
    Rssi(i32),
    Link(bool),
    Failed(Seq<char>),
}

/// What is to be done.
pub enum ActionView {
    TakePeripherals,
    TakeEventLoop,
    Measure,
    SampleVoltage,
    JoinWifi(Seq<char>, Seq<char>),
    OpenBroker(Seq<char>),
    Publish(PublicationView),
    ReadRssi,
    CheckLink,
    End(Result<(), Seq<char>>),
}

impl<'a> View for Job<'a> {
    type V = JobView;

    open spec fn view(&self) -> JobView {
        JobView {
            ssid: self.config.wifi_ssid@,
            psk: self.config.wifi_psk@,
            broker_url: self.config.spec_broker_url(),
            uuid: self.uuid@,
            previous: self.previous@,
        }
    }
}

impl View for Readings {
    type V = ReadingsView;

    open spec fn view(&self) -> ReadingsView {
        ReadingsView {
            temperature: self.temperature@,
            humidity: self.humidity@,
            millivolts: self.millivolts,
            rssi: self.rssi,
        }
    }
}

impl View for Progress {
    type V = ProgressView;

    open spec fn view(&self) -> ProgressView {
        match self {
            Progress::At(stage, sent) => ProgressView::At(*stage, *sent as int),
            Progress::Ended(r) => ProgressView::Ended(ending(*r)),
        }
    }
}

impl View for Run {
    type V = RunView;

    open spec fn view(&self) -> RunView {
        RunView { progress: self.progress@, readings: self.readings@ }
    }
}

impl View for Event {
    type V = EventView;

    open spec fn view(&self) -> EventView {
        match self {
            Event::Done => EventView::Done,
            Event::Climate(t, h) => EventView::Climate(t@, h@),
            Event::Millivolts(mv) => EventView::Millivolts(*mv),
            Event::Rssi(rssi) => EventView::Rssi(*rssi),
            Event::Link(up) => EventView::Link(*up),
            Event::Failed(e) => EventView::Failed(e@),
        }
    }
}

impl View for Action {
    type V = ActionView;

    open spec fn view(&self) -> ActionView {
        match self {
            Action::TakePeripherals => ActionView::TakePeripherals,
            Action::TakeEventLoop => ActionView::TakeEventLoop,
            Action::Measure => ActionView::Measure,
            Action::SampleVoltage => ActionView::SampleVoltage,
            Action::JoinWifi(ssid, pass) => ActionView::JoinWifi(ssid@, pass@),
            Action::OpenBroker(url) => ActionView::OpenBroker(url@),
            Action::Publish(p) => ActionView::Publish(p@),
            Action::ReadRssi => ActionView::ReadRssi,
            Action::CheckLink => ActionView::CheckLink,
            Action::End(r) => ActionView::End(ending(*r)),
        }
    }
}

/// The messages of a stage.
pub open spec fn messages(job: JobView, readings: ReadingsView, stage: Stage) -> Seq<
    PublicationView,
> {
    match stage {
        Stage::PublishResult => result_messages(job.uuid, job.previous),
        Stage::PublishClimate => climate_messages(
            job.uuid,
            readings.temperature,
            readings.humidity,
        ),
        Stage::PublishRssi => rssi_messages(job.uuid, readings.rssi as int),
        Stage::PublishVoltage => voltage_messages(job.uuid, readings.millivolts as nat),
        _ => seq![],
    }
}

/// How many steps a stage has: one for each of its messages, and one where it
/// has none.
pub open spec fn steps(stage: Stage) -> int {
    match stage {
        Stage::PublishClimate => 4,
        Stage::PublishResult | Stage::PublishRssi | Stage::PublishVoltage => 2,
        _ => 1,
    }
}

/// What stands in front of the error where a step fails.
pub open spec fn prefix(stage: Stage, sent: int) -> Seq<char> {
    match stage {
        Stage::Measure => "sht data error: "@,
        Stage::JoinWifi => "wifi: "@,
        Stage::OpenBroker => "mqtt client: "@,
        Stage::PublishResult => if sent == 0 {
            "p1: "@
        } else {
            ""@
        },
        Stage::PublishClimate => "sht: "@,
        Stage::PublishRssi => if sent == 0 {
            "rssi: "@
        } else {
            "rssi: state: "@
        },
        Stage::CheckLink => "is_up2: "@,
        Stage::PublishVoltage => if sent == 0 {
            "p2: "@
        } else {
            "p3: "@
        },
        _ => ""@,
    }
}

/// Where a run goes on after a stage.
pub open spec fn following(stage: Stage) -> ProgressView {
    match stage {
        Stage::TakePeripherals => ProgressView::At(Stage::TakeEventLoop, 0),
        Stage::TakeEventLoop => ProgressView::At(Stage::Measure, 0),
        Stage::Measure => ProgressView::At(Stage::SampleVoltage, 0),
        Stage::SampleVoltage => ProgressView::At(Stage::JoinWifi, 0),
        Stage::JoinWifi => ProgressView::At(Stage::OpenBroker, 0),
        Stage::OpenBroker => ProgressView::At(Stage::PublishResult, 0),
        Stage::PublishResult => ProgressView::At(Stage::PublishClimate, 0),
        Stage::PublishClimate => ProgressView::At(Stage::ReadRssi, 0),
        Stage::ReadRssi => ProgressView::At(Stage::PublishRssi, 0),
        Stage::PublishRssi => ProgressView::At(Stage::CheckLink, 0),
        Stage::CheckLink => ProgressView::At(Stage::PublishVoltage, 0),
        Stage::PublishVoltage => ProgressView::Ended(Ok(())),
    }
}

/// Whether a stage has the step that a run has come to.
pub open spec fn well_formed(run: RunView) -> bool {
    match run.progress {
        ProgressView::At(stage, sent) => 0 <= sent < steps(stage),
        ProgressView::Ended(_) => true,
    }
}

/// Whether the event is an answer to the step that is under way.
pub open spec fn answers(run: RunView, event: EventView) -> bool {
    match run.progress {
        ProgressView::At(stage, _) => match event {
            EventView::Done => stage != Stage::Measure && stage != Stage::SampleVoltage && stage
                != Stage::ReadRssi && stage != Stage::CheckLink,
            EventView::Climate(_, _) => stage == Stage::Measure,
            EventView::Millivolts(_) => stage == Stage::SampleVoltage,
            EventView::Rssi(_) => stage == Stage::ReadRssi,
            EventView::Link(_) => stage == Stage::CheckLink,
            EventView::Failed(_) => true,
        },
        ProgressView::Ended(_) => false,
    }
}

/// What a run knows after the event.
pub open spec fn noted(readings: ReadingsView, event: EventView) -> ReadingsView {
    match event {
        EventView::Climate(temperature, humidity) => ReadingsView {
            temperature,
            humidity,
            ..readings
        },
        EventView::Millivolts(millivolts) => ReadingsView { millivolts, ..readings },
        EventView::Rssi(rssi) => ReadingsView { rssi, ..readings },
        _ => readings,
    }
}

/// A run after the event. A step that fails ends it with the error; otherwise
/// the next message of the stage is due, or the next stage. Whether the link is
/// up does not matter, if only it could be asked.
pub open spec fn next(run: RunView, event: EventView) -> RunView {
    RunView {
        progress: match run.progress {
            ProgressView::Ended(_) => run.progress,
            ProgressView::At(stage, sent) => match event {
                EventView::Failed(e) => ProgressView::Ended(Err(prefix(stage, sent) + e)),
                _ => if sent + 1 < steps(stage) {
                    ProgressView::At(stage, sent + 1)
                } else {
                    following(stage)
                },
            },
        },
        readings: noted(run.readings, event),
    }
}

/// What is to be done where a run has come so far.
pub open spec fn action(job: JobView, run: RunView) -> ActionView {
    match run.progress {
        ProgressView::At(stage, sent) => match stage {
            Stage::TakePeripherals => ActionView::TakePeripherals,
            Stage::TakeEventLoop => ActionView::TakeEventLoop,
            Stage::Measure => ActionView::Measure,
            Stage::SampleVoltage => ActionView::SampleVoltage,
            Stage::JoinWifi => ActionView::JoinWifi(job.ssid, job.psk),
            Stage::OpenBroker => ActionView::OpenBroker(job.broker_url),
            Stage::ReadRssi => ActionView::ReadRssi,
            Stage::CheckLink => ActionView::CheckLink,
            _ => ActionView::Publish(messages(job, run.readings, stage)[sent]),
        },
        ProgressView::Ended(r) => ActionView::End(r),
    }
}

/// A run before its first step.
pub open spec fn start() -> RunView {
    RunView {
        progress: ProgressView::At(Stage::TakePeripherals, 0),
        readings: ReadingsView { temperature: ""@, humidity: ""@, millivolts: 0, rssi: 0 },
    }
}

impl Stage {
    fn steps(&self) -> (n: usize)
        ensures
            n == steps(*self),
    {
        match self {
            Stage::PublishClimate => 4,
            Stage::PublishResult | Stage::PublishRssi | Stage::PublishVoltage => 2,
            _ => 1,
        }
    }

    fn prefix(&self, sent: usize) -> (s: &'static str)
        ensures
            s@ == prefix(*self, sent as int),
    {
        match self {
            Stage::Measure => "sht data error: ",
            Stage::JoinWifi => "wifi: ",
            Stage::OpenBroker => "mqtt client: ",
            Stage::PublishResult => if sent == 0 {
                "p1: "
            } else {
                ""
            },
            Stage::PublishClimate => "sht: ",
            Stage::PublishRssi => if sent == 0 {
                "rssi: "
            } else {
                "rssi: state: "
            },
            Stage::CheckLink => "is_up2: ",
            Stage::PublishVoltage => if sent == 0 {
                "p2: "
            } else {
                "p3: "
            },
            _ => "",
        }
    }

    fn following(&self) -> (p: Progress)
        ensures
            p@ == following(*self),
            p == (match *self {
                Stage::TakePeripherals => Progress::At(Stage::TakeEventLoop, 0),
                Stage::TakeEventLoop => Progress::At(Stage::Measure, 0),
                Stage::Measure => Progress::At(Stage::SampleVoltage, 0),
                Stage::SampleVoltage => Progress::At(Stage::JoinWifi, 0),
                Stage::JoinWifi => Progress::At(Stage::OpenBroker, 0),
                Stage::OpenBroker => Progress::At(Stage::PublishResult, 0),
                Stage::PublishResult => Progress::At(Stage::PublishClimate, 0),
                Stage::PublishClimate => Progress::At(Stage::ReadRssi, 0),
                Stage::ReadRssi => Progress::At(Stage::PublishRssi, 0),
                Stage::PublishRssi => Progress::At(Stage::CheckLink, 0),
                Stage::CheckLink => Progress::At(Stage::PublishVoltage, 0),
                Stage::PublishVoltage => Progress::Ended(Ok(())),
            }),
    {
        match self {
            Stage::TakePeripherals => Progress::At(Stage::TakeEventLoop, 0),
            Stage::TakeEventLoop => Progress::At(Stage::Measure, 0),
            Stage::Measure => Progress::At(Stage::SampleVoltage, 0),
            Stage::SampleVoltage => Progress::At(Stage::JoinWifi, 0),
            Stage::JoinWifi => Progress::At(Stage::OpenBroker, 0),
            Stage::OpenBroker => Progress::At(Stage::PublishResult, 0),
            Stage::PublishResult => Progress::At(Stage::PublishClimate, 0),
            Stage::PublishClimate => Progress::At(Stage::ReadRssi, 0),
            Stage::ReadRssi => Progress::At(Stage::PublishRssi, 0),
            Stage::PublishRssi => Progress::At(Stage::CheckLink, 0),
            Stage::CheckLink => Progress::At(Stage::PublishVoltage, 0),
            Stage::PublishVoltage => Progress::Ended(Ok(())),
        }
    }
}

/// Takes one message out of several.
fn pick(all: Vec<Publication>, i: usize) -> (p: Publication)
    requires
        i < views(all@).len(),
    ensures
        p@ == views(all@)[i as int],
        p == all@[i as int],
{
    let mut all = all;
    all.swap_remove(i)
}

impl Run {
    /// Whether the stage has the step that the run has come to.
    pub fn is_well_formed(&self) -> (r: bool)
        ensures
            r == well_formed(self@),
            r == (match self.progress {
                Progress::At(Stage::PublishClimate, sent) => sent < 4,
                Progress::At(
                    Stage::PublishResult | Stage::PublishRssi | Stage::PublishVoltage,
                    sent,
                ) => sent < 2,
                Progress::At(_, sent) => sent == 0,
                Progress::Ended(_) => true,
            }),
    {
        match &self.progress {
            Progress::At(stage, sent) => *sent < stage.steps(),
            Progress::Ended(_) => true,
        }
    }

    /// Whether the event is an answer to the step that is under way.
    pub fn answered_by(&self, event: &Event) -> (r: bool)
        ensures
            r == answers(self@, event@),
            r == (match self.progress {
                Progress::At(stage, _) => match *event {
                    Event::Done => stage != Stage::Measure && stage != Stage::SampleVoltage
                        && stage != Stage::ReadRssi && stage != Stage::CheckLink,
                    Event::Climate(_, _) => stage == Stage::Measure,
                    Event::Millivolts(_) => stage == Stage::SampleVoltage,
                    Event::Rssi(_) => stage == Stage::ReadRssi,
                    Event::Link(_) => stage == Stage::CheckLink,
                    Event::Failed(_) => true,
                },
                Progress::Ended(_) => false,
            }),
    {
        match &self.progress {
            Progress::At(stage, _) => match event {
                Event::Done => *stage != Stage::Measure && *stage != Stage::SampleVoltage && *stage
                    != Stage::ReadRssi && *stage != Stage::CheckLink,
                Event::Climate(_, _) => *stage == Stage::Measure,
                Event::Millivolts(_) => *stage == Stage::SampleVoltage,
                Event::Rssi(_) => *stage == Stage::ReadRssi,
                Event::Link(_) => *stage == Stage::CheckLink,
                Event::Failed(_) => true,
            },
            Progress::Ended(_) => false,
        }
    }

    /// What is to be done where the run has come so far.
    fn action(&self, job: &Job) -> (a: Action)
        requires
            well_formed(self@),
        ensures
            a@ == action(job@, self@),
            match self.progress {
                Progress::At(stage, sent) => match stage {
                    Stage::TakePeripherals => a is TakePeripherals,
                    Stage::TakeEventLoop => a is TakeEventLoop,
                    Stage::Measure => a is Measure,
                    Stage::SampleVoltage => a is SampleVoltage,
                    Stage::JoinWifi => a matches Action::JoinWifi(s, p) && s@
                        == job.config.wifi_ssid@ && p@ == job.config.wifi_psk@,
                    Stage::OpenBroker => a matches Action::OpenBroker(url) && url@ == "mqtt://"@
                        + job.config.mqtt_user@ + ":"@ + job.config.mqtt_pass@ + "@"@
                        + job.config.mqtt_host@,
                    Stage::PublishResult => a matches Action::Publish(p)
                        && p.qos == QoS::AtLeastOnce && (p.retain <==> sent < 1) && p.topic@ == (if sent == 0 {
                            "homeassistant/sensor/thum/result/config"@
                        } else {
                            "thum/sensor/result/state"@
                        }) && p.payload@ == (if sent == 0 {
                            announcement(job.uuid@, Entity::Result).payload
                        } else {
                            job.previous@
                        }),
                    Stage::PublishClimate => a matches Action::Publish(p)
                        && p.qos == QoS::AtLeastOnce && (p.retain <==> sent < 2) && p.topic@ == (if sent == 0 {
                            "homeassistant/sensor/thum/temperature/config"@
                        } else if sent == 1 {
                            "homeassistant/sensor/thum/humidity/config"@
                        } else if sent == 2 {
                            "thum/sensor/temperature/state"@
                        } else {
                            "thum/sensor/humidity/state"@
                        }) && p.payload@ == (if sent == 0 {
                            announcement(job.uuid@, Entity::Measured(Quantity::Temperature)).payload
                        } else if sent == 1 {
                            announcement(job.uuid@, Entity::Measured(Quantity::Humidity)).payload
                        } else if sent == 2 {
                            self.readings.temperature@
                        } else {
                            self.readings.humidity@
                        }),
                    Stage::ReadRssi => a is ReadRssi,
                    Stage::PublishRssi => a matches Action::Publish(p)
                        && p.qos == QoS::AtLeastOnce && (p.retain <==> sent < 1) && p.topic@ == (if sent == 0 {
                            "homeassistant/sensor/thum/rssi/config"@
                        } else {
                            "thum/sensor/rssi/state"@
                        }) && p.payload@ == (if sent == 0 {
                            announcement(job.uuid@, Entity::Measured(Quantity::Rssi)).payload
                        } else {
                            integer(self.readings.rssi as int)
                        }),
                    Stage::CheckLink => a is CheckLink,
                    Stage::PublishVoltage => a matches Action::Publish(p)
                        && p.qos == QoS::AtLeastOnce && (p.retain <==> sent < 1) && p.topic@ == (if sent == 0 {
                            "homeassistant/sensor/thum/voltage/config"@
                        } else {
                            "thum/sensor/voltage/state"@
                        }) && p.payload@ == (if sent == 0 {
                            announcement(job.uuid@, Entity::Measured(Quantity::Voltage)).payload
                        } else {
                            two_places(hundredths(self.readings.millivolts as nat))
                        }),
                },
                Progress::Ended(Ok(_)) => a == Action::End(Ok(())),
                Progress::Ended(Err(e)) => a matches Action::End(Err(x)) && x@ == e@,
            },
    {
        match &self.progress {
            Progress::At(stage, sent) => match stage {
                Stage::TakePeripherals => Action::TakePeripherals,
                Stage::TakeEventLoop => Action::TakeEventLoop,
                Stage::Measure => Action::Measure,
                Stage::SampleVoltage => Action::SampleVoltage,
                Stage::JoinWifi => Action::JoinWifi(
                    job.config.wifi_ssid.to_owned(),
                    job.config.wifi_psk.to_owned(),
                ),
                Stage::OpenBroker => Action::OpenBroker(job.config.broker_url()),
                Stage::PublishResult => Action::Publish(
                    pick(publish_result(job.uuid, job.previous), *sent),
                ),
                Stage::PublishClimate => Action::Publish(
                    pick(
                        publish_sht_data(
                            job.uuid,
                            self.readings.temperature.as_str(),
                            self.readings.humidity.as_str(),
                        ),
                        *sent,
                    ),
                ),
                Stage::ReadRssi => Action::ReadRssi,
                Stage::PublishRssi => Action::Publish(
                    pick(publish_rssi(job.uuid, self.readings.rssi), *sent),
                ),
                Stage::CheckLink => Action::CheckLink,
                Stage::PublishVoltage => Action::Publish(
                    pick(publish_voltage(job.uuid, self.readings.millivolts), *sent),
                ),
            },
            Progress::Ended(Ok(_)) => Action::End(Ok(())),
            Progress::Ended(Err(e)) => Action::End(Err(e.clone())),
        }
    }
}

/// Starts a run.
pub fn start_run(job: &Job) -> (r: (Run, Action))
    ensures
        r.0@ == start(),
        r.1@ == action(job@, start()),
        r.0.progress == Progress::At(Stage::TakePeripherals, 0),
        r.1 is TakePeripherals,
{
    let run = Run {
        progress: Progress::At(Stage::TakePeripherals, 0),
        readings: Readings {
            temperature: "".to_owned(),
            humidity: "".to_owned(),
            millivolts: 0,
            rssi: 0,
        },
    };
    let a = run.action(job);
    (run, a)
}

/// Goes on with a run: takes what has come of the step under way, and says what
/// is to be done next.
pub fn main_2(job: &Job, run: Run, event: Event) -> (r: (Run, Action))
    requires
        well_formed(run@),
        answers(run@, event@),
    ensures
        well_formed(r.0@),
        r.0@ == next(run@, event@),
        r.1@ == action(job@, r.0@),
        event matches Event::Failed(e) ==> run.progress matches Progress::At(stage, sent)
            && r.0.progress matches Progress::Ended(Err(x)) && x@ == (match stage {
            Stage::TakePeripherals => ""@,
            Stage::TakeEventLoop => ""@,
            Stage::Measure => "sht data error: "@,
            Stage::SampleVoltage => ""@,
            Stage::JoinWifi => "wifi: "@,
            Stage::OpenBroker => "mqtt client: "@,
            Stage::PublishResult => if sent == 0 {
                "p1: "@
            } else {
                ""@
            },
            Stage::PublishClimate => "sht: "@,
            Stage::ReadRssi => ""@,
            Stage::PublishRssi => if sent == 0 {
                "rssi: "@
            } else {
                "rssi: state: "@
            },
            Stage::CheckLink => "is_up2: "@,
            Stage::PublishVoltage => if sent == 0 {
                "p2: "@
            } else {
                "p3: "@
            },
        }) + e@,
        !(event is Failed) ==> (run.progress matches Progress::At(stage, sent) && r.0.progress
            == (match stage {
            Stage::TakePeripherals => Progress::At(Stage::TakeEventLoop, 0),
            Stage::TakeEventLoop => Progress::At(Stage::Measure, 0),
            Stage::Measure => Progress::At(Stage::SampleVoltage, 0),
            Stage::SampleVoltage => Progress::At(Stage::JoinWifi, 0),
            Stage::JoinWifi => Progress::At(Stage::OpenBroker, 0),
            Stage::OpenBroker => Progress::At(Stage::PublishResult, 0),
            Stage::PublishResult => if sent < 1 {
                Progress::At(Stage::PublishResult, (sent + 1) as usize)
            } else {
                Progress::At(Stage::PublishClimate, 0)
            },
            Stage::PublishClimate => if sent < 3 {
                Progress::At(Stage::PublishClimate, (sent + 1) as usize)
            } else {
                Progress::At(Stage::ReadRssi, 0)
            },
            Stage::ReadRssi => Progress::At(Stage::PublishRssi, 0),
            Stage::PublishRssi => if sent < 1 {
                Progress::At(Stage::PublishRssi, (sent + 1) as usize)
            } else {
                Progress::At(Stage::CheckLink, 0)
            },
            Stage::CheckLink => Progress::At(Stage::PublishVoltage, 0),
            Stage::PublishVoltage => if sent < 1 {
                Progress::At(Stage::PublishVoltage, (sent + 1) as usize)
            } else {
                Progress::Ended(Ok(()))
            },
        })),
        r.0.readings.temperature@ == (match event {
            Event::Climate(t, _) => t@,
            _ => run.readings.temperature@,
        }),
        r.0.readings.humidity@ == (match event {
            Event::Climate(_, h) => h@,
            _ => run.readings.humidity@,
        }),
        r.0.readings.millivolts == (match event {
            Event::Millivolts(mv) => mv,
            _ => run.readings.millivolts,
        }),
        r.0.readings.rssi == (match event {
            Event::Rssi(rssi) => rssi,
            _ => run.readings.rssi,
        }),
        match r.0.progress {
            Progress::At(stage, sent) => match stage {
                Stage::TakePeripherals => r.1 is TakePeripherals,
                Stage::TakeEventLoop => r.1 is TakeEventLoop,
                Stage::Measure => r.1 is Measure,
                Stage::SampleVoltage => r.1 is SampleVoltage,
                Stage::JoinWifi => r.1 matches Action::JoinWifi(s, p) && s@ == job.config.wifi_ssid@
                    && p@ == job.config.wifi_psk@,
                Stage::OpenBroker => r.1 matches Action::OpenBroker(url) && url@ == "mqtt://"@
                    + job.config.mqtt_user@ + ":"@ + job.config.mqtt_pass@ + "@"@
                    + job.config.mqtt_host@,
                Stage::PublishResult => r.1 matches Action::Publish(p)
                    && p.qos == QoS::AtLeastOnce && (p.retain <==> sent < 1) && p.topic@ == (if sent == 0 {
                        "homeassistant/sensor/thum/result/config"@
                    } else {
                        "thum/sensor/result/state"@
                    }) && p.payload@ == (if sent == 0 {
                        announcement(job.uuid@, Entity::Result).payload
                    } else {
                        job.previous@
                    }),
                Stage::PublishClimate => r.1 matches Action::Publish(p)
                    && p.qos == QoS::AtLeastOnce && (p.retain <==> sent < 2) && p.topic@ == (if sent == 0 {
                        "homeassistant/sensor/thum/temperature/config"@
                    } else if sent == 1 {
                        "homeassistant/sensor/thum/humidity/config"@
                    } else if sent == 2 {
                        "thum/sensor/temperature/state"@
                    } else {
                        "thum/sensor/humidity/state"@
                    }) && p.payload@ == (if sent == 0 {
                        announcement(job.uuid@, Entity::Measured(Quantity::Temperature)).payload
                    } else if sent == 1 {
                        announcement(job.uuid@, Entity::Measured(Quantity::Humidity)).payload
                    } else if sent == 2 {
                        r.0.readings.temperature@
                    } else {
                        r.0.readings.humidity@
                    }),
                Stage::ReadRssi => r.1 is ReadRssi,
                Stage::PublishRssi => r.1 matches Action::Publish(p)
                    && p.qos == QoS::AtLeastOnce && (p.retain <==> sent < 1) && p.topic@ == (if sent == 0 {
                        "homeassistant/sensor/thum/rssi/config"@
                    } else {
                        "thum/sensor/rssi/state"@
                    }) && p.payload@ == (if sent == 0 {
                        announcement(job.uuid@, Entity::Measured(Quantity::Rssi)).payload
                    } else {
                        integer(r.0.readings.rssi as int)
                    }),
                Stage::CheckLink => r.1 is CheckLink,
                Stage::PublishVoltage => r.1 matches Action::Publish(p)
                    && p.qos == QoS::AtLeastOnce && (p.retain <==> sent < 1) && p.topic@ == (if sent == 0 {
                        "homeassistant/sensor/thum/voltage/config"@
                    } else {
                        "thum/sensor/voltage/state"@
                    }) && p.payload@ == (if sent == 0 {
                        announcement(job.uuid@, Entity::Measured(Quantity::Voltage)).payload
                    } else {
                        two_places(hundredths(r.0.readings.millivolts as nat))
                    }),
            },
            Progress::Ended(Ok(_)) => r.1 == Action::End(Ok(())),
            Progress::Ended(Err(e)) => r.1 matches Action::End(Err(x)) && x@ == e@,
        },
{
    let Run { progress, readings } = run;
    let mut readings = readings;
    let after = match progress {
        Progress::Ended(r) => Progress::Ended(r),
        Progress::At(stage, sent) => match &event {
            Event::Failed(e) => Progress::Ended(
                Err(stage.prefix(sent).to_owned().concat(e.as_str())),
            ),
            _ => if sent + 1 < stage.steps() {
                Progress::At(stage, sent + 1)
            } else {
                stage.following()
            },
        },
    };
    match event {
        Event::Climate(temperature, humidity) => {
            readings.temperature = temperature;
            readings.humidity = humidity;
        },
        Event::Millivolts(millivolts) => {
            readings.millivolts = millivolts;
        },
        Event::Rssi(rssi) => {
            readings.rssi = rssi;
        },
        _ => {},
    }
    let run = Run { progress: after, readings };
    let a = run.action(job);
    (run, a)
}

/// A step that fails ends the run, and the error tells which step it was: these
/// words, and then the error as it is.
pub proof fn law_errors_tell_the_step(run: RunView, stage: Stage, sent: int, error: Seq<char>)
    requires
        run.progress == ProgressView::At(stage, sent),
    ensures
        next(run, EventView::Failed(error)).progress matches ProgressView::Ended(Err(text)) && text
            == (match stage {
            Stage::TakePeripherals => ""@,
            Stage::TakeEventLoop => ""@,
            Stage::Measure => "sht data error: "@,
            Stage::SampleVoltage => ""@,
            Stage::JoinWifi => "wifi: "@,
            Stage::OpenBroker => "mqtt client: "@,
            Stage::PublishResult => if sent == 0 {
                "p1: "@
            } else {
                ""@
            },
            Stage::PublishClimate => "sht: "@,
            Stage::ReadRssi => ""@,
            Stage::PublishRssi => if sent == 0 {
                "rssi: "@
            } else {
                "rssi: state: "@
            },
            Stage::CheckLink => "is_up2: "@,
            Stage::PublishVoltage => if sent == 0 {
                "p2: "@
            } else {
                "p3: "@
            },
        }) + error,
{
}

/// A step that succeeds is followed by this one, and by nothing after the last,
/// whatever was found out.
pub proof fn law_steps_follow_in_order(run: RunView, stage: Stage, sent: int, event: EventView)
    requires
        run.progress == ProgressView::At(stage, sent),
        0 <= sent,
        !(event is Failed),
    ensures
        next(run, event).progress == (match stage {
            Stage::TakePeripherals => ProgressView::At(Stage::TakeEventLoop, 0),
            Stage::TakeEventLoop => ProgressView::At(Stage::Measure, 0),
            Stage::Measure => ProgressView::At(Stage::SampleVoltage, 0),
            Stage::SampleVoltage => ProgressView::At(Stage::JoinWifi, 0),
            Stage::JoinWifi => ProgressView::At(Stage::OpenBroker, 0),
            Stage::OpenBroker => ProgressView::At(Stage::PublishResult, 0),
            Stage::PublishResult => if sent < 1 {
                ProgressView::At(Stage::PublishResult, sent + 1)
            } else {
                ProgressView::At(Stage::PublishClimate, 0)
            },
            Stage::PublishClimate => if sent < 3 {
                ProgressView::At(Stage::PublishClimate, sent + 1)
            } else {
                ProgressView::At(Stage::ReadRssi, 0)
            },
            Stage::ReadRssi => ProgressView::At(Stage::PublishRssi, 0),
            Stage::PublishRssi => if sent < 1 {
                ProgressView::At(Stage::PublishRssi, sent + 1)
            } else {
                ProgressView::At(Stage::CheckLink, 0)
            },
            Stage::CheckLink => ProgressView::At(Stage::PublishVoltage, 0),
            Stage::PublishVoltage => if sent < 1 {
                ProgressView::At(Stage::PublishVoltage, sent + 1)
            } else {
                ProgressView::Ended(Ok(()))
            },
        }),
{
}

/// What is found out is kept until it is found out anew, and nothing else
/// changes it.
pub proof fn law_readings_are_kept(run: RunView, event: EventView)
    ensures
        ({
            let old_readings = run.readings;
            let new_readings = next(run, event).readings;
            match event {
                EventView::Climate(t, h) => {
                    &&& new_readings.temperature == t
                    &&& new_readings.humidity == h
                    &&& new_readings.millivolts == old_readings.millivolts
                    &&& new_readings.rssi == old_readings.rssi
                },
                EventView::Millivolts(mv) => {
                    &&& new_readings.temperature == old_readings.temperature
                    &&& new_readings.humidity == old_readings.humidity
                    &&& new_readings.millivolts == mv
                    &&& new_readings.rssi == old_readings.rssi
                },
                EventView::Rssi(rssi) => {
                    &&& new_readings.temperature == old_readings.temperature
                    &&& new_readings.humidity == old_readings.humidity
                    &&& new_readings.millivolts == old_readings.millivolts
                    &&& new_readings.rssi == rssi
                },
                _ => new_readings == old_readings,
            }
        }),
{
}

/// Temperature is published to hundredths, humidity to tenths.
pub proof fn law_places()
    ensures
        TEMPERATURE_PLACES == 2,
        HUMIDITY_PLACES == 1,
{
}

/// A run after these events.
pub open spec fn after(events: Seq<EventView>) -> RunView
    decreases events.len(),
{
    if events.len() == 0 {
        start()
    } else {
        next(after(events.drop_last()), events.last())
    }
}

/// Where a run is after `k` steps without a failure.
pub open spec fn place(k: int) -> (Stage, int) {
    if k == 0 {
        (Stage::TakePeripherals, 0)
    } else if k == 1 {
        (Stage::TakeEventLoop, 0)
    } else if k == 2 {
        (Stage::Measure, 0)
    } else if k == 3 {
        (Stage::SampleVoltage, 0)
    } else if k == 4 {
        (Stage::JoinWifi, 0)
    } else if k == 5 {
        (Stage::OpenBroker, 0)
    } else if k <= 7 {
        (Stage::PublishResult, k - 6)
    } else if k <= 11 {
        (Stage::PublishClimate, k - 8)
    } else if k == 12 {
        (Stage::ReadRssi, 0)
    } else if k <= 14 {
        (Stage::PublishRssi, k - 13)
    } else if k == 15 {
        (Stage::CheckLink, 0)
    } else {
        (Stage::PublishVoltage, k - 16)
    }
}

/// Whether the event is the success of the step at `k`.
pub open spec fn succeeds(k: int, event: EventView) -> bool {
    if k == 2 {
        event is Climate
    } else if k == 3 {
        event is Millivolts
    } else if k == 12 {
        event is Rssi
    } else if k == 15 {
        event is Link
    } else {
        event is Done
    }
}

/// Whether the events are the successes of the first steps, one after the other.
pub open spec fn all_well(events: Seq<EventView>) -> bool {
    forall|k: int| 0 <= k < events.len() ==> succeeds(k, #[trigger] events[k])
}

/// What a run finds out by its events.
pub open spec fn found_out(events: Seq<EventView>) -> ReadingsView {
    ReadingsView {
        temperature: events[2]->Climate_0,
        humidity: events[2]->Climate_1,
        millivolts: events[3]->Millivolts_0,
        rssi: events[12]->Rssi_0,
    }
}

/// All that is done in a run, in order, where it finds these readings.
pub open spec fn plan(job: JobView, readings: ReadingsView) -> Seq<ActionView> {
    seq![
        ActionView::TakePeripherals,
        ActionView::TakeEventLoop,
        ActionView::Measure,
        ActionView::SampleVoltage,
        ActionView::JoinWifi(job.ssid, job.psk),
        ActionView::OpenBroker(job.broker_url),
        ActionView::Publish(announcement(job.uuid, Entity::Result)),
        ActionView::Publish(state_message(Entity::Result, job.previous)),
        ActionView::Publish(announcement(job.uuid, Entity::Measured(Quantity::Temperature))),
        ActionView::Publish(announcement(job.uuid, Entity::Measured(Quantity::Humidity))),
        ActionView::Publish(
            state_message(Entity::Measured(Quantity::Temperature), readings.temperature),
        ),
        ActionView::Publish(
            state_message(Entity::Measured(Quantity::Humidity), readings.humidity),
        ),
        ActionView::ReadRssi,
        ActionView::Publish(announcement(job.uuid, Entity::Measured(Quantity::Rssi))),
        ActionView::Publish(
            state_message(Entity::Measured(Quantity::Rssi), integer(readings.rssi as int)),
        ),
        ActionView::CheckLink,
        ActionView::Publish(announcement(job.uuid, Entity::Measured(Quantity::Voltage))),
        ActionView::Publish(
            state_message(
                Entity::Measured(Quantity::Voltage),
                two_places(hundredths(readings.millivolts as nat)),
            ),
        ),
    ]
}

/// The readings after `k` steps without a failure.
spec fn known_at(events: Seq<EventView>, k: int) -> ReadingsView {
    ReadingsView {
        temperature: if k > 2 {
            events[2]->Climate_0
        } else {
            ""@
        },
        humidity: if k > 2 {
            events[2]->Climate_1
        } else {
            ""@
        },
        millivolts: if k > 3 {
            events[3]->Millivolts_0
        } else {
            0
        },
        rssi: if k > 12 {
            events[12]->Rssi_0
        } else {
            0
        },
    }
}

proof fn lemma_after(events: Seq<EventView>)
    requires
        events.len() <= 18,
        all_well(events),
    ensures
        ({
            let k = events.len() as int;
            &&& after(events).readings == known_at(events, k)
            &&& k < 18 ==> after(events).progress == ProgressView::At(place(k).0, place(k).1)
            &&& k == 18 ==> after(events).progress == ProgressView::Ended(Ok(()))
        }),
    decreases events.len(),
{
    if events.len() > 0 {
        let before = events.drop_last();
        assert forall|k: int| 0 <= k < before.len() implies succeeds(k, #[trigger] before[k]) by {
            assert(before[k] == events[k]);
        }
        lemma_after(before);
        let k = before.len() as int;
        assert(succeeds(k, events[k]));
        assert(known_at(before, k) == known_at(events, k));
    }
}

proof fn lemma_well_prefix(events: Seq<EventView>, k: int)
    requires
        all_well(events),
        0 <= k <= events.len(),
    ensures
        all_well(events.take(k)),
{
    assert forall|j: int| 0 <= j < k implies succeeds(j, #[trigger] events.take(k)[j]) by {
        assert(events.take(k)[j] == events[j]);
    }
}

/// A run ends with success after its steps, if none fails; until then it is the
/// plan that is carried out, step by step.
pub proof fn law_run_carries_out_the_plan(job: JobView, events: Seq<EventView>, k: int)
    requires
        events.len() == 18,
        all_well(events),
        0 <= k < 18,
    ensures
        action(job, after(events.take(k))) == plan(job, found_out(events))[k],
        answers(after(events.take(k)), events[k]),
        after(events).progress == ProgressView::Ended(Ok(())),
{
    let p = events.take(k);
    lemma_well_prefix(events, k);
    lemma_after(p);
    lemma_after(events);
    assert(succeeds(k, events[k]));
    assert(k > 2 ==> p[2] == events[2]);
    assert(k > 3 ==> p[3] == events[3]);
    assert(k > 12 ==> p[12] == events[12]);
}

/// A step that fails ends the run with its error, behind the words that tell
/// which step it was, and nothing is done after it.
pub proof fn law_run_ends_at_the_first_failure(
    job: JobView,
    events: Seq<EventView>,
    error: Seq<char>,
)
    requires
        events.len() < 18,
        all_well(events),
    ensures
        ({
            let (stage, sent) = place(events.len() as int);
            let end = after(events.push(EventView::Failed(error)));
            &&& end.progress == ProgressView::Ended(Err(prefix(stage, sent) + error))
            &&& action(job, end) == ActionView::End(Err(prefix(stage, sent) + error))
        }),
{
    lemma_after(events);
    assert(events.push(EventView::Failed(error)).drop_last() =~= events);
}

/// Whatever answers it gets, a run always stands at a step that its stage has.
pub proof fn law_run_stays_well_formed(run: RunView, event: EventView)
    requires
        well_formed(run),
    ensures
        well_formed(start()),
        well_formed(next(run, event)),
{
}

/// No state is given before its entity was announced, and the record that
/// announced it names the topic on which the state is given.
pub proof fn law_states_are_announced(
    job: JobView,
    readings: ReadingsView,
    k: int,
    e: Entity,
    state: Seq<char>,
)
    requires
        0 <= k < 18,
        plan(job, readings)[k] == ActionView::Publish(state_message(e, state)),
    ensures
        exists|j: int|
            0 <= j < k && #[trigger] plan(job, readings)[j] == ActionView::Publish(
                announcement(job.uuid, e),
            ),
        record_members(job.uuid, e).contains(
            ("state_topic"@, json_string(state_message(e, state).topic)),
        ),
{
    law_record_names_the_state_topic(job.uuid, e);
    assert forall|other: Entity| other != e implies state_topic(other) != state_topic(e) by {
        law_entities_are_told_apart(job.uuid, other, e);
    }
    let p = plan(job, readings);
    match e {
        Entity::Result => {
            assert(p[6] == ActionView::Publish(announcement(job.uuid, e)));
            assert(k == 7);
        },
        Entity::Measured(Quantity::Temperature) => {
            assert(p[8] == ActionView::Publish(announcement(job.uuid, e)));
            assert(k == 10);
        },
        Entity::Measured(Quantity::Humidity) => {
            assert(p[9] == ActionView::Publish(announcement(job.uuid, e)));
            assert(k == 11);
        },
        Entity::Measured(Quantity::Rssi) => {
            assert(p[13] == ActionView::Publish(announcement(job.uuid, e)));
            assert(k == 14);
        },
        Entity::Measured(Quantity::Voltage) => {
            assert(p[16] == ActionView::Publish(announcement(job.uuid, e)));
            assert(k == 17);
        },
    }
}

/// How one run ended is what the next one publishes as the previous result,
/// where the bytes stored for it are found again.
pub proof fn law_outcome_is_published_by_the_next_run(
    res: Result<(), String>,
    bytes: Vec<u8>,
    job: JobView,
    readings: ReadingsView,
)
    requires
        bytes@ == encode_utf8(outcome(res)),
        job.previous == previous(Ok(Some(bytes))),
    ensures
        plan(job, readings)[7] == ActionView::Publish(
            state_message(Entity::Result, shown(Ok(debugged(outcome(res))))),
        ),
{
    law_outcome_reads_back(res, bytes);
}

/// Every message of a run is to arrive at least once; the announcements are
/// retained, and they alone.
pub proof fn law_announcements_alone_are_retained(job: JobView, readings: ReadingsView, k: int)
    requires
        0 <= k < 18,
        plan(job, readings)[k] is Publish,
    ensures
        ({
            let p = plan(job, readings)[k]->Publish_0;
            &&& p.qos == QoS::AtLeastOnce
            &&& p.retain <==> exists|e: Entity| p == #[trigger] announcement(job.uuid, e)
        }),
{
    let p = plan(job, readings)[k]->Publish_0;
    assert(announcement(job.uuid, Entity::Result).retain);
    assert(announcement(job.uuid, Entity::Measured(Quantity::Temperature)).retain);
    assert(announcement(job.uuid, Entity::Measured(Quantity::Humidity)).retain);
    assert(announcement(job.uuid, Entity::Measured(Quantity::Rssi)).retain);
    assert(announcement(job.uuid, Entity::Measured(Quantity::Voltage)).retain);
}

} // verus!
