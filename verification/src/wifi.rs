//! Joining the WiFi network, step by step.

use vstd::prelude::*;
use vstd::string::*;
use vstd::utf8::*;

verus! {

/// The most that the radio may send with, in quarters of a dBm: 14 dBm, where it
/// would send with 20 dBm otherwise.
pub const MAX_TX_POWER: i8 = 14 * 4;

/// How many bytes the radio has room for in the name of a network.
pub const SSID_CAPACITY: usize = 32;

/// How many bytes the radio has room for in a password.
pub const PASSWORD_CAPACITY: usize = 64;

/// How the network is entered.
#[derive(Debug, Clone, Copy, PartialEq, Eq, Structural)]
pub enum AuthMethod {
    Open,
    WPA2Personal,
}

/// A network that a scan has found.
#[derive(Debug)]
pub struct AccessPoint {
    pub ssid: String,
    pub channel: u8,
}

/// What the radio is told of the network to join.
#[derive(Debug)]
pub struct ClientConfiguration {
    pub ssid: String,
    pub password: String,
    pub channel: Option<u8>,
    pub auth_method: AuthMethod,
}

/// The step that is under way.
#[derive(Debug, Clone, Copy, PartialEq, Eq, Structural)]
pub enum WifiStage {
    CreateDriver,
    LimitPower,
    WrapDriver,
    ConfigureDefault,
    Start,
    Scan,
    /// With the channel that the scan has shown.
    ConfigureClient(Option<u8>),
    Connect,
    WaitUntilUp,
    ReadAddress,
}

/// How far joining has come.
#[derive(Debug)]
pub enum Joining {
    /// This step is under way.
    At(WifiStage),
    /// Nothing is left to do.
    Ended(Result<(), String>),
}

/// What has come of the step that was under way.
#[derive(Debug)]
pub enum WifiEvent {
    Done,
    Scanned(Vec<AccessPoint>),
    Failed(String),
}

/// What is to be done next.
#[derive(Debug)]
pub enum WifiAction {
    CreateDriver,
    /// Cap the power of the radio, in quarters of a dBm.
    LimitPower(i8),
    WrapDriver,
    ConfigureDefault,
    Start,
    Scan,
    ConfigureClient(ClientConfiguration),
    Connect,
    WaitUntilUp,
    ReadAddress,
    /// Nothing: joining has ended so.
    End(Result<(), String>),
}

/// What is known of a found network.
pub struct AccessPointView {
    pub ssid: Seq<char>,
    pub channel: u8,
}

/// What the radio is told of the network to join.
#[verifier::ext_equal]
pub struct ClientConfigurationView {
    pub ssid: Seq<char>,
    pub password: Seq<char>,
    pub channel: Option<u8>,
    pub auth_method: AuthMethod,
}

/// How far joining has come.
pub enum JoiningView {
    At(WifiStage),
    Ended(Result<(), Seq<char>>),
}

/// What has come of a step.
pub enum WifiEventView {
    Done,
    Scanned(Seq<AccessPointView>),
    Failed(Seq<char>),
}

/// What is to be done.
pub enum WifiActionView {
    CreateDriver,
    LimitPower(i8),
    WrapDriver,
    ConfigureDefault,
    Start,
    Scan,
    ConfigureClient(ClientConfigurationView),
    Connect,
    WaitUntilUp,
    ReadAddress,
    End(Result<(), Seq<char>>),
}

impl View for AccessPoint {
    type V = AccessPointView;

    open spec fn view(&self) -> AccessPointView {
        AccessPointView { ssid: self.ssid@, channel: self.channel }
    }
}

impl View for ClientConfiguration {
    type V = ClientConfigurationView;

    open spec fn view(&self) -> ClientConfigurationView {
        ClientConfigurationView {
            ssid: self.ssid@,
            password: self.password@,
            channel: self.channel,
            auth_method: self.auth_method,
        }
    }
}

/// A result with the text of its error.
pub open spec fn ending(r: Result<(), String>) -> Result<(), Seq<char>> {
    match r {
        Ok(_) => Ok(()),
        Err(e) => Err(e@),
    }
}

impl View for Joining {
    type V = JoiningView;

    open spec fn view(&self) -> JoiningView {
        match self {
            Joining::At(stage) => JoiningView::At(*stage),
            Joining::Ended(r) => JoiningView::Ended(ending(*r)),
        }
    }
}

/// What is known of each found network.
pub open spec fn points(found: Seq<AccessPoint>) -> Seq<AccessPointView> {
    Seq::new(found.len(), |i: int| found[i]@)
}

impl View for WifiEvent {
    type V = WifiEventView;

    open spec fn view(&self) -> WifiEventView {
        match self {
            WifiEvent::Done => WifiEventView::Done,
            WifiEvent::Scanned(found) => WifiEventView::Scanned(points(found@)),
            WifiEvent::Failed(e) => WifiEventView::Failed(e@),
        }
    }
}

impl View for WifiAction {
    type V = WifiActionView;

    open spec fn view(&self) -> WifiActionView {
        match self {
            WifiAction::CreateDriver => WifiActionView::CreateDriver,
            WifiAction::LimitPower(p) => WifiActionView::LimitPower(*p),
            WifiAction::WrapDriver => WifiActionView::WrapDriver,
            WifiAction::ConfigureDefault => WifiActionView::ConfigureDefault,
            WifiAction::Start => WifiActionView::Start,
            WifiAction::Scan => WifiActionView::Scan,
            WifiAction::ConfigureClient(c) => WifiActionView::ConfigureClient(c@),
            WifiAction::Connect => WifiActionView::Connect,
            WifiAction::WaitUntilUp => WifiActionView::WaitUntilUp,
            WifiAction::ReadAddress => WifiActionView::ReadAddress,
            WifiAction::End(r) => WifiActionView::End(ending(*r)),
        }
    }
}

/// A password calls for WPA2; without one the network is open.
pub open spec fn auth_method(pass: Seq<char>) -> AuthMethod {
    if pass.len() == 0 {
        AuthMethod::Open
    } else {
        AuthMethod::WPA2Personal
    }
}

/// Whether the radio has room for the name and the password.
pub open spec fn has_room(ssid: Seq<char>, pass: Seq<char>) -> bool {
    &&& encode_utf8(ssid).len() <= SSID_CAPACITY
    &&& encode_utf8(pass).len() <= PASSWORD_CAPACITY
}

/// Whether the network at `i` is the first one of that name.
pub open spec fn is_first(found: Seq<AccessPointView>, ssid: Seq<char>, i: int) -> bool {
    &&& 0 <= i < found.len()
    &&& found[i].ssid == ssid
    &&& forall|j: int| 0 <= j < i ==> (#[trigger] found[j]).ssid != ssid
}

/// The channel of the network of that name: that of the first one found, and
/// none where none was found.
pub open spec fn channel_of(found: Seq<AccessPointView>, ssid: Seq<char>) -> Option<u8> {
    if exists|i: int| is_first(found, ssid, i) {
        Some(found[choose|i: int| is_first(found, ssid, i)].channel)
    } else {
        None
    }
}

/// Joining starts with the driver; a network without a name is refused before
/// anything is done.
pub open spec fn start(ssid: Seq<char>) -> JoiningView {
    if ssid.len() == 0 {
        JoiningView::Ended(Err("Missing WiFi name"@))
    } else {
        JoiningView::At(WifiStage::CreateDriver)
    }
}

/// Whether the event is an answer to the step that is under way: a scan gives
/// networks, another step gives nothing, and any step can fail.
pub open spec fn answers(joining: JoiningView, event: WifiEventView) -> bool {
    match joining {
        JoiningView::At(stage) => match event {
            WifiEventView::Done => stage != WifiStage::Scan,
            WifiEventView::Scanned(_) => stage == WifiStage::Scan,
            WifiEventView::Failed(_) => true,
        },
        JoiningView::Ended(_) => false,
    }
}

/// How far joining has come after the event. A step that fails ends it with the
/// error, but for the cap on the power, which may fail; the last step ends it
/// with success.
pub open spec fn next(
    ssid: Seq<char>,
    joining: JoiningView,
    event: WifiEventView,
) -> JoiningView {
    match joining {
        JoiningView::Ended(_) => joining,
        JoiningView::At(WifiStage::LimitPower) => JoiningView::At(WifiStage::WrapDriver),
        JoiningView::At(stage) => match event {
            WifiEventView::Failed(e) => JoiningView::Ended(Err(e)),
            WifiEventView::Scanned(found) => JoiningView::At(
                WifiStage::ConfigureClient(channel_of(found, ssid)),
            ),
            WifiEventView::Done => match stage {
                WifiStage::CreateDriver => JoiningView::At(WifiStage::LimitPower),
                WifiStage::WrapDriver => JoiningView::At(WifiStage::ConfigureDefault),
                WifiStage::ConfigureDefault => JoiningView::At(WifiStage::Start),
                WifiStage::Start => JoiningView::At(WifiStage::Scan),
                WifiStage::ConfigureClient(_) => JoiningView::At(WifiStage::Connect),
                WifiStage::Connect => JoiningView::At(WifiStage::WaitUntilUp),
                WifiStage::WaitUntilUp => JoiningView::At(WifiStage::ReadAddress),
                _ => JoiningView::Ended(Ok(())),
            },
        },
    }
}

/// What is to be done where joining has come so far.
pub open spec fn action(
    ssid: Seq<char>,
    pass: Seq<char>,
    joining: JoiningView,
) -> WifiActionView {
    match joining {
        JoiningView::At(stage) => match stage {
            WifiStage::CreateDriver => WifiActionView::CreateDriver,
            WifiStage::LimitPower => WifiActionView::LimitPower(MAX_TX_POWER),
            WifiStage::WrapDriver => WifiActionView::WrapDriver,
            WifiStage::ConfigureDefault => WifiActionView::ConfigureDefault,
            WifiStage::Start => WifiActionView::Start,
            WifiStage::Scan => WifiActionView::Scan,
            WifiStage::ConfigureClient(channel) => WifiActionView::ConfigureClient(
                ClientConfigurationView {
                    ssid,
                    password: pass,
                    channel,
                    auth_method: auth_method(pass),
                },
            ),
            WifiStage::Connect => WifiActionView::Connect,
            WifiStage::WaitUntilUp => WifiActionView::WaitUntilUp,
            WifiStage::ReadAddress => WifiActionView::ReadAddress,
        },
        JoiningView::Ended(r) => WifiActionView::End(r),
    }
}

/// Whether the radio has room for the name.
pub fn has_room_for_ssid(ssid: &str) -> (r: bool)
    ensures
        r == (encode_utf8(ssid@).len() <= SSID_CAPACITY),
        r == (encode_utf8(ssid@).len() <= 32),
{
    ssid.as_bytes().len() <= SSID_CAPACITY
}

/// Whether the radio has room for the password.
pub fn has_room_for_password(pass: &str) -> (r: bool)
    ensures
        r == (encode_utf8(pass@).len() <= PASSWORD_CAPACITY),
        r == (encode_utf8(pass@).len() <= 64),
{
    pass.as_bytes().len() <= PASSWORD_CAPACITY
}

/// The channel of the network of that name, out of the networks found.
pub fn find_channel(found: &Vec<AccessPoint>, ssid: &str) -> (channel: Option<u8>)
    ensures
        channel == channel_of(points(found@), ssid@),
        match channel {
            Some(n) => exists|i: int|
                0 <= i < found@.len() && (#[trigger] found@[i]).ssid@ == ssid@ && found@[i].channel == n
                    && forall|j: int| 0 <= j < i ==> (#[trigger] found@[j]).ssid@ != ssid@,
            None => forall|j: int| 0 <= j < found@.len() ==> (#[trigger] found@[j]).ssid@ != ssid@,
        },
{
    let wanted: String = ssid.to_owned();
    let ghost seen = points(found@);
    let mut i: usize = 0;
    while i < found.len()
        invariant
            i <= found.len(),
            wanted@ == ssid@,
            seen == points(found@),
            forall|j: int| 0 <= j < i ==> (#[trigger] seen[j]).ssid != ssid@,
        decreases found.len() - i,
    {
        if found[i].ssid == wanted {
            proof {
                assert(seen[i as int] == found[i as int]@);
                assert(is_first(seen, ssid@, i as int));
                law_channel_is_that_of_the_first(seen, ssid@, i as int);
                assert forall|j: int| 0 <= j < i implies (#[trigger] found@[j]).ssid@ != ssid@ by {
                    assert(seen[j] == found@[j]@);
                }
                assert(found@[i as int].ssid@ == ssid@);
            }
            return Some(found[i].channel);
        }
        assert(seen[i as int] == found[i as int]@);
        i = i + 1;
    }
    assert forall|j: int| 0 <= j < found@.len() implies (#[trigger] found@[j]).ssid@ != ssid@ by {
        assert(seen[j] == found@[j]@);
    }
    None
}

impl Joining {
    /// Whether the event is an answer to the step that is under way.
    pub fn answered_by(&self, event: &WifiEvent) -> (r: bool)
        ensures
            r == answers(self@, event@),
            r == (match *self {
                Joining::At(stage) => match *event {
                    WifiEvent::Done => stage != WifiStage::Scan,
                    WifiEvent::Scanned(_) => stage == WifiStage::Scan,
                    WifiEvent::Failed(_) => true,
                },
                Joining::Ended(_) => false,
            }),
    {
        match self {
            Joining::At(stage) => match event {
                WifiEvent::Done => *stage != WifiStage::Scan,
                WifiEvent::Scanned(_) => *stage == WifiStage::Scan,
                WifiEvent::Failed(_) => true,
            },
            Joining::Ended(_) => false,
        }
    }

    /// What is to be done where joining has come so far.
    fn action(&self, ssid: &str, pass: &str) -> (a: WifiAction)
        ensures
            a@ == action(ssid@, pass@, self@),
            match *self {
                Joining::At(stage) => match stage {
                    WifiStage::CreateDriver => a is CreateDriver,
                    WifiStage::LimitPower => a == WifiAction::LimitPower(56),
                    WifiStage::WrapDriver => a is WrapDriver,
                    WifiStage::ConfigureDefault => a is ConfigureDefault,
                    WifiStage::Start => a is Start,
                    WifiStage::Scan => a is Scan,
                    WifiStage::ConfigureClient(channel) => a matches WifiAction::ConfigureClient(c)
                        && c.ssid@ == ssid@ && c.password@ == pass@ && c.channel == channel && (
                    c.auth_method == AuthMethod::Open <==> pass@.len() == 0) && (c.auth_method
                        == AuthMethod::WPA2Personal <==> pass@.len() > 0),
                    WifiStage::Connect => a is Connect,
                    WifiStage::WaitUntilUp => a is WaitUntilUp,
                    WifiStage::ReadAddress => a is ReadAddress,
                },
                Joining::Ended(Ok(_)) => a == WifiAction::End(Ok(())),
                Joining::Ended(Err(e)) => a matches WifiAction::End(Err(x)) && x@ == e@,
            },
    {
        match self {
            Joining::At(stage) => match stage {
                WifiStage::CreateDriver => WifiAction::CreateDriver,
                WifiStage::LimitPower => WifiAction::LimitPower(MAX_TX_POWER),
                WifiStage::WrapDriver => WifiAction::WrapDriver,
                WifiStage::ConfigureDefault => WifiAction::ConfigureDefault,
                WifiStage::Start => WifiAction::Start,
                WifiStage::Scan => WifiAction::Scan,
                WifiStage::ConfigureClient(channel) => WifiAction::ConfigureClient(
                    ClientConfiguration {
                        ssid: ssid.to_owned(),
                        password: pass.to_owned(),
                        channel: *channel,
                        auth_method: if pass.is_empty() {
                            AuthMethod::Open
                        } else {
                            AuthMethod::WPA2Personal
                        },
                    },
                ),
                WifiStage::Connect => WifiAction::Connect,
                WifiStage::WaitUntilUp => WifiAction::WaitUntilUp,
                WifiStage::ReadAddress => WifiAction::ReadAddress,
            },
            Joining::Ended(Ok(_)) => WifiAction::End(Ok(())),
            Joining::Ended(Err(e)) => WifiAction::End(Err(e.clone())),
        }
    }
}

/// Starts joining the network `ssid`.
pub fn start_wifi(ssid: &str, pass: &str) -> (r: (Joining, WifiAction))
    ensures
        r.0@ == start(ssid@),
        r.1@ == action(ssid@, pass@, start(ssid@)),
        ssid@.len() == 0 ==> (r.0 matches Joining::Ended(Err(e)) && e@ == "Missing WiFi name"@),
        ssid@.len() == 0 ==> (r.1 matches WifiAction::End(Err(e)) && e@ == "Missing WiFi name"@),
        ssid@.len() > 0 ==> r.0 == Joining::At(WifiStage::CreateDriver),
        ssid@.len() > 0 ==> r.1 is CreateDriver,
{
    let joining = if ssid.is_empty() {
        Joining::Ended(Err("Missing WiFi name".to_owned()))
    } else {
        Joining::At(WifiStage::CreateDriver)
    };
    let a = joining.action(ssid, pass);
    (joining, a)
}

/// Goes on joining the network `ssid`: takes what has come of the step under
/// way, and says what is to be done next. After the scan the radio is told the
/// name and the password, so it has to have room for them.
pub fn wifi(ssid: &str, pass: &str, joining: Joining, event: WifiEvent) -> (r: (
    Joining,
    WifiAction,
))
    requires
        answers(joining@, event@),
        event is Scanned ==> has_room(ssid@, pass@),
    ensures
        r.0@ == next(ssid@, joining@, event@),
        r.1@ == action(ssid@, pass@, r.0@),
        r.1 matches WifiAction::ConfigureClient(c) ==> has_room(c.ssid@, c.password@),
        event matches WifiEvent::Scanned(found) ==> r.1 matches WifiAction::ConfigureClient(c)
            && r.0 == Joining::At(WifiStage::ConfigureClient(c.channel)) && c.ssid@ == ssid@
            && c.password@ == pass@ && (c.auth_method == AuthMethod::Open <==> pass@.len() == 0)
            && (c.auth_method == AuthMethod::WPA2Personal <==> pass@.len() > 0) && (match c.channel {
            Some(n) => exists|i: int|
                0 <= i < found@.len() && (#[trigger] found@[i]).ssid@ == ssid@ && found@[i].channel == n
                    && forall|j: int| 0 <= j < i ==> (#[trigger] found@[j]).ssid@ != ssid@,
            None => forall|j: int| 0 <= j < found@.len() ==> (#[trigger] found@[j]).ssid@ != ssid@,
        }),
        event matches WifiEvent::Failed(e) ==> if joining == Joining::At(WifiStage::LimitPower) {
            r.0 == Joining::At(WifiStage::WrapDriver) && r.1 is WrapDriver
        } else {
            &&& r.0 matches Joining::Ended(Err(x)) && x@ == e@
            &&& r.1 matches WifiAction::End(Err(x)) && x@ == e@
        },
        event is Done ==> (joining matches Joining::At(stage) && (match stage {
            WifiStage::CreateDriver => {
                &&& r.0 == Joining::At(WifiStage::LimitPower)
                &&& r.1 == WifiAction::LimitPower(56)
            },
            WifiStage::LimitPower => {
                &&& r.0 == Joining::At(WifiStage::WrapDriver)
                &&& r.1 is WrapDriver
            },
            WifiStage::WrapDriver => {
                &&& r.0 == Joining::At(WifiStage::ConfigureDefault)
                &&& r.1 is ConfigureDefault
            },
            WifiStage::ConfigureDefault => {
                &&& r.0 == Joining::At(WifiStage::Start)
                &&& r.1 is Start
            },
            WifiStage::Start => {
                &&& r.0 == Joining::At(WifiStage::Scan)
                &&& r.1 is Scan
            },
            WifiStage::ConfigureClient(_) => {
                &&& r.0 == Joining::At(WifiStage::Connect)
                &&& r.1 is Connect
            },
            WifiStage::Connect => {
                &&& r.0 == Joining::At(WifiStage::WaitUntilUp)
                &&& r.1 is WaitUntilUp
            },
            WifiStage::WaitUntilUp => {
                &&& r.0 == Joining::At(WifiStage::ReadAddress)
                &&& r.1 is ReadAddress
            },
            WifiStage::ReadAddress => {
                &&& r.0 == Joining::Ended(Ok(()))
                &&& r.1 == WifiAction::End(Ok(()))
            },
            WifiStage::Scan => false,
        })),
{
    let after = match joining {
        Joining::Ended(r) => Joining::Ended(r),
        Joining::At(WifiStage::LimitPower) => Joining::At(WifiStage::WrapDriver),
        Joining::At(stage) => match event {
            WifiEvent::Failed(e) => Joining::Ended(Err(e)),
            WifiEvent::Scanned(found) => Joining::At(
                WifiStage::ConfigureClient(find_channel(&found, ssid)),
            ),
            WifiEvent::Done => match stage {
                WifiStage::CreateDriver => Joining::At(WifiStage::LimitPower),
                WifiStage::WrapDriver => Joining::At(WifiStage::ConfigureDefault),
                WifiStage::ConfigureDefault => Joining::At(WifiStage::Start),
                WifiStage::Start => Joining::At(WifiStage::Scan),
                WifiStage::ConfigureClient(_) => Joining::At(WifiStage::Connect),
                WifiStage::Connect => Joining::At(WifiStage::WaitUntilUp),
                WifiStage::WaitUntilUp => Joining::At(WifiStage::ReadAddress),
                _ => Joining::Ended(Ok(())),
            },
        },
    };
    let a = after.action(ssid, pass);
    (after, a)
}

/// How far joining the network `ssid` has come after these events.
pub open spec fn after(ssid: Seq<char>, events: Seq<WifiEventView>) -> JoiningView
    decreases events.len(),
{
    if events.len() == 0 {
        start(ssid)
    } else {
        next(ssid, after(ssid, events.drop_last()), events.last())
    }
}

/// Whether the events are those of joining without a failure that counts: a scan
/// where one is due, and otherwise steps that are done. The cap on the power may
/// fail.
pub open spec fn all_well(events: Seq<WifiEventView>) -> bool {
    &&& forall|k: int|
        0 <= k < events.len() && k != 1 && k != 5 ==> #[trigger] events[k] == WifiEventView::Done
    &&& events.len() > 1 ==> !(events[1] is Scanned)
    &&& events.len() > 5 ==> events[5] is Scanned
}

/// All that is done to join the network `ssid`, in order, where the scan has
/// found these networks.
pub open spec fn plan(
    ssid: Seq<char>,
    pass: Seq<char>,
    found: Seq<AccessPointView>,
) -> Seq<WifiActionView> {
    seq![
        WifiActionView::CreateDriver,
        WifiActionView::LimitPower(MAX_TX_POWER),
        WifiActionView::WrapDriver,
        WifiActionView::ConfigureDefault,
        WifiActionView::Start,
        WifiActionView::Scan,
        WifiActionView::ConfigureClient(
            ClientConfigurationView {
                ssid,
                password: pass,
                channel: channel_of(found, ssid),
                auth_method: auth_method(pass),
            },
        ),
        WifiActionView::Connect,
        WifiActionView::WaitUntilUp,
        WifiActionView::ReadAddress,
    ]
}

/// The step that is under way after `k` steps without a failure.
spec fn stage_at(ssid: Seq<char>, events: Seq<WifiEventView>, k: int) -> JoiningView {
    if k == 0 {
        JoiningView::At(WifiStage::CreateDriver)
    } else if k == 1 {
        JoiningView::At(WifiStage::LimitPower)
    } else if k == 2 {
        JoiningView::At(WifiStage::WrapDriver)
    } else if k == 3 {
        JoiningView::At(WifiStage::ConfigureDefault)
    } else if k == 4 {
        JoiningView::At(WifiStage::Start)
    } else if k == 5 {
        JoiningView::At(WifiStage::Scan)
    } else if k == 6 {
        JoiningView::At(WifiStage::ConfigureClient(channel_of(events[5]->Scanned_0, ssid)))
    } else if k == 7 {
        JoiningView::At(WifiStage::Connect)
    } else if k == 8 {
        JoiningView::At(WifiStage::WaitUntilUp)
    } else if k == 9 {
        JoiningView::At(WifiStage::ReadAddress)
    } else {
        JoiningView::Ended(Ok(()))
    }
}

proof fn lemma_after_prefix(ssid: Seq<char>, events: Seq<WifiEventView>, k: int)
    requires
        ssid.len() > 0,
        0 <= k <= events.len() <= 10,
        all_well(events.take(k)),
    ensures
        after(ssid, events.take(k)) == stage_at(ssid, events, k),
    decreases k,
{
    let p = events.take(k);
    if k > 0 {
        let q = events.take(k - 1);
        assert(p.drop_last() =~= q);
        assert(p.last() == events[k - 1]);
        assert(all_well(q)) by {
            assert forall|j: int| 0 <= j < q.len() && j != 1 && j != 5 implies #[trigger] q[j]
                == WifiEventView::Done by {
                assert(p[j] == q[j]);
            }
            if k > 1 {
                assert(q.len() > 1 ==> p[1] == q[1]);
                assert(q.len() > 5 ==> p[5] == q[5]);
            }
        }
        lemma_after_prefix(ssid, events, k - 1);
        assert(p[k - 1] == events[k - 1]);
    }
}

/// Joining ends with success after its ten steps, if none fails; until then it
/// is the plan that is carried out, step by step.
pub proof fn law_joining_carries_out_the_plan(
    ssid: Seq<char>,
    pass: Seq<char>,
    events: Seq<WifiEventView>,
    k: int,
)
    requires
        ssid.len() > 0,
        events.len() == 10,
        all_well(events),
        0 <= k < 10,
    ensures
        action(ssid, pass, after(ssid, events.take(k))) == plan(
            ssid,
            pass,
            events[5]->Scanned_0,
        )[k],
        answers(after(ssid, events.take(k)), events[k]),
        after(ssid, events) == JoiningView::Ended(Ok(())),
{
    lemma_well_prefix(events, k);
    lemma_after_prefix(ssid, events, k);
    assert(events.take(10) =~= events);
    lemma_after_prefix(ssid, events, 10);
    assert(k != 1 && k != 5 ==> events[k] == WifiEventView::Done);
}

proof fn lemma_well_prefix(events: Seq<WifiEventView>, k: int)
    requires
        all_well(events),
        0 <= k <= events.len(),
    ensures
        all_well(events.take(k)),
{
    let p = events.take(k);
    assert forall|j: int| 0 <= j < p.len() && j != 1 && j != 5 implies #[trigger] p[j]
        == WifiEventView::Done by {
        assert(p[j] == events[j]);
    }
    assert(p.len() > 1 ==> p[1] == events[1]);
    assert(p.len() > 5 ==> p[5] == events[5]);
}

/// A step that fails ends joining with its error, and nothing is done after it.
/// The cap on the power is the one step that may fail.
pub proof fn law_joining_ends_at_the_first_failure(
    ssid: Seq<char>,
    pass: Seq<char>,
    events: Seq<WifiEventView>,
    error: Seq<char>,
)
    requires
        ssid.len() > 0,
        events.len() < 10,
        events.len() != 1,
        all_well(events),
    ensures
        ({
            let end = after(ssid, events.push(WifiEventView::Failed(error)));
            &&& end == JoiningView::Ended(Err(error))
            &&& action(ssid, pass, end) == WifiActionView::End(Err(error))
        }),
{
    let k = events.len() as int;
    assert(events.take(k) =~= events);
    lemma_after_prefix(ssid, events, k);
    assert(events.push(WifiEventView::Failed(error)).drop_last() =~= events);
}

/// Where no network of that name was found, no channel is named.
pub proof fn law_no_channel_without_the_network(found: Seq<AccessPointView>, ssid: Seq<char>)
    requires
        forall|j: int| 0 <= j < found.len() ==> (#[trigger] found[j]).ssid != ssid,
    ensures
        channel_of(found, ssid) == None::<u8>,
{
}

/// After the scan the radio is told the name and the password as they are, the
/// channel of the first network of that name, and WPA2 exactly where there is a
/// password.
pub proof fn law_password_decides_the_authentication(
    ssid: Seq<char>,
    pass: Seq<char>,
    found: Seq<AccessPointView>,
)
    ensures
        action(
            ssid,
            pass,
            next(ssid, JoiningView::At(WifiStage::Scan), WifiEventView::Scanned(found)),
        ) matches WifiActionView::ConfigureClient(c) && c.ssid == ssid && c.password == pass && (
        c.auth_method == AuthMethod::Open <==> pass.len() == 0) && (c.auth_method
            == AuthMethod::WPA2Personal <==> pass.len() > 0) && (match c.channel {
            Some(n) => exists|i: int|
                0 <= i < found.len() && (#[trigger] found[i]).ssid == ssid && found[i].channel == n
                    && forall|j: int| 0 <= j < i ==> (#[trigger] found[j]).ssid != ssid,
            None => forall|j: int| 0 <= j < found.len() ==> (#[trigger] found[j]).ssid != ssid,
        }),
{
    if exists|i: int| is_first(found, ssid, i) {
        let i = choose|i: int| is_first(found, ssid, i);
        assert(found[i].ssid == ssid);
    } else {
        lemma_first_exists(found, ssid, found.len() as int);
    }
}

proof fn lemma_first_exists(found: Seq<AccessPointView>, ssid: Seq<char>, n: int)
    requires
        0 <= n <= found.len(),
        !exists|i: int| is_first(found, ssid, i),
    ensures
        forall|j: int| 0 <= j < n ==> (#[trigger] found[j]).ssid != ssid,
    decreases n,
{
    if n > 0 {
        lemma_first_exists(found, ssid, n - 1);
        if found[n - 1].ssid == ssid {
            assert(is_first(found, ssid, n - 1));
        }
    }
}

/// The radio has room for a name of this many bytes and a password of that many.
pub proof fn law_room_is_measured_in_bytes(ssid: Seq<char>, pass: Seq<char>)
    ensures
        has_room(ssid, pass) <==> encode_utf8(ssid).len() <= 32 && encode_utf8(pass).len() <= 64,
{
}

/// A network without a name is refused, and nothing is done for it.
pub proof fn law_nameless_network_is_refused(pass: Seq<char>, events: Seq<WifiEventView>)
    ensures
        after(Seq::empty(), events) == JoiningView::Ended(Err("Missing WiFi name"@)),
        action(Seq::empty(), pass, after(Seq::empty(), events)) == WifiActionView::End(
            Err("Missing WiFi name"@),
        ),
    decreases events.len(),
{
    if events.len() > 0 {
        law_nameless_network_is_refused(pass, events.drop_last());
    }
}

/// The channel is that of the first network of that name.
pub proof fn law_channel_is_that_of_the_first(
    found: Seq<AccessPointView>,
    ssid: Seq<char>,
    i: int,
)
    requires
        is_first(found, ssid, i),
    ensures
        channel_of(found, ssid) == Some(found[i].channel),
{
    let k = choose|k: int| is_first(found, ssid, k);
    if k < i {
        assert(found[k].ssid != ssid);
    }
    if i < k {
        assert(found[i].ssid != ssid);
    }
}

} // verus!
