//! The settings of the device.

use vstd::prelude::*;
use vstd::string::*;

verus! {

/// The settings of the device.
#[derive(Debug)]
pub struct Config {
    pub mqtt_host: &'static str,
    pub mqtt_user: &'static str,
    pub mqtt_pass: &'static str,
    pub wifi_ssid: &'static str,
    pub wifi_psk: &'static str,
}

impl Default for Config {
    /// The settings that hold where nothing else is given.
    fn default() -> (c: Config)
        ensures
            c.mqtt_host@ == "localhost"@,
            c.mqtt_user@ == ""@,
            c.mqtt_pass@ == ""@,
            c.wifi_ssid@ == ""@,
            c.wifi_psk@ == ""@,
    {
        Config { mqtt_host: "localhost", mqtt_user: "", mqtt_pass: "", wifi_ssid: "", wifi_psk: "" }
    }
}

/// The address of the broker, with the credentials in it.
pub open spec fn broker_address(user: Seq<char>, pass: Seq<char>, host: Seq<char>) -> Seq<char> {
    "mqtt://"@ + user + ":"@ + pass + "@"@ + host
}

impl Config {
    /// The address of the broker, with the credentials in it.
    pub open spec fn spec_broker_url(&self) -> Seq<char> {
        broker_address(self.mqtt_user@, self.mqtt_pass@, self.mqtt_host@)
    }

    /// The address of the broker, with the credentials in it.
    pub fn broker_url(&self) -> (r: String)
        ensures
            r@ == self.spec_broker_url(),
            r@ == "mqtt://"@ + self.mqtt_user@ + ":"@ + self.mqtt_pass@ + "@"@ + self.mqtt_host@,
            ({
                let u = self.mqtt_user@.len() as int;
                let p = self.mqtt_pass@.len() as int;
                &&& r@.len() == 9 + u + p + self.mqtt_host@.len()
                &&& r@.subrange(7, 7 + u) == self.mqtt_user@
                &&& r@.subrange(8 + u, 8 + u + p) == self.mqtt_pass@
                &&& r@.skip(9 + u + p) == self.mqtt_host@
            }),
    {
        proof {
            law_address_holds_the_credentials(self.mqtt_user@, self.mqtt_pass@, self.mqtt_host@);
        }
        "mqtt://".to_owned().concat(self.mqtt_user).concat(":").concat(self.mqtt_pass).concat(
            "@",
        ).concat(self.mqtt_host)
    }
}

/// The address holds the user, the password and the host, each in its own place,
/// whatever they are: the user behind `mqtt://`, then the password behind a
/// colon, then the host behind an at sign.
pub proof fn law_address_holds_the_credentials(
    user: Seq<char>,
    pass: Seq<char>,
    host: Seq<char>,
)
    ensures
        ({
            let url = broker_address(user, pass, host);
            let u = user.len() as int;
            let p = pass.len() as int;
            &&& url.len() == 9 + u + p + host.len()
            &&& url.take(7) == seq!['m', 'q', 't', 't', ':', '/', '/']
            &&& url.subrange(7, 7 + u) == user
            &&& url[7 + u] == ':'
            &&& url.subrange(8 + u, 8 + u + p) == pass
            &&& url[8 + u + p] == '@'
            &&& url.skip(9 + u + p) == host
        }),
{
    reveal_strlit("mqtt://");
    reveal_strlit(":");
    reveal_strlit("@");
    let url = broker_address(user, pass, host);
    let u = user.len() as int;
    let p = pass.len() as int;
    assert(url.take(7) =~= seq!['m', 'q', 't', 't', ':', '/', '/']);
    assert(url.subrange(7, 7 + u) =~= user);
    assert(url.subrange(8 + u, 8 + u + p) =~= pass);
    assert(url.skip(9 + u + p) =~= host);
}

} // verus!
