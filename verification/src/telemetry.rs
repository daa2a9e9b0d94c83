//! Configuration for the telemetry publisher.
//!
//! The broker connection, the message transport and the board's
//! sensors are collaborators outside this library; what is kept here
//! is the data shape of the connection configuration.

use vstd::prelude::*;

verus! {

/// The broker and Wi-Fi settings the telemetry publisher connects
/// with. The host defaults to the local machine; the credentials
/// default to empty and are filled from the build configuration.
#[derive(Clone, Copy, Debug)]
pub struct Config {
    /// The broker's host name.
    pub mqtt_host: &'static str,
    /// The user name for the broker, empty for anonymous access.
    pub mqtt_user: &'static str,
    /// The password for the broker.
    pub mqtt_pass: &'static str,
    /// The network name to join.
    pub wifi_ssid: &'static str,
    /// The network passphrase.
    pub wifi_psk: &'static str,
}

impl Default for Config {
    /// The build-time defaults: a local broker, anonymous access,
    /// empty credentials.
    fn default() -> (r: Self)
        ensures
            r.mqtt_host@ == "localhost"@,
            r.mqtt_user@ == ""@,
            r.mqtt_pass@ == ""@,
            r.wifi_ssid@ == ""@,
            r.wifi_psk@ == ""@,
    {
        Config {
            mqtt_host: "localhost",
            mqtt_user: "",
            mqtt_pass: "",
            wifi_ssid: "",
            wifi_psk: "",
        }
    }
}

} // verus!
