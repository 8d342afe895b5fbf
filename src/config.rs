use vstd::prelude::*;

verus! {

/// Settings handed to the node at start-up: the wireless network to join,
/// its pre-shared key, and the broker to connect to.
pub struct Config {
    pub wifi_ssid: String,
    pub wifi_psk: String,
    pub mqtt_url: String,
}

impl Config {
    pub fn new(wifi_ssid: String, wifi_psk: String, mqtt_url: String) -> (r: Config)
        ensures
            r.wifi_ssid@ == wifi_ssid@,
            r.wifi_psk@ == wifi_psk@,
            r.mqtt_url@ == mqtt_url@,
    {
        Config { wifi_ssid, wifi_psk, mqtt_url }
    }

    pub fn wifi_ssid(&self) -> (r: &str)
        ensures
            r@ == self.wifi_ssid@,
    {
        self.wifi_ssid.as_str()
    }

    pub fn wifi_psk(&self) -> (r: &str)
        ensures
            r@ == self.wifi_psk@,
    {
        self.wifi_psk.as_str()
    }

    pub fn mqtt_url(&self) -> (r: &str)
        ensures
            r@ == self.mqtt_url@,
    {
        self.mqtt_url.as_str()
    }
}

} // verus!
