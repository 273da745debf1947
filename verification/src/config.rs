//! What the frame is told at start.

use vstd::prelude::*;

verus! {

#[derive(Clone, Debug)]
pub struct Config {
    /// The directories that media are picked from.
    pub paths: Vec<String>,
    /// The seconds between one item and the next.
    pub transition_time: u32,
    /// Whether the control channel is used.
    pub mqtt: bool,
    pub mqtt_host: String,
    pub mqtt_user: Option<String>,
    pub mqtt_password: Option<String>,
    /// The topic whose messages pause and resume the frame.
    pub mqtt_topic: String,
    /// Whether positions are looked up.
    pub reverse_geocode: bool,
    pub mapbox_api_key: String,
}

impl Config {
    /// An item stays for at least one second.
    pub open spec fn valid(&self) -> bool {
        self.transition_time >= 1
    }

    pub fn is_valid(&self) -> (yes: bool)
        ensures
            yes == self.valid(),
    {
        self.transition_time >= 1
    }
}

impl Default for Config {
    /// No directories, no control channel, no lookup, and no time between
    /// items: a configuration that is not valid until a time is set.
    fn default() -> (config: Self)
        ensures
            config.paths@.len() == 0,
            config.transition_time == 0,
            !config.mqtt,
            !config.reverse_geocode,
            config.mqtt_user.is_none(),
            config.mqtt_password.is_none(),
            config.mqtt_host@.len() == 0,
            config.mqtt_topic@.len() == 0,
            config.mapbox_api_key@.len() == 0,
    {
        Config {
            paths: Vec::new(),
            transition_time: 0,
            mqtt: false,
            mqtt_host: String::new(),
            mqtt_user: None,
            mqtt_password: None,
            mqtt_topic: String::new(),
            reverse_geocode: false,
            mapbox_api_key: String::new(),
        }
    }
}

} // verus!
