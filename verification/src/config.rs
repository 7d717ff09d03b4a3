use vstd::prelude::*;
use vstd::string::StringExecFns;
use crate::util::{dec_rep, u64_to_string};

verus! {

/// The connection parameters the supervisor is handed: an opaque
/// configuration value, never parsed by the core itself.
#[derive(Clone, Debug)]
pub struct Config {
    pub mqtt_host: String,
    pub mqtt_port: u16,
    pub mqtt_username: String,
    pub mqtt_password: String,
    pub mqtt_topic: String,
    pub mqtt_client_id: String,
    pub metrics_port: u16,
}

impl Config {
    /// The broker endpoint, rendered as `host:port`.
    pub fn mqtt_server(&self) -> (r: String)
        ensures
            r@ == self.mqtt_host@ + ":"@ + dec_rep(self.mqtt_port as nat),
    {
        let mut s = self.mqtt_host.clone();
        s.append(":");
        let p = u64_to_string(self.mqtt_port as u64);
        s.append(p.as_str());
        s
    }
}

} // verus!
