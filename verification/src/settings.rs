//! Runtime configuration, as plain values.  Loading it from files and
//! the environment is the composition root's job outside this crate;
//! the core only reads these records.

use vstd::prelude::*;

use crate::text::{spec_dec, u32_to_string};

verus! {

/// Where the HTTP server binds and how its cookies are keyed.
#[derive(Clone, Debug)]
pub struct Server {
    pub port: u32,
    pub domain: String,
    pub cookie_secret: String,
    pub cookie_secret2: String,
    pub ip: String,
    pub proxy_has_tls: bool,
}

impl Server {
    /// The bind address: `ip:port`.
    pub fn get_ip(&self) -> (r: String)
        ensures
            r@ == self.ip@ + ":"@ + spec_dec(self.port as nat),
    {
        let mut out = String::new();
        out.append(self.ip.as_str());
        out.append(":");
        let port = u32_to_string(self.port);
        out.append(port.as_str());
        out
    }
}

/// Database connection settings.
#[derive(Clone, Debug)]
pub struct Database {
    pub url: String,
    pub pool: u32,
}

/// Links the rendered pages put in their footer.
#[derive(Clone, Debug)]
pub struct Footer {
    pub about: String,
    pub privacy: String,
    pub security: String,
    pub donate: String,
    pub thanks: String,
}

/// Where archive snapshots go and how often a pass runs.
#[derive(Clone, Debug)]
pub struct Publish {
    /// base directory of the archive tree
    pub dir: String,
    /// seconds between archive passes
    pub duration: u64,
}

/// The whole configuration record.
#[derive(Clone, Debug)]
pub struct Settings {
    pub debug: bool,
    pub allow_registration: bool,
    pub database: Database,
    pub server: Server,
    pub source_code: String,
    pub support_email: String,
    pub default_campaign: String,
    pub footer: Footer,
    pub publish: Publish,
}

} // verus!
