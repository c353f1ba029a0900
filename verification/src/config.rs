//! Startup configuration: where to listen, and what to show when a session
//! opens.  Reading configuration files is the surrounding program's job; the
//! library only defines the shape and the defaults.

use vstd::prelude::*;

verus! {

/// The configuration surface consumed once at startup.
pub struct Config {
    pub banner_file: Option<String>,
    pub hostname: String,
    pub port: u16,
    pub welcome_msg: Option<String>,
}

impl Default for Config {
    /// The values used when no configuration file can be read.
    fn default() -> (c: Self)
        ensures
            c.banner_file is None,
            c.hostname@ == "127.0.0.1"@,
            c.port == 1981,
            c.welcome_msg matches Some(m) && m@ == "Welcome to this BBS!"@,
    {
        Self {
            banner_file: None,
            hostname: String::from_str("127.0.0.1"),
            port: 1981,
            welcome_msg: Some(String::from_str("Welcome to this BBS!")),
        }
    }
}

} // verus!
