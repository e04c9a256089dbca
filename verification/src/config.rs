//! Where the service listens.

use crate::text::str_eq;
use vstd::prelude::*;
use vstd::string::*;

verus! {

/// The host to listen on where none is configured: the loopback address.
pub const DEFAULT_HOST: &'static str = "127.0.0.1";

/// The port to listen on where none is configured.
pub const DEFAULT_PORT: &'static str = "2908";

/// The host name that stands for the loopback address.
pub const LOCALHOST: &'static str = "localhost";

/// The address to listen on.
#[derive(Debug, PartialEq, Eq)]
pub struct Config {
    pub host: String,
    pub port: String,
    /// `host` and `port` with a colon between them.
    pub addr: String,
}

/// What a [`Config`] holds.
pub struct ConfigView {
    pub host: Seq<char>,
    pub port: Seq<char>,
    pub addr: Seq<char>,
}

impl View for Config {
    type V = ConfigView;

    open spec fn view(&self) -> ConfigView {
        ConfigView { host: self.host@, port: self.port@, addr: self.addr@ }
    }
}

/// The host to listen on, given the one configured: the loopback address where
/// none is configured or where `localhost` is.
pub open spec fn spec_host(host: Option<Seq<char>>) -> Seq<char> {
    match host {
        Some(host) => if host == LOCALHOST@ {
            DEFAULT_HOST@
        } else {
            host
        },
        None => DEFAULT_HOST@,
    }
}

/// The port to listen on, given the one configured.
pub open spec fn spec_port(port: Option<Seq<char>>) -> Seq<char> {
    match port {
        Some(port) => port,
        None => DEFAULT_PORT@,
    }
}

/// A text or none, by its characters.
pub open spec fn text_option_view(text: Option<String>) -> Option<Seq<char>> {
    match text {
        Some(text) => Some(text@),
        None => None,
    }
}

/// The address to listen on, given the host and the port that the environment
/// configures, if it does.
pub fn read(host: Option<String>, port: Option<String>) -> (config: Config)
    ensures
        config@.host == spec_host(text_option_view(host)),
        config@.port == spec_port(text_option_view(port)),
        config@.addr == config@.host + ":"@ + config@.port,
{
    let host = match host {
        Some(host) => if str_eq(host.as_str(), LOCALHOST) {
            String::from_str(DEFAULT_HOST)
        } else {
            host
        },
        None => String::from_str(DEFAULT_HOST),
    };
    let port = match port {
        Some(port) => port,
        None => String::from_str(DEFAULT_PORT),
    };
    let mut addr = host.clone();
    addr.append(":");
    addr.append(port.as_str());
    Config { host, port, addr }
}

} // verus!
