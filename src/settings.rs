//! The service's settings: where it listens and where the upstream service is.

use vstd::prelude::*;

use crate::error::{Error, ErrorModel};
use crate::text::{decimal, decimal_spec, parse_u32, parse_u32_spec};

verus! {

/// Where the upstream service listens.
#[derive(Clone, Debug)]
pub struct Bragi {
    pub host: String,
    pub port: u16,
}

/// Where this service listens.
#[derive(Clone, Debug)]
pub struct Service {
    pub host: String,
    pub port: u16,
}

/// Everything the service is configured with.
#[derive(Clone, Debug)]
pub struct Settings {
    pub debug: bool,
    pub testing: bool,
    pub mode: String,
    pub service: Service,
    pub bragi: Bragi,
}

/// The URL of a service at `host` and `port`: `http://host:port`.
pub open spec fn http_url_spec(host: Seq<char>, port: u16) -> Seq<char> {
    "http://"@ + host + ":"@ + decimal_spec(port as nat)
}

/// The outcome of reading a port number from `s`: its value where `s` is a
/// decimal numeral below 65536, else an error that quotes `s`.
pub open spec fn port_spec(s: Seq<char>) -> Result<u16, ErrorModel> {
    match parse_u32_spec(s) {
        Some(v) => if v <= 65535 {
            Ok(v as u16)
        } else {
            Err(port_error(s))
        },
        None => Err(port_error(s)),
    }
}

/// The error for a port number that cannot be read from `s`.
pub open spec fn port_error(s: Seq<char>) -> ErrorModel {
    ErrorModel::MiscError {
        details: "Could not parse into a valid port number ("@ + s + ")"@,
    }
}

impl Bragi {
    /// The URL of the upstream service.
    pub fn url(&self) -> (r: String)
        ensures
            r@ == http_url_spec(self.host@, self.port),
    {
        let mut r = String::from_str("http://");
        r.append(self.host.as_str());
        r.append(":");
        let digits = decimal(self.port as u64);
        r.append(digits.as_str());
        r
    }
}

/// Reads a port number, as given on the command line.
pub fn parse_port(s: &str) -> (r: Result<u16, Error>)
    ensures
        match r {
            Ok(p) => port_spec(s@) == Ok::<u16, ErrorModel>(p),
            Err(e) => port_spec(s@) == Err::<u16, ErrorModel>(e@),
        },
{
    match parse_u32(s) {
        Some(v) => if v <= 65535 {
            return Ok(v as u16);
        },
        None => {},
    }
    let mut details = String::from_str("Could not parse into a valid port number (");
    details.append(s);
    details.append(")");
    Err(Error::MiscError { details })
}

} // verus!
