//! The server's configuration: the host it listens on and its port.
use vstd::prelude::*;

use crate::text::{parse_i32, parse_i32_spec, split_at_char, split_on, views};

verus! {

/// Where the server listens: a dotted host address and a port, both as text.
#[derive(Clone)]
pub struct Config {
    hostname: String,
    port: String,
}

/// Whether `part` is a decimal number from 0 to 255.
pub open spec fn is_octet(part: Seq<char>) -> bool {
    parse_i32_spec(part) matches Some(v) && 0 <= v <= 255
}

/// Whether `host` is made of four dot-separated octets.
pub open spec fn host_is_valid(host: Seq<char>) -> bool {
    let parts = split_on(host, '.');
    parts.len() == 4 && forall|i: int| 0 <= i < 4 ==> #[trigger] is_octet(parts[i])
}

/// Whether `port` is a decimal `i32`.
pub open spec fn port_is_valid(port: Seq<char>) -> bool {
    parse_i32_spec(port) is Some
}

impl Config {
    /// The host address as text.
    pub closed spec fn hostname_view(&self) -> Seq<char> {
        self.hostname@
    }

    /// The port as text.
    pub closed spec fn port_view(&self) -> Seq<char> {
        self.port@
    }

    pub fn new(hostname: String, port: String) -> (r: Config)
        ensures
            r.hostname_view() == hostname@,
            r.port_view() == port@,
    {
        Config { hostname, port }
    }

    /// Checks that the host is four octets (decimal numbers from 0 to 255)
    /// separated by dots and that the port is a decimal number; the host is
    /// checked first.
    pub fn check(&self) -> (r: Result<(), &'static str>)
        ensures
            split_on(self.hostname_view(), '.').len() != 4 ==> (r matches Err(e)
                && e@ == "invalid number of decimal in hostname"@),
            split_on(self.hostname_view(), '.').len() == 4 && !host_is_valid(self.hostname_view())
                ==> (r matches Err(e) && e@ == "invalid format in hostname"@),
            host_is_valid(self.hostname_view()) && !port_is_valid(self.port_view()) ==> (r matches Err(
                e,
            ) && e@ == "invalid port format"@),
            r is Ok <==> host_is_valid(self.hostname_view()) && port_is_valid(self.port_view()),
    {
        let host = split_at_char(self.hostname.as_str(), '.');
        if host.len() != 4 {
            return Err("invalid number of decimal in hostname");
        }
        let mut i: usize = 0;
        while i < 4
            invariant
                i <= 4,
                host.len() == 4,
                views(host@) == split_on(self.hostname@, '.'),
                forall|j: int| 0 <= j < i ==> #[trigger] is_octet(views(host@)[j]),
            decreases 4 - i,
        {
            let octet = match parse_i32(host[i].as_str()) {
                Some(v) => 0 <= v && v <= 255,
                None => false,
            };
            if !octet {
                assert(!is_octet(views(host@)[i as int]));
                return Err("invalid format in hostname");
            }
            i = i + 1;
        }
        if parse_i32(self.port.as_str()).is_none() {
            return Err("invalid port format");
        }
        Ok(())
    }

    pub fn get_hostname(&self) -> (r: String)
        ensures
            r@ == self.hostname_view(),
    {
        self.hostname.clone()
    }

    pub fn get_port(&self) -> (r: String)
        ensures
            r@ == self.port_view(),
    {
        self.port.clone()
    }
}

} // verus!
