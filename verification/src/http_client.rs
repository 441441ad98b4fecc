//! Connection parameters and the connection handle that an adapter owns.

use vstd::prelude::*;

verus! {

/// Where one service listens.
#[derive(Debug, Clone, PartialEq, Eq)]
pub struct Endpoint {
    pub hostname: String,
    /// The port, where the service does not listen on its adapter's default.
    pub port: Option<u16>,
    /// Whether the service is reached over TLS.
    pub tls: bool,
}

/// The connection parameters of one backend.
#[derive(Debug, Clone, PartialEq, Eq)]
pub struct ServiceConfig {
    pub service: Endpoint,
    /// A separate endpoint for health probes, where the backend has one.
    pub health_service: Option<Endpoint>,
    /// The time after which the transport gives a request up, in seconds.
    pub request_timeout: Option<u64>,
}

/// A connection to one endpoint, with everything resolved.
#[derive(Debug, Clone, PartialEq, Eq)]
pub struct HttpClient {
    pub hostname: String,
    pub port: u16,
    pub tls: bool,
    pub request_timeout: Option<u64>,
}

/// The character of a decimal digit.
pub open spec fn digit_char(d: nat) -> char {
    if d == 0 {
        '0'
    } else if d == 1 {
        '1'
    } else if d == 2 {
        '2'
    } else if d == 3 {
        '3'
    } else if d == 4 {
        '4'
    } else if d == 5 {
        '5'
    } else if d == 6 {
        '6'
    } else if d == 7 {
        '7'
    } else if d == 8 {
        '8'
    } else {
        '9'
    }
}

/// A number in decimal, without leading zeros.
pub open spec fn decimal(n: nat) -> Seq<char>
    decreases n,
{
    if n < 10 {
        seq![digit_char(n)]
    } else {
        decimal(n / 10).push(digit_char(n % 10))
    }
}

/// The scheme of a URL with its separator.
pub open spec fn scheme_text(tls: bool) -> Seq<char> {
    if tls {
        "https://"@
    } else {
        "http://"@
    }
}

/// The base URL of a connection: scheme, host and port.
pub open spec fn base_url_text(tls: bool, hostname: Seq<char>, port: u16) -> Seq<char> {
    scheme_text(tls) + hostname + ":"@ + decimal(port as nat)
}

/// The connection that `create_http_client` makes for an endpoint.
pub open spec fn client_for(
    default_port: u16,
    endpoint: Endpoint,
    request_timeout: Option<u64>,
) -> HttpClient {
    HttpClient {
        hostname: endpoint.hostname,
        port: match endpoint.port {
            Some(p) => p,
            None => default_port,
        },
        tls: endpoint.tls,
        request_timeout,
    }
}

fn digit_text(d: u16) -> (text: &'static str)
    requires
        d < 10,
    ensures
        text@ == seq![digit_char(d as nat)],
{
    proof {
        reveal_strlit("0");
        reveal_strlit("1");
        reveal_strlit("2");
        reveal_strlit("3");
        reveal_strlit("4");
        reveal_strlit("5");
        reveal_strlit("6");
        reveal_strlit("7");
        reveal_strlit("8");
        reveal_strlit("9");
    }
    let text = if d == 0 {
        "0"
    } else if d == 1 {
        "1"
    } else if d == 2 {
        "2"
    } else if d == 3 {
        "3"
    } else if d == 4 {
        "4"
    } else if d == 5 {
        "5"
    } else if d == 6 {
        "6"
    } else if d == 7 {
        "7"
    } else if d == 8 {
        "8"
    } else {
        "9"
    };
    assert(text@ =~= seq![digit_char(d as nat)]);
    text
}

/// `n` in decimal.
pub fn decimal_text(n: u16) -> (text: String)
    ensures
        text@ == decimal(n as nat),
    decreases n,
{
    if n < 10 {
        digit_text(n).to_owned()
    } else {
        let mut text = decimal_text(n / 10);
        text.append(digit_text(n % 10));
        text
    }
}

/// The connection to `endpoint`: its own port where it names one, else
/// `default_port`.
pub fn create_http_client(
    default_port: u16,
    endpoint: &Endpoint,
    request_timeout: Option<u64>,
) -> (client: HttpClient)
    ensures
        client == client_for(default_port, *endpoint, request_timeout),
{
    let port = match endpoint.port {
        Some(p) => p,
        None => default_port,
    };
    HttpClient { hostname: endpoint.hostname.clone(), port, tls: endpoint.tls, request_timeout }
}

impl HttpClient {
    /// The base URL as a text.
    pub open spec fn base_url_spec(&self) -> Seq<char> {
        base_url_text(self.tls, self.hostname@, self.port)
    }

    /// The base URL: scheme, host and port, with no path.
    pub fn base_url(&self) -> (url: String)
        ensures
            url@ == self.base_url_spec(),
    {
        let mut url = if self.tls {
            "https://".to_owned()
        } else {
            "http://".to_owned()
        };
        url.append(self.hostname.as_str());
        url.append(":");
        let port = decimal_text(self.port);
        url.append(port.as_str());
        url
    }

    /// The URL of `path` on this connection. `path` starts at the root, so
    /// it follows the base URL directly.
    pub fn join(&self, path: &str) -> (url: String)
        ensures
            url@ == self.base_url_spec() + path@,
    {
        let mut url = self.base_url();
        url.append(path);
        url
    }
}

} // verus!
