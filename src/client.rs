use vstd::prelude::*;

verus! {

/// Port on which the printer host listens when the caller names none.
pub const DEFAULT_PORT: u16 = 41951;

/// Path segment that every endpoint of the service lives under.
pub const BASE_PATH: &'static str = "DYMO/DLS/Printing";

/// Final path segment of the connection-status endpoint.
pub const STATUS_ENDPOINT: &'static str = "StatusConnected";

/// Final path segment of the printer-listing endpoint.
pub const PRINTERS_ENDPOINT: &'static str = "GetPrinters";

/// The decimal digit character for `d`, for `d < 10`.
pub open spec fn digit_char(d: nat) -> char {
    seq!['0', '1', '2', '3', '4', '5', '6', '7', '8', '9'][d as int]
}

/// Decimal representation of `n`, without leading zeros.
pub open spec fn decimal(n: nat) -> Seq<char>
    decreases n,
{
    if n < 10 {
        seq![digit_char(n)]
    } else {
        decimal(n / 10).push(digit_char(n % 10))
    }
}

/// `{host}:{port}/DYMO/DLS/Printing/`: the prefix of every request URL.
pub open spec fn base_url(host: Seq<char>, port: u16) -> Seq<char> {
    host + seq![':'] + decimal(port as nat) + seq!['/'] + BASE_PATH@ + seq!['/']
}

/// Connection coordinates of one printer host.
#[derive(Debug)]
pub struct Client {
    host: String,
    port: u16,
}

/// Appends the digit `d` to `s`.
fn push_digit(s: &mut String, d: u16)
    requires
        d < 10,
    ensures
        final(s)@ == old(s)@.push(digit_char(d as nat)),
{
    let t: &str = match d {
        0 => "0",
        1 => "1",
        2 => "2",
        3 => "3",
        4 => "4",
        5 => "5",
        6 => "6",
        7 => "7",
        8 => "8",
        _ => "9",
    };
    proof {
        reveal_strlit("0");
        reveal_strlit("1");
        reveal_strlit("2");
        reveal_strlit("3");
        reveal_strlit("4");
        reveal_strlit("5");
        reveal_strlit("6");
        reveal_strlit("7");
        reveal_strlit("8");
        reveal_strlit("9");
    }
    s.append(t);
    assert(final(s)@ =~= old(s)@.push(digit_char(d as nat)));
}

/// Appends the decimal representation of `n` to `s`.
fn push_decimal(s: &mut String, n: u16)
    ensures
        final(s)@ == old(s)@ + decimal(n as nat),
    decreases n,
{
    if n >= 10 {
        push_decimal(s, n / 10);
    }
    push_digit(s, n % 10);
    assert(final(s)@ =~= old(s)@ + decimal(n as nat));
}

impl Client {
    pub closed spec fn host_view(&self) -> Seq<char> {
        self.host@
    }

    pub closed spec fn port_view(&self) -> u16 {
        self.port
    }

    /// Creates a client for `host` (scheme and host name, e.g.
    /// `http://127.0.0.1`); without a port, the service's default is used.
    pub fn new(host: &str, port: Option<u16>) -> (r: Client)
        ensures
            r.host_view() == host@,
            r.port_view() == match port {
                Some(p) => p,
                None => DEFAULT_PORT,
            },
    {
        let p: u16 = match port {
            Some(p) => p,
            None => DEFAULT_PORT,
        };
        Client { host: String::from_str(host), port: p }
    }

    /// The host the client talks to.
    pub fn host(&self) -> (r: &str)
        ensures
            r@ == self.host_view(),
    {
        self.host.as_str()
    }

    /// The port the client talks to.
    pub fn port(&self) -> (r: u16)
        ensures
            r == self.port_view(),
    {
        self.port
    }

    /// The common prefix of the request URLs, ending in a slash.
    pub fn path(&self) -> (r: String)
        ensures
            r@ == base_url(self.host_view(), self.port_view()),
    {
        let mut s = self.host.clone();
        s.append(":");
        push_decimal(&mut s, self.port);
        s.append("/");
        s.append(BASE_PATH);
        s.append("/");
        proof {
            reveal_strlit(":");
            reveal_strlit("/");
        }
        assert(s@ =~= base_url(self.host_view(), self.port_view()));
        s
    }

    /// URL of the connection-status endpoint.
    pub fn status_url(&self) -> (r: String)
        ensures
            r@ == base_url(self.host_view(), self.port_view()) + STATUS_ENDPOINT@,
    {
        let mut s = self.path();
        s.append(STATUS_ENDPOINT);
        s
    }

    /// URL of the printer-listing endpoint.
    pub fn printers_url(&self) -> (r: String)
        ensures
            r@ == base_url(self.host_view(), self.port_view()) + PRINTERS_ENDPOINT@,
    {
        let mut s = self.path();
        s.append(PRINTERS_ENDPOINT);
        s
    }
}

} // verus!
