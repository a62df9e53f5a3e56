use vstd::prelude::*;
use vstd::string::StringExecFns;

verus! {

/// The character of one decimal digit.
pub open spec fn digit(d: int) -> Seq<char> {
    if d == 0 {
        "0"@
    } else if d == 1 {
        "1"@
    } else if d == 2 {
        "2"@
    } else if d == 3 {
        "3"@
    } else if d == 4 {
        "4"@
    } else if d == 5 {
        "5"@
    } else if d == 6 {
        "6"@
    } else if d == 7 {
        "7"@
    } else if d == 8 {
        "8"@
    } else {
        "9"@
    }
}

/// The decimal notation of a number, most significant digit first and
/// without leading zeroes (zero itself is `0`).
pub open spec fn decimal(n: nat) -> Seq<char>
    decreases n,
{
    if n < 10 {
        digit(n as int)
    } else {
        decimal(n / 10) + digit((n % 10) as int)
    }
}

/// The authority of an endpoint: its host and port, joined by a colon.
pub open spec fn authority_of(host: Seq<char>, port: u32) -> Seq<char> {
    host + ":"@ + decimal(port as nat)
}

fn digit_str(d: u32) -> (r: &'static str)
    requires
        d < 10,
    ensures
        r@ == digit(d as int),
{
    match d {
        0 => "0",
        1 => "1",
        2 => "2",
        3 => "3",
        4 => "4",
        5 => "5",
        6 => "6",
        7 => "7",
        8 => "8",
        9 => "9",
        _ => unreached(),
    }
}

/// A number in decimal notation.
pub fn decimal_string(n: u32) -> (r: String)
    ensures
        r@ == decimal(n as nat),
    decreases n,
{
    if n < 10 {
        digit_str(n).to_owned()
    } else {
        let mut s = decimal_string(n / 10);
        s.append(digit_str(n % 10));
        s
    }
}

/// The `host:port` authority string for a host and a port.
pub fn authority_string(host: &String, port: u32) -> (r: String)
    ensures
        r@ == authority_of(host@, port),
{
    let mut s = host.clone();
    s.append(":");
    let digits = decimal_string(port);
    s.append(digits.as_str());
    s
}

/// The mathematical value of an [`Endpoint`]: scheme, host and port as plain
/// sequences and an integer.
pub ghost struct EndpointView {
    pub scheme: Seq<char>,
    pub host: Seq<char>,
    pub port: u32,
}

/// The base endpoint a channel is permanently bound to at construction:
/// scheme, host and port. Every request forwarded through the channel is
/// rewritten to target exactly this endpoint, whatever authority the RPC
/// stub put in the request.
#[derive(Debug)]
pub struct Endpoint {
    pub scheme: String,
    pub host: String,
    pub port: u32,
}

impl View for Endpoint {
    type V = EndpointView;

    open spec fn view(&self) -> EndpointView {
        EndpointView { scheme: self.scheme@, host: self.host@, port: self.port }
    }
}

impl Endpoint {
    /// Bundle a scheme, host and port into an endpoint.
    pub fn new(scheme: String, host: String, port: u32) -> (r: Endpoint)
        ensures
            r@ == (EndpointView { scheme: scheme@, host: host@, port: port }),
    {
        Endpoint { scheme, host, port }
    }

    /// This endpoint's `host:port` authority.
    pub fn authority(&self) -> (r: String)
        ensures
            r@ == authority_of(self@.host, self@.port),
    {
        authority_string(&self.host, self.port)
    }
}

impl Clone for Endpoint {
    fn clone(&self) -> (res: Self)
        ensures
            res == *self,
    {
        Endpoint { scheme: self.scheme.clone(), host: self.host.clone(), port: self.port }
    }
}

} // verus!
