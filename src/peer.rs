use vstd::prelude::*;

verus! {

/// The scenarios that can be run against a peer.
#[derive(Clone, Copy, Debug, PartialEq, Eq, Structural)]
pub enum Test {
    /// Establish a connection and nothing more.
    Connect,
    /// One request on one bidirectional stream (HTTP/0.9).
    H9,
    /// One request through the HTTP/3 overlay.
    H3,
}

/// Every scenario, in the order in which they are submitted.
pub open spec fn all_tests() -> Seq<Test> {
    seq![Test::Connect, Test::H9, Test::H3]
}

/// The label by which a scenario is selected on the command line.
pub open spec fn test_label(t: Test) -> Seq<char> {
    match t {
        Test::Connect => "connect"@,
        Test::H9 => "h9"@,
        Test::H3 => "h3"@,
    }
}

/// The application protocol that a scenario asks for in the handshake.
pub open spec fn test_alpn(t: Test) -> Seq<char> {
    match t {
        Test::H3 => "h3-20"@,
        _ => "hq-20"@,
    }
}

impl Test {
    /// The application protocols offered in the handshake: one entry.
    pub fn alpn(&self) -> (r: Vec<String>)
        ensures
            r@.len() == 1,
            r@[0]@ == test_alpn(*self),
    {
        match self {
            Test::H3 => vec!["h3-20".to_owned()],
            _ => vec!["hq-20".to_owned()],
        }
    }

    /// The scenario's label.
    pub fn label(&self) -> (r: String)
        ensures
            r@ == test_label(*self),
    {
        match self {
            Test::Connect => "connect".to_owned(),
            Test::H9 => "h9".to_owned(),
            Test::H3 => "h3".to_owned(),
        }
    }

    /// All scenarios, in submission order.
    pub fn all() -> (r: Vec<Test>)
        ensures
            r@ == all_tests(),
    {
        let r = vec![Test::Connect, Test::H9, Test::H3];
        assert(r@ =~= all_tests());
        r
    }
}

/// The address family of a peer's resolved address.
#[derive(Clone, Copy, Debug, PartialEq, Eq, Structural)]
pub enum AddrFamily {
    V4,
    V6,
}

/// A local address and port to bind a socket to.
#[derive(Clone, Debug)]
pub struct LocalEndpoint {
    pub family: AddrFamily,
    /// The address, in network order: 4 octets for IPv4, 16 for IPv6.
    pub octets: Vec<u8>,
    pub port: u16,
}

/// A remote endpoint under test. Read-only once configured.
#[derive(Clone, Debug)]
pub struct Peer {
    pub label: String,
    pub host: String,
    pub port: u16,
}

impl Peer {
    /// Whether this peer takes part in scenario `test`: every peer runs every
    /// scenario.
    pub fn test_enabled(&self, test: &Test) -> (r: bool)
        ensures
            r,
    {
        true
    }

    /// The local endpoint to bind for a peer whose resolved address is of
    /// family `family`: the unspecified address of that family (four zero
    /// octets for IPv4, sixteen for IPv6) and port 0, an ephemeral one.
    pub fn bind(family: AddrFamily) -> (r: LocalEndpoint)
        ensures
            r.family == family,
            r.octets@.len() == (if family == AddrFamily::V4 { 4nat } else { 16nat }),
            forall|i: int| 0 <= i < r.octets@.len() ==> r.octets@[i] == 0u8,
            r.port == 0,
    {
        let octets = match family {
            AddrFamily::V4 => vec![0u8; 4],
            AddrFamily::V6 => vec![0u8; 16],
        };
        LocalEndpoint { family, octets, port: 0 }
    }
}

} // verus!
