//! Target addresses carried by client requests, and their textual host form.

use vstd::prelude::*;
use vstd::string::*;

verus! {

/// The address a client names in its request. It is handed to the tunnel
/// unresolved: a domain name stays a name.
#[derive(Clone, Debug, PartialEq, Eq)]
pub enum TargetAddress {
    /// A domain name and a port.
    Domain(String, u16),
    /// The four octets of an IPv4 address and a port.
    V4([u8; 4], u16),
    /// The sixteen octets of an IPv6 address and a port.
    V6([u8; 16], u16),
}

/// The mathematical value of a [`TargetAddress`].
pub ghost enum Target {
    Domain(Seq<char>, u16),
    V4(Seq<u8>, u16),
    V6(Seq<u8>, u16),
}

impl View for TargetAddress {
    type V = Target;

    open spec fn view(&self) -> Target {
        match *self {
            TargetAddress::Domain(name, port) => Target::Domain(name@, port),
            TargetAddress::V4(octets, port) => Target::V4(octets@, port),
            TargetAddress::V6(octets, port) => Target::V6(octets@, port),
        }
    }
}

/// The character of a decimal digit.
pub open spec fn digit_char(d: int) -> char {
    if d == 0 {
        '0'
    } else if d == 1 {
        '1'
    } else if d == 2 {
        '2'
    } else if d == 3 {
        '3'
    } else if d == 4 {
        '4'
    } else if d == 5 {
        '5'
    } else if d == 6 {
        '6'
    } else if d == 7 {
        '7'
    } else if d == 8 {
        '8'
    } else {
        '9'
    }
}

/// The decimal numeral of a natural number, without leading zeros.
pub open spec fn decimal(n: nat) -> Seq<char>
    decreases n,
{
    if n < 10 {
        seq![digit_char(n as int)]
    } else {
        decimal(n / 10).push(digit_char((n % 10) as int))
    }
}

/// Dotted-decimal notation of four octets.
pub open spec fn ipv4_text(octets: Seq<u8>) -> Seq<char> {
    decimal(octets[0] as nat) + seq!['.'] + decimal(octets[1] as nat) + seq!['.'] + decimal(
        octets[2] as nat,
    ) + seq!['.'] + decimal(octets[3] as nat)
}

/// The address `0.0.0.0:0`, sent in replies that report no bound address.
pub open spec fn unspecified_target() -> Target {
    Target::V4(seq![0u8, 0u8, 0u8, 0u8], 0)
}

fn digit_text(d: u8) -> (text: &'static str)
    requires
        d < 10,
    ensures
        text@ == seq![digit_char(d as int)],
{
    proof {
        reveal_strlit("0");
        reveal_strlit("1");
        reveal_strlit("2");
        reveal_strlit("3");
        reveal_strlit("4");
        reveal_strlit("5");
        reveal_strlit("6");
        reveal_strlit("7");
        reveal_strlit("8");
        reveal_strlit("9");
    }
    let text = if d == 0 {
        "0"
    } else if d == 1 {
        "1"
    } else if d == 2 {
        "2"
    } else if d == 3 {
        "3"
    } else if d == 4 {
        "4"
    } else if d == 5 {
        "5"
    } else if d == 6 {
        "6"
    } else if d == 7 {
        "7"
    } else if d == 8 {
        "8"
    } else {
        "9"
    };
    assert(text@ =~= seq![digit_char(d as int)]);
    text
}

/// Appends the decimal numeral of an octet.
fn push_octet(text: &mut String, octet: u8)
    ensures
        final(text)@ == old(text)@ + decimal(octet as nat),
{
    let ghost before = text@;
    let n: u8 = octet;
    if n >= 100 {
        text.append(digit_text(n / 100));
    }
    if n >= 10 {
        text.append(digit_text((n / 10) % 10));
    }
    text.append(digit_text(n % 10));
    proof {
        reveal_with_fuel(decimal, 3);
        assert(text@ =~= before + decimal(octet as nat));
    }
}

/// The text that `std` gives the IPv6 address made of these sixteen octets,
/// as `socks5_impl` reports it for a socket address.
pub uninterp spec fn ipv6_text(octets: Seq<u8>) -> Seq<char>;

/// The host of a target in the form the tunnel is given: a domain name as it
/// came, an IP address in its textual form.
pub open spec fn host_text(target: Target) -> Seq<char> {
    match target {
        Target::Domain(name, _) => name,
        Target::V4(octets, _) => ipv4_text(octets),
        Target::V6(octets, _) => ipv6_text(octets),
    }
}

/// The port of a target.
pub open spec fn port_of(target: Target) -> u16 {
    match target {
        Target::Domain(_, port) => port,
        Target::V4(_, port) => port,
        Target::V6(_, port) => port,
    }
}

/// Writes four octets in dotted-decimal notation.
pub fn ipv4_host_text(octets: &[u8; 4]) -> (text: String)
    ensures
        text@ == ipv4_text(octets@),
{
    proof {
        reveal_strlit(".");
    }
    let mut text = String::new();
    push_octet(&mut text, octets[0]);
    text.append(".");
    push_octet(&mut text, octets[1]);
    text.append(".");
    push_octet(&mut text, octets[2]);
    text.append(".");
    push_octet(&mut text, octets[3]);
    assert(text@ =~= ipv4_text(octets@));
    text
}

/// Trusted: `socks5_impl::protocol::Address::domain`, applied to the IPv6
/// socket address that `Address::try_from` decodes from these octets. For a
/// socket address `domain` returns `ip().to_string()`, which depends on the
/// octets alone; the contract only gives that text its name.
#[verifier::external_body]
fn ipv6_host_text(octets: &[u8; 16]) -> (text: String)
    ensures
        text@ == ipv6_text(octets@),
{
    let mut wire: Vec<u8> = vec![socks5_impl::protocol::AddressType::IPv6.into()];
    wire.extend_from_slice(octets);
    wire.extend_from_slice(&[0, 0]);
    match socks5_impl::protocol::Address::try_from(wire) {
        Ok(address) => address.domain(),
        Err(_) => String::new(),
    }
}

impl TargetAddress {
    /// The address `0.0.0.0:0`.
    pub fn unspecified() -> (address: TargetAddress)
        ensures
            address@ == unspecified_target(),
    {
        let address = TargetAddress::V4([0, 0, 0, 0], 0);
        assert(address@->V4_0 =~= seq![0u8, 0u8, 0u8, 0u8]);
        address
    }

    /// The host in the form the tunnel is given.
    pub fn host(&self) -> (host: String)
        ensures
            host@ == host_text(self@),
    {
        match self {
            TargetAddress::Domain(name, _) => name.clone(),
            TargetAddress::V4(octets, _) => ipv4_host_text(octets),
            TargetAddress::V6(octets, _) => ipv6_host_text(octets),
        }
    }

    /// The port.
    pub fn port(&self) -> (port: u16)
        ensures
            port == port_of(self@),
    {
        match self {
            TargetAddress::Domain(_, port) => *port,
            TargetAddress::V4(_, port) => *port,
            TargetAddress::V6(_, port) => *port,
        }
    }
}

} // verus!
