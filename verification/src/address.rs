//! The addresses that the server listens on and the client connects to.

use vstd::prelude::*;
use vstd::string::*;

verus! {

/// The character for a digit.
pub open spec fn digit(n: nat) -> char
    recommends
        n < 10,
{
    (('0' as nat) + n) as char
}

/// A number in decimal digits, without leading zeros.
pub open spec fn decimal(n: nat) -> Seq<char>
    decreases n,
{
    if n < 10 {
        seq![digit(n)]
    } else {
        decimal(n / 10).push(digit(n % 10))
    }
}

/// The text of a digit.
fn digit_text(n: u16) -> (text: &'static str)
    requires
        n < 10,
    ensures
        text@ == seq![digit(n as nat)],
{
    proof {
        reveal_strlit("0");
        reveal_strlit("1");
        reveal_strlit("2");
        reveal_strlit("3");
        reveal_strlit("4");
        reveal_strlit("5");
        reveal_strlit("6");
        reveal_strlit("7");
        reveal_strlit("8");
        reveal_strlit("9");
    }
    match n {
        0 => "0",
        1 => "1",
        2 => "2",
        3 => "3",
        4 => "4",
        5 => "5",
        6 => "6",
        7 => "7",
        8 => "8",
        _ => "9",
    }
}

/// A number in decimal digits.
fn decimal_text(n: u16) -> (text: String)
    ensures
        text@ == decimal(n as nat),
    decreases n,
{
    if n < 10 {
        digit_text(n).to_owned()
    } else {
        let text = decimal_text(n / 10).concat(digit_text(n % 10));
        assert(text@ == decimal((n / 10) as nat).push(digit((n % 10) as nat)));
        text
    }
}

/// An ip address and a port, as one address.
pub open spec fn address(ip: Seq<char>, port: nat) -> Seq<char> {
    ip + ":"@ + decimal(port)
}

/// The address to connect to.
pub fn socket_address(ip: &str, port: u16) -> (text: String)
    ensures
        text@ == address(ip@, port as nat),
{
    ip.to_owned().concat(":").concat(decimal_text(port).as_str())
}

/// The address that the server listens on: port 10000 of 127.0.0.1, where nothing else is asked
/// for.
pub fn server_address(ip: Option<String>, port: Option<u16>) -> (text: String)
    ensures
        text@ == address(
            match ip {
                Some(ip) => ip@,
                None => "127.0.0.1"@,
            },
            match port {
                Some(port) => port as nat,
                None => 10000,
            },
        ),
{
    let ip: String = match ip {
        Some(ip) => ip,
        None => "127.0.0.1".to_owned(),
    };
    let port: u16 = match port {
        Some(port) => port,
        None => 10000,
    };
    socket_address(ip.as_str(), port)
}

} // verus!
