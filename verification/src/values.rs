//! The primitive field types: a boolean written as a digit, a unit of size,
//! and an address.

use crate::text::{decimal, render_decimal};
use crate::utils::Render;
use vstd::prelude::*;

verus! {

/// A unit of size, in bytes or in bits. Its text is its own name.
#[derive(Debug, Clone, Copy)]
pub enum SizeUnit {
    Bytes,
    KBytes,
    MBytes,
    GBytes,
    TBytes,
    Bits,
    KBits,
    MBits,
    GBits,
    TBits,
}

impl Render for SizeUnit {
    open spec fn rendered(&self) -> Seq<char> {
        match self {
            SizeUnit::Bytes => "Bytes"@,
            SizeUnit::KBytes => "KBytes"@,
            SizeUnit::MBytes => "MBytes"@,
            SizeUnit::GBytes => "GBytes"@,
            SizeUnit::TBytes => "TBytes"@,
            SizeUnit::Bits => "Bits"@,
            SizeUnit::KBits => "KBits"@,
            SizeUnit::MBits => "MBits"@,
            SizeUnit::GBits => "GBits"@,
            SizeUnit::TBits => "TBits"@,
        }
    }

    fn render(&self) -> (out: String) {
        let name: &'static str = match self {
            SizeUnit::Bytes => "Bytes",
            SizeUnit::KBytes => "KBytes",
            SizeUnit::MBytes => "MBytes",
            SizeUnit::GBytes => "GBytes",
            SizeUnit::TBytes => "TBytes",
            SizeUnit::Bits => "Bits",
            SizeUnit::KBits => "KBits",
            SizeUnit::MBits => "MBits",
            SizeUnit::GBits => "GBits",
            SizeUnit::TBits => "TBits",
        };
        String::from_str(name)
    }
}

/// A switch, written `1` when it is on and `0` when it is off.
#[derive(Debug, Clone, Copy)]
pub enum TorBool {
    True,
    False,
    Enabled,
    Disabled,
}

impl TorBool {
    /// Whether the switch is on.
    pub open spec fn is_on(&self) -> bool {
        *self is True || *self is Enabled
    }
}

impl Render for TorBool {
    open spec fn rendered(&self) -> Seq<char> {
        if self.is_on() {
            "1"@
        } else {
            "0"@
        }
    }

    fn render(&self) -> (out: String) {
        match self {
            TorBool::True | TorBool::Enabled => String::from_str("1"),
            TorBool::False | TorBool::Disabled => String::from_str("0"),
        }
    }
}

impl From<bool> for TorBool {
    fn from(other: bool) -> (switch: TorBool) {
        if other {
            TorBool::True
        } else {
            TorBool::False
        }
    }
}

impl vstd::std_specs::convert::FromSpecImpl<bool> for TorBool {
    open spec fn obeys_from_spec() -> bool {
        true
    }

    open spec fn from_spec(other: bool) -> TorBool {
        if other {
            TorBool::True
        } else {
            TorBool::False
        }
    }
}

/// The four values are written with two digits: `True` and `Enabled` as
/// `1`, `False` and `Disabled` as `0`.
pub proof fn switch_digits()
    ensures
        TorBool::True.rendered() == seq!['1'],
        TorBool::Enabled.rendered() == seq!['1'],
        TorBool::False.rendered() == seq!['0'],
        TorBool::Disabled.rendered() == seq!['0'],
{
    reveal_strlit("1");
    reveal_strlit("0");
    assert("1"@ =~= seq!['1']);
    assert("0"@ =~= seq!['0']);
}

/// A switch made from a boolean is on exactly when the boolean is true, so
/// `true` is written `1` and `false` is written `0`; the two digits differ.
pub proof fn switch_from_bool_keeps_truth(b: bool)
    ensures
        <TorBool as vstd::std_specs::convert::FromSpec<bool>>::from_spec(b).is_on() == b,
        <TorBool as vstd::std_specs::convert::FromSpec<bool>>::from_spec(b).rendered() == if b {
            "1"@
        } else {
            "0"@
        },
        "1"@ == seq!['1'],
        "0"@ == seq!['0'],
{
    reveal_strlit("1");
    reveal_strlit("0");
    assert("1"@ =~= seq!['1']);
    assert("0"@ =~= seq!['0']);
}

/// An address, in one of four shapes. No shape checks what the address or
/// the path holds.
#[derive(Debug, Clone)]
pub enum TorAddress {
    /// Only a port, written as the bare number.
    Port(u16),
    /// Only an address, written as it is.
    Address(String),
    /// An address and a port, written `address:port`.
    AddressPort(String, u16),
    /// The path of a Unix socket, written `unix:path`.
    Unix(String),
}

impl TorAddress {
    /// Whether this address is the path of a Unix socket, which only some
    /// platforms have.
    pub fn is_unix(&self) -> (unix: bool)
        ensures
            unix == (*self is Unix),
    {
        match self {
            TorAddress::Unix(_) => true,
            _ => false,
        }
    }
}

impl Render for TorAddress {
    open spec fn rendered(&self) -> Seq<char> {
        match self {
            TorAddress::Port(port) => decimal(*port as nat),
            TorAddress::Address(addr) => addr@,
            TorAddress::AddressPort(addr, port) => addr@ + ":"@ + decimal(*port as nat),
            TorAddress::Unix(path) => "unix:"@ + path@,
        }
    }

    fn render(&self) -> (out: String) {
        match self {
            TorAddress::Port(port) => render_decimal(*port as u64),
            TorAddress::Address(addr) => addr.clone(),
            TorAddress::AddressPort(addr, port) => {
                let mut out = addr.clone();
                out.append(":");
                out.append(render_decimal(*port as u64).as_str());
                out
            },
            TorAddress::Unix(path) => {
                let mut out = String::from_str("unix:");
                out.append(path.as_str());
                out
            },
        }
    }
}

} // verus!
