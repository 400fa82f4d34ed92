//! Flags that follow the address of a control port or of a SOCKS port. The
//! text of each flag is its own name.

use crate::utils::Render;
use vstd::prelude::*;

verus! {

/// A flag of a control port bound to a Unix socket.
#[derive(Debug, Clone, Copy)]
pub enum ControlPortFlag {
    GroupWritable,
    WorldWritable,
    RelaxDirModeCheck,
}

impl Render for ControlPortFlag {
    open spec fn rendered(&self) -> Seq<char> {
        match self {
            ControlPortFlag::GroupWritable => "GroupWritable"@,
            ControlPortFlag::WorldWritable => "WorldWritable"@,
            ControlPortFlag::RelaxDirModeCheck => "RelaxDirModeCheck"@,
        }
    }

    fn render(&self) -> (out: String) {
        let name: &'static str = match self {
            ControlPortFlag::GroupWritable => "GroupWritable",
            ControlPortFlag::WorldWritable => "WorldWritable",
            ControlPortFlag::RelaxDirModeCheck => "RelaxDirModeCheck",
        };
        String::from_str(name)
    }
}

/// A flag of a SOCKS port that says which traffic it takes and how it
/// resolves names.
#[derive(Debug, Clone, Copy)]
pub enum SocksPortFlag {
    NoIPv4Traffic,
    IPv6Traffic,
    PreferIPv6,
    NoDNSRequest,
    NoOnionTraffic,
    OnionTrafficOnly,
    CacheIPv4DNS,
    CacheIPv6DNS,
    CacheDNS,
    UseIPv4Cache,
    UseIPv6Cache,
    UseDNSCache,
    PreferIPv6Automap,
    PreferSOCKSNoAuth,
}

impl Render for SocksPortFlag {
    open spec fn rendered(&self) -> Seq<char> {
        match self {
            SocksPortFlag::NoIPv4Traffic => "NoIPv4Traffic"@,
            SocksPortFlag::IPv6Traffic => "IPv6Traffic"@,
            SocksPortFlag::PreferIPv6 => "PreferIPv6"@,
            SocksPortFlag::NoDNSRequest => "NoDNSRequest"@,
            SocksPortFlag::NoOnionTraffic => "NoOnionTraffic"@,
            SocksPortFlag::OnionTrafficOnly => "OnionTrafficOnly"@,
            SocksPortFlag::CacheIPv4DNS => "CacheIPv4DNS"@,
            SocksPortFlag::CacheIPv6DNS => "CacheIPv6DNS"@,
            SocksPortFlag::CacheDNS => "CacheDNS"@,
            SocksPortFlag::UseIPv4Cache => "UseIPv4Cache"@,
            SocksPortFlag::UseIPv6Cache => "UseIPv6Cache"@,
            SocksPortFlag::UseDNSCache => "UseDNSCache"@,
            SocksPortFlag::PreferIPv6Automap => "PreferIPv6Automap"@,
            SocksPortFlag::PreferSOCKSNoAuth => "PreferSOCKSNoAuth"@,
        }
    }

    fn render(&self) -> (out: String) {
        let name: &'static str = match self {
            SocksPortFlag::NoIPv4Traffic => "NoIPv4Traffic",
            SocksPortFlag::IPv6Traffic => "IPv6Traffic",
            SocksPortFlag::PreferIPv6 => "PreferIPv6",
            SocksPortFlag::NoDNSRequest => "NoDNSRequest",
            SocksPortFlag::NoOnionTraffic => "NoOnionTraffic",
            SocksPortFlag::OnionTrafficOnly => "OnionTrafficOnly",
            SocksPortFlag::CacheIPv4DNS => "CacheIPv4DNS",
            SocksPortFlag::CacheIPv6DNS => "CacheIPv6DNS",
            SocksPortFlag::CacheDNS => "CacheDNS",
            SocksPortFlag::UseIPv4Cache => "UseIPv4Cache",
            SocksPortFlag::UseIPv6Cache => "UseIPv6Cache",
            SocksPortFlag::UseDNSCache => "UseDNSCache",
            SocksPortFlag::PreferIPv6Automap => "PreferIPv6Automap",
            SocksPortFlag::PreferSOCKSNoAuth => "PreferSOCKSNoAuth",
        };
        String::from_str(name)
    }
}

/// A flag of a SOCKS port that says which streams may share a circuit.
#[derive(Debug, Clone, Copy)]
pub enum SocksPortIsolationFlag {
    IsolateClientAddr,
    IsolateSOCKSAuth,
    IsolateClientProtocol,
    IsolateDestPort,
    IsolateDestAddr,
    KeepAliveIsolateSOCKSAuth,
}

impl Render for SocksPortIsolationFlag {
    open spec fn rendered(&self) -> Seq<char> {
        match self {
            SocksPortIsolationFlag::IsolateClientAddr => "IsolateClientAddr"@,
            SocksPortIsolationFlag::IsolateSOCKSAuth => "IsolateSOCKSAuth"@,
            SocksPortIsolationFlag::IsolateClientProtocol => "IsolateClientProtocol"@,
            SocksPortIsolationFlag::IsolateDestPort => "IsolateDestPort"@,
            SocksPortIsolationFlag::IsolateDestAddr => "IsolateDestAddr"@,
            SocksPortIsolationFlag::KeepAliveIsolateSOCKSAuth => "KeepAliveIsolateSOCKSAuth"@,
        }
    }

    fn render(&self) -> (out: String) {
        let name: &'static str = match self {
            SocksPortIsolationFlag::IsolateClientAddr => "IsolateClientAddr",
            SocksPortIsolationFlag::IsolateSOCKSAuth => "IsolateSOCKSAuth",
            SocksPortIsolationFlag::IsolateClientProtocol => "IsolateClientProtocol",
            SocksPortIsolationFlag::IsolateDestPort => "IsolateDestPort",
            SocksPortIsolationFlag::IsolateDestAddr => "IsolateDestAddr",
            SocksPortIsolationFlag::KeepAliveIsolateSOCKSAuth => "KeepAliveIsolateSOCKSAuth",
        };
        String::from_str(name)
    }
}

} // verus!
