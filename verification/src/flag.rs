//! The directives, and their expansion into tokens.
//!
//! Every directive has a name and a rule. The tables below give, for each
//! case, its name, its rule and the text of its fields; the token list
//! follows from those three.

use crate::expand::{cli_line, cli_text, one, three, two, Rule};
use crate::hs::{HiddenServiceAuthType, HiddenServiceVersion};
use crate::log::{groups_text, render_groups, LogDestination, LogDomain, LogLevel};
use crate::ports::{ControlPortFlag, SocksPortFlag, SocksPortIsolationFlag};
use crate::text::{join, split, split_words, texts};
use crate::utils::{CommaJoiner, DisplayOption, DisplayVec, Render, SpaceJoiner};
use crate::values::{SizeUnit, TorAddress, TorBool};
use vstd::prelude::*;

verus! {

/// A configuration directive of the daemon. Where nothing else is said, a
/// directive is written as its own name followed by its fields.
#[derive(Debug, Clone)]
pub enum TorFlag {
    /// The configuration file to read, written `-f file`.
    ConfigFile(String),
    /// The file descriptor to read a passphrase from, written `--passphrase-fd
    /// n`.
    PassphraseFD(u32),
    BandwidthRate(usize, SizeUnit),
    BandwidthBurst(usize, SizeUnit),
    DisableNetwork(TorBool),
    ControlPort(u16),
    /// Lets the daemon pick the control port, written `ControlPort auto`.
    ControlPortAuto,
    /// A control port at an address, with its flags, written `ControlPort
    /// address flags`.
    ControlPortAddress(TorAddress, DisplayOption<DisplayVec<ControlPortFlag, SpaceJoiner>>),
    ControlSocket(String),
    ControlSocketsGroupWritable(TorBool),
    HashedControlPassword(String),
    CookieAuthentication(TorBool),
    CookieAuthFile(String),
    CookieAuthFileGroupReadable(TorBool),
    ControlPortWriteToFile(String),
    ControlPortFileGroupReadable(TorBool),
    DataDirectory(String),
    DataDirectoryGroupReadable(TorBool),
    CacheDirectory(String),
    CacheDirectoryGroupReadable(String),
    HTTPSProxy(String),
    /// The user and the password for the HTTPS proxy, written
    /// `HTTPSProxyAuthenticator user:password`.
    HTTPSProxyAuthenticator(String, String),
    Socks4Proxy(String),
    Socks5Proxy(String),
    Socks5ProxyUsername(String),
    Socks5ProxyPassword(String),
    UnixSocksGroupWritable(TorBool),
    KeepalivePeriod(usize),
    /// Logs at a level, written `Log level`.
    Log(LogLevel),
    /// Logs at a level to a destination, written `Log level destination`.
    LogTo(LogLevel, LogDestination),
    /// Logs groups of domains, each at a level of its own, to a destination.
    LogExpanded(Vec<(Vec<(bool, LogDomain)>, LogLevel)>, LogDestination),
    LogMessageDomains(TorBool),
    LogTimeGranularity(usize),
    TruncateLogFile(TorBool),
    SyslogIdentityTag(String),
    AndroidIdentityTag(String),
    SafeLogging(TorBool),
    PidFile(String),
    ProtocolWarnings(TorBool),
    User(String),
    NoExec(TorBool),
    Bridge(String, String, String),
    ConnectionPadding(TorBool),
    ReducedConnectionPadding(TorBool),
    CircuitPadding(TorBool),
    ReducedCircuitPadding(TorBool),
    ExcludeNodes(DisplayVec<String, CommaJoiner>),
    ExcludeExitNodes(DisplayVec<String, CommaJoiner>),
    ExitNodes(DisplayVec<String, CommaJoiner>),
    MiddleNodes(DisplayVec<String, CommaJoiner>),
    EntryNodes(DisplayVec<String, CommaJoiner>),
    StrictNodes(TorBool),
    FascistFirewall(TorBool),
    FirewallPorts(DisplayVec<u16, CommaJoiner>),
    MapAddress(String, String),
    NewCircuitPeriod(usize),
    SocksPort(u16),
    /// Lets the daemon pick the SOCKS port, written `SocksPort auto`.
    SocksPortAuto,
    /// A SOCKS port at an address, with its flags; its name is `SocksPort`.
    SocksPortAddress(
        TorAddress,
        DisplayOption<DisplayVec<SocksPortFlag, SpaceJoiner>>,
        DisplayOption<DisplayVec<SocksPortIsolationFlag, SpaceJoiner>>,
    ),
    SocksTimeout(usize),
    SafeSocks(TorBool),
    TestSocks(TorBool),
    UpdateBridgesFromAuthority(TorBool),
    UseBridges(TorBool),
    HiddenServiceDir(String),
    HiddenServicePort(TorAddress, DisplayOption<TorAddress>),
    HiddenServiceVersion(HiddenServiceVersion),
    /// The clients authorised for a hidden service, written
    /// `HiddenServiceAuthorizeClient type client,client`.
    HiddenServiceAuthorizeClient(HiddenServiceAuthType, DisplayVec<String, CommaJoiner>),
    HiddenServiceAllowUnknownPorts(TorBool),
    HiddenServiceMaxStreams(usize),
    HiddenServiceMaxStreamsCloseCircuit(TorBool),
    /// A directive that this type has no case for: its name and its arguments,
    /// already written out and separated by whitespace.
    Custom(String),
}

impl TorFlag {
    /// The rule by which this directive is expanded.
    pub open spec fn rule(&self) -> Rule {
        match self {
            TorFlag::ControlPortAuto | TorFlag::SocksPortAuto => Rule::Literal,
            TorFlag::ConfigFile(..)
            | TorFlag::PassphraseFD(..)
            | TorFlag::ControlPortAddress(..)
            | TorFlag::HTTPSProxyAuthenticator(..)
            | TorFlag::HiddenServiceAuthorizeClient(..) => Rule::Template,
            TorFlag::Custom(..) => Rule::FreeForm,
            TorFlag::Log(..) | TorFlag::LogTo(..) | TorFlag::LogExpanded(..) => Rule::Delegated,
            _ => Rule::Default,
        }
    }

    /// The canonical name: the keyword by which the daemon knows this
    /// directive. A free-form directive takes it from the line it was
    /// given: it is the first word of that line.
    pub open spec fn name(&self) -> Seq<char> {
        match self {
            TorFlag::ConfigFile(..) => "-f"@,
            TorFlag::PassphraseFD(..) => "--passphrase-fd"@,
            TorFlag::BandwidthRate(..) => "BandwidthRate"@,
            TorFlag::BandwidthBurst(..) => "BandwidthBurst"@,
            TorFlag::DisableNetwork(..) => "DisableNetwork"@,
            TorFlag::ControlPort(..) => "ControlPort"@,
            TorFlag::ControlPortAuto => "ControlPort auto"@,
            TorFlag::ControlPortAddress(..) => "ControlPort"@,
            TorFlag::ControlSocket(..) => "ControlSocket"@,
            TorFlag::ControlSocketsGroupWritable(..) => "ControlSocketsGroupWritable"@,
            TorFlag::HashedControlPassword(..) => "HashedControlPassword"@,
            TorFlag::CookieAuthentication(..) => "CookieAuthentication"@,
            TorFlag::CookieAuthFile(..) => "CookieAuthFile"@,
            TorFlag::CookieAuthFileGroupReadable(..) => "CookieAuthFileGroupReadable"@,
            TorFlag::ControlPortWriteToFile(..) => "ControlPortWriteToFile"@,
            TorFlag::ControlPortFileGroupReadable(..) => "ControlPortFileGroupReadable"@,
            TorFlag::DataDirectory(..) => "DataDirectory"@,
            TorFlag::DataDirectoryGroupReadable(..) => "DataDirectoryGroupReadable"@,
            TorFlag::CacheDirectory(..) => "CacheDirectory"@,
            TorFlag::CacheDirectoryGroupReadable(..) => "CacheDirectoryGroupReadable"@,
            TorFlag::HTTPSProxy(..) => "HTTPSProxy"@,
            TorFlag::HTTPSProxyAuthenticator(..) => "HTTPSProxyAuthenticator"@,
            TorFlag::Socks4Proxy(..) => "Socks4Proxy"@,
            TorFlag::Socks5Proxy(..) => "Socks5Proxy"@,
            TorFlag::Socks5ProxyUsername(..) => "Socks5ProxyUsername"@,
            TorFlag::Socks5ProxyPassword(..) => "Socks5ProxyPassword"@,
            TorFlag::UnixSocksGroupWritable(..) => "UnixSocksGroupWritable"@,
            TorFlag::KeepalivePeriod(..) => "KeepalivePeriod"@,
            TorFlag::Log(..) => "Log"@,
            TorFlag::LogTo(..) => "Log"@,
            TorFlag::LogExpanded(..) => "Log"@,
            TorFlag::LogMessageDomains(..) => "LogMessageDomains"@,
            TorFlag::LogTimeGranularity(..) => "LogTimeGranularity"@,
            TorFlag::TruncateLogFile(..) => "TruncateLogFile"@,
            TorFlag::SyslogIdentityTag(..) => "SyslogIdentityTag"@,
            TorFlag::AndroidIdentityTag(..) => "AndroidIdentityTag"@,
            TorFlag::SafeLogging(..) => "SafeLogging"@,
            TorFlag::PidFile(..) => "PidFile"@,
            TorFlag::ProtocolWarnings(..) => "ProtocolWarnings"@,
            TorFlag::User(..) => "User"@,
            TorFlag::NoExec(..) => "NoExec"@,
            TorFlag::Bridge(..) => "Bridge"@,
            TorFlag::ConnectionPadding(..) => "ConnectionPadding"@,
            TorFlag::ReducedConnectionPadding(..) => "ReducedConnectionPadding"@,
            TorFlag::CircuitPadding(..) => "CircuitPadding"@,
            TorFlag::ReducedCircuitPadding(..) => "ReducedCircuitPadding"@,
            TorFlag::ExcludeNodes(..) => "ExcludeNodes"@,
            TorFlag::ExcludeExitNodes(..) => "ExcludeExitNodes"@,
            TorFlag::ExitNodes(..) => "ExitNodes"@,
            TorFlag::MiddleNodes(..) => "MiddleNodes"@,
            TorFlag::EntryNodes(..) => "EntryNodes"@,
            TorFlag::StrictNodes(..) => "StrictNodes"@,
            TorFlag::FascistFirewall(..) => "FascistFirewall"@,
            TorFlag::FirewallPorts(..) => "FirewallPorts"@,
            TorFlag::MapAddress(..) => "MapAddress"@,
            TorFlag::NewCircuitPeriod(..) => "NewCircuitPeriod"@,
            TorFlag::SocksPort(..) => "SocksPort"@,
            TorFlag::SocksPortAuto => "SocksPort auto"@,
            TorFlag::SocksPortAddress(..) => "SocksPort"@,
            TorFlag::SocksTimeout(..) => "SocksTimeout"@,
            TorFlag::SafeSocks(..) => "SafeSocks"@,
            TorFlag::TestSocks(..) => "TestSocks"@,
            TorFlag::UpdateBridgesFromAuthority(..) => "UpdateBridgesFromAuthority"@,
            TorFlag::UseBridges(..) => "UseBridges"@,
            TorFlag::HiddenServiceDir(..) => "HiddenServiceDir"@,
            TorFlag::HiddenServicePort(..) => "HiddenServicePort"@,
            TorFlag::HiddenServiceVersion(..) => "HiddenServiceVersion"@,
            TorFlag::HiddenServiceAuthorizeClient(..) => "HiddenServiceAuthorizeClient"@,
            TorFlag::HiddenServiceAllowUnknownPorts(..) => "HiddenServiceAllowUnknownPorts"@,
            TorFlag::HiddenServiceMaxStreams(..) => "HiddenServiceMaxStreams"@,
            TorFlag::HiddenServiceMaxStreamsCloseCircuit(..) => {
                "HiddenServiceMaxStreamsCloseCircuit"@
            },
            TorFlag::Custom(line) => split(line@)[0],
        }
    }

    /// The text of each field, in the order in which the fields are
    /// declared.
    pub open spec fn fields(&self) -> Seq<Seq<char>> {
        match self {
            TorFlag::ConfigFile(text) | TorFlag::ControlSocket(text)
            | TorFlag::HashedControlPassword(text) | TorFlag::CookieAuthFile(text)
            | TorFlag::ControlPortWriteToFile(text) | TorFlag::DataDirectory(text)
            | TorFlag::CacheDirectory(text) | TorFlag::CacheDirectoryGroupReadable(text)
            | TorFlag::HTTPSProxy(text) | TorFlag::Socks4Proxy(text)
            | TorFlag::Socks5Proxy(text) | TorFlag::Socks5ProxyUsername(text)
            | TorFlag::Socks5ProxyPassword(text) | TorFlag::SyslogIdentityTag(text)
            | TorFlag::AndroidIdentityTag(text) | TorFlag::PidFile(text)
            | TorFlag::User(text) | TorFlag::HiddenServiceDir(text) | TorFlag::Custom(text) => {
                seq![text.rendered()]
            },
            TorFlag::PassphraseFD(number) => seq![number.rendered()],
            TorFlag::BandwidthRate(number, unit) | TorFlag::BandwidthBurst(number, unit) => {
                seq![number.rendered(), unit.rendered()]
            },
            TorFlag::DisableNetwork(switch) | TorFlag::ControlSocketsGroupWritable(switch)
            | TorFlag::CookieAuthentication(switch)
            | TorFlag::CookieAuthFileGroupReadable(switch)
            | TorFlag::ControlPortFileGroupReadable(switch)
            | TorFlag::DataDirectoryGroupReadable(switch)
            | TorFlag::UnixSocksGroupWritable(switch) | TorFlag::LogMessageDomains(switch)
            | TorFlag::TruncateLogFile(switch) | TorFlag::SafeLogging(switch)
            | TorFlag::ProtocolWarnings(switch) | TorFlag::NoExec(switch)
            | TorFlag::ConnectionPadding(switch) | TorFlag::ReducedConnectionPadding(switch)
            | TorFlag::CircuitPadding(switch) | TorFlag::ReducedCircuitPadding(switch)
            | TorFlag::StrictNodes(switch) | TorFlag::FascistFirewall(switch)
            | TorFlag::SafeSocks(switch) | TorFlag::TestSocks(switch)
            | TorFlag::UpdateBridgesFromAuthority(switch) | TorFlag::UseBridges(switch)
            | TorFlag::HiddenServiceAllowUnknownPorts(switch)
            | TorFlag::HiddenServiceMaxStreamsCloseCircuit(switch) => seq![switch.rendered()],
            TorFlag::ControlPort(number) | TorFlag::SocksPort(number) => seq![number.rendered()],
            TorFlag::ControlPortAuto | TorFlag::SocksPortAuto => Seq::empty(),
            TorFlag::ControlPortAddress(address, flags) => {
                seq![address.rendered(), flags.rendered()]
            },
            TorFlag::HTTPSProxyAuthenticator(first, second)
            | TorFlag::MapAddress(first, second) => seq![first.rendered(), second.rendered()],
            TorFlag::KeepalivePeriod(number) | TorFlag::LogTimeGranularity(number)
            | TorFlag::NewCircuitPeriod(number) | TorFlag::SocksTimeout(number)
            | TorFlag::HiddenServiceMaxStreams(number) => seq![number.rendered()],
            TorFlag::Log(level) => seq![level.rendered()],
            TorFlag::LogTo(level, destination) => seq![level.rendered(), destination.rendered()],
            TorFlag::Bridge(first, second, third) => {
                seq![first.rendered(), second.rendered(), third.rendered()]
            },
            TorFlag::ExcludeNodes(nodes) | TorFlag::ExcludeExitNodes(nodes)
            | TorFlag::ExitNodes(nodes) | TorFlag::MiddleNodes(nodes)
            | TorFlag::EntryNodes(nodes) => seq![nodes.rendered()],
            TorFlag::FirewallPorts(ports) => seq![ports.rendered()],
            TorFlag::SocksPortAddress(address, flags, isolation) => {
                seq![address.rendered(), flags.rendered(), isolation.rendered()]
            },
            TorFlag::HiddenServicePort(address, target) => {
                seq![address.rendered(), target.rendered()]
            },
            TorFlag::HiddenServiceVersion(version) => seq![version.rendered()],
            TorFlag::HiddenServiceAuthorizeClient(kind, clients) => {
                seq![kind.rendered(), clients.rendered()]
            },
            TorFlag::LogExpanded(groups, destination) => {
                seq![groups_text(groups@), destination.rendered()]
            },
        }
    }

    /// The fields of a directive with a pattern, laid out as the pattern
    /// says.
    pub open spec fn template_body(&self) -> Seq<char> {
        match self {
            TorFlag::ConfigFile(file) => file.rendered(),
            TorFlag::PassphraseFD(number) => number.rendered(),
            TorFlag::ControlPortAddress(address, flags) => {
                address.rendered() + " "@ + flags.rendered()
            },
            TorFlag::HTTPSProxyAuthenticator(user, password) => {
                user.rendered() + ":"@ + password.rendered()
            },
            TorFlag::HiddenServiceAuthorizeClient(kind, clients) => {
                kind.rendered() + " "@ + clients.rendered()
            },
            _ => Seq::empty(),
        }
    }

    /// The log specification of a log directive: its groups, separated by
    /// single spaces, then a space and the destination where there is one.
    pub open spec fn log_text(&self) -> Seq<char> {
        match self {
            TorFlag::Log(level) => level.rendered(),
            TorFlag::LogTo(level, destination) => {
                level.rendered() + " "@ + destination.rendered()
            },
            TorFlag::LogExpanded(groups, destination) => {
                groups_text(groups@) + " "@ + destination.rendered()
            },
            _ => Seq::empty(),
        }
    }

    /// The token list of this directive.
    pub open spec fn tokens(&self) -> Seq<Seq<char>> {
        match self.rule() {
            Rule::Default => seq![self.name()] + self.fields(),
            Rule::Literal => seq![self.name()],
            Rule::Template => split(self.name() + " "@ + self.template_body()),
            Rule::FreeForm => split(self.fields()[0]),
            Rule::Delegated => seq![self.name(), self.log_text()],
        }
    }

    /// Whether this directive speaks of a Unix socket: the two control
    /// socket directives, and every directive whose address is the path of
    /// a Unix socket.
    pub open spec fn uses_unix_socket(&self) -> bool {
        match self {
            TorFlag::ControlSocket(..) | TorFlag::ControlSocketsGroupWritable(..) => true,
            TorFlag::ControlPortAddress(address, _)
            | TorFlag::SocksPortAddress(address, _, _) => *address is Unix,
            TorFlag::HiddenServicePort(address, target) => {
                *address is Unix || (target.option matches Some(to) && to is Unix)
            },
            _ => false,
        }
    }

    /// Tells whether this directive speaks of a Unix socket, so that a
    /// platform without them can turn it down.
    pub fn needs_unix_socket(&self) -> (needs: bool)
        ensures
            needs == self.uses_unix_socket(),
    {
        match self {
            TorFlag::ControlSocket(..) | TorFlag::ControlSocketsGroupWritable(..) => true,
            TorFlag::ControlPortAddress(address, _)
            | TorFlag::SocksPortAddress(address, _, _) => address.is_unix(),
            TorFlag::HiddenServicePort(address, target) => {
                let to_unix = match &target.option {
                    Some(to) => to.is_unix(),
                    None => false,
                };
                address.is_unix() || to_unix
            },
            _ => false,
        }
    }

    /// The line that stands for this directive in a configuration file.
    pub open spec fn cli(&self) -> Seq<char> {
        cli_text(self.tokens())
    }

    fn keyword(&self) -> (word: &'static str)
        requires
            !(self is Custom),
        ensures
            word@ == self.name(),
    {
        match self {
            TorFlag::ConfigFile(..) => "-f",
            TorFlag::PassphraseFD(..) => "--passphrase-fd",
            TorFlag::BandwidthRate(..) => "BandwidthRate",
            TorFlag::BandwidthBurst(..) => "BandwidthBurst",
            TorFlag::DisableNetwork(..) => "DisableNetwork",
            TorFlag::ControlPort(..) => "ControlPort",
            TorFlag::ControlPortAuto => "ControlPort auto",
            TorFlag::ControlPortAddress(..) => "ControlPort",
            TorFlag::ControlSocket(..) => "ControlSocket",
            TorFlag::ControlSocketsGroupWritable(..) => "ControlSocketsGroupWritable",
            TorFlag::HashedControlPassword(..) => "HashedControlPassword",
            TorFlag::CookieAuthentication(..) => "CookieAuthentication",
            TorFlag::CookieAuthFile(..) => "CookieAuthFile",
            TorFlag::CookieAuthFileGroupReadable(..) => "CookieAuthFileGroupReadable",
            TorFlag::ControlPortWriteToFile(..) => "ControlPortWriteToFile",
            TorFlag::ControlPortFileGroupReadable(..) => "ControlPortFileGroupReadable",
            TorFlag::DataDirectory(..) => "DataDirectory",
            TorFlag::DataDirectoryGroupReadable(..) => "DataDirectoryGroupReadable",
            TorFlag::CacheDirectory(..) => "CacheDirectory",
            TorFlag::CacheDirectoryGroupReadable(..) => "CacheDirectoryGroupReadable",
            TorFlag::HTTPSProxy(..) => "HTTPSProxy",
            TorFlag::HTTPSProxyAuthenticator(..) => "HTTPSProxyAuthenticator",
            TorFlag::Socks4Proxy(..) => "Socks4Proxy",
            TorFlag::Socks5Proxy(..) => "Socks5Proxy",
            TorFlag::Socks5ProxyUsername(..) => "Socks5ProxyUsername",
            TorFlag::Socks5ProxyPassword(..) => "Socks5ProxyPassword",
            TorFlag::UnixSocksGroupWritable(..) => "UnixSocksGroupWritable",
            TorFlag::KeepalivePeriod(..) => "KeepalivePeriod",
            TorFlag::Log(..) => "Log",
            TorFlag::LogTo(..) => "Log",
            TorFlag::LogExpanded(..) => "Log",
            TorFlag::LogMessageDomains(..) => "LogMessageDomains",
            TorFlag::LogTimeGranularity(..) => "LogTimeGranularity",
            TorFlag::TruncateLogFile(..) => "TruncateLogFile",
            TorFlag::SyslogIdentityTag(..) => "SyslogIdentityTag",
            TorFlag::AndroidIdentityTag(..) => "AndroidIdentityTag",
            TorFlag::SafeLogging(..) => "SafeLogging",
            TorFlag::PidFile(..) => "PidFile",
            TorFlag::ProtocolWarnings(..) => "ProtocolWarnings",
            TorFlag::User(..) => "User",
            TorFlag::NoExec(..) => "NoExec",
            TorFlag::Bridge(..) => "Bridge",
            TorFlag::ConnectionPadding(..) => "ConnectionPadding",
            TorFlag::ReducedConnectionPadding(..) => "ReducedConnectionPadding",
            TorFlag::CircuitPadding(..) => "CircuitPadding",
            TorFlag::ReducedCircuitPadding(..) => "ReducedCircuitPadding",
            TorFlag::ExcludeNodes(..) => "ExcludeNodes",
            TorFlag::ExcludeExitNodes(..) => "ExcludeExitNodes",
            TorFlag::ExitNodes(..) => "ExitNodes",
            TorFlag::MiddleNodes(..) => "MiddleNodes",
            TorFlag::EntryNodes(..) => "EntryNodes",
            TorFlag::StrictNodes(..) => "StrictNodes",
            TorFlag::FascistFirewall(..) => "FascistFirewall",
            TorFlag::FirewallPorts(..) => "FirewallPorts",
            TorFlag::MapAddress(..) => "MapAddress",
            TorFlag::NewCircuitPeriod(..) => "NewCircuitPeriod",
            TorFlag::SocksPort(..) => "SocksPort",
            TorFlag::SocksPortAuto => "SocksPort auto",
            TorFlag::SocksPortAddress(..) => "SocksPort",
            TorFlag::SocksTimeout(..) => "SocksTimeout",
            TorFlag::SafeSocks(..) => "SafeSocks",
            TorFlag::TestSocks(..) => "TestSocks",
            TorFlag::UpdateBridgesFromAuthority(..) => "UpdateBridgesFromAuthority",
            TorFlag::UseBridges(..) => "UseBridges",
            TorFlag::HiddenServiceDir(..) => "HiddenServiceDir",
            TorFlag::HiddenServicePort(..) => "HiddenServicePort",
            TorFlag::HiddenServiceVersion(..) => "HiddenServiceVersion",
            TorFlag::HiddenServiceAuthorizeClient(..) => "HiddenServiceAuthorizeClient",
            TorFlag::HiddenServiceAllowUnknownPorts(..) => "HiddenServiceAllowUnknownPorts",
            TorFlag::HiddenServiceMaxStreams(..) => "HiddenServiceMaxStreams",
            TorFlag::HiddenServiceMaxStreamsCloseCircuit(..) => {
                "HiddenServiceMaxStreamsCloseCircuit"
            },
            TorFlag::Custom(..) => vstd::pervasive::unreached(),
        }
    }

    /// Writes each field as text, in the order in which the fields are
    /// declared.
    pub fn render_fields(&self) -> (out: Vec<String>)
        ensures
            texts(out@) == self.fields(),
    {
        match self {
            TorFlag::ConfigFile(text) | TorFlag::ControlSocket(text)
            | TorFlag::HashedControlPassword(text) | TorFlag::CookieAuthFile(text)
            | TorFlag::ControlPortWriteToFile(text) | TorFlag::DataDirectory(text)
            | TorFlag::CacheDirectory(text) | TorFlag::CacheDirectoryGroupReadable(text)
            | TorFlag::HTTPSProxy(text) | TorFlag::Socks4Proxy(text)
            | TorFlag::Socks5Proxy(text) | TorFlag::Socks5ProxyUsername(text)
            | TorFlag::Socks5ProxyPassword(text) | TorFlag::SyslogIdentityTag(text)
            | TorFlag::AndroidIdentityTag(text) | TorFlag::PidFile(text)
            | TorFlag::User(text) | TorFlag::HiddenServiceDir(text) | TorFlag::Custom(text) => {
                one(text.render())
            },
            TorFlag::PassphraseFD(number) => one(number.render()),
            TorFlag::BandwidthRate(number, unit) | TorFlag::BandwidthBurst(number, unit) => {
                two(number.render(), unit.render())
            },
            TorFlag::DisableNetwork(switch) | TorFlag::ControlSocketsGroupWritable(switch)
            | TorFlag::CookieAuthentication(switch)
            | TorFlag::CookieAuthFileGroupReadable(switch)
            | TorFlag::ControlPortFileGroupReadable(switch)
            | TorFlag::DataDirectoryGroupReadable(switch)
            | TorFlag::UnixSocksGroupWritable(switch) | TorFlag::LogMessageDomains(switch)
            | TorFlag::TruncateLogFile(switch) | TorFlag::SafeLogging(switch)
            | TorFlag::ProtocolWarnings(switch) | TorFlag::NoExec(switch)
            | TorFlag::ConnectionPadding(switch) | TorFlag::ReducedConnectionPadding(switch)
            | TorFlag::CircuitPadding(switch) | TorFlag::ReducedCircuitPadding(switch)
            | TorFlag::StrictNodes(switch) | TorFlag::FascistFirewall(switch)
            | TorFlag::SafeSocks(switch) | TorFlag::TestSocks(switch)
            | TorFlag::UpdateBridgesFromAuthority(switch) | TorFlag::UseBridges(switch)
            | TorFlag::HiddenServiceAllowUnknownPorts(switch)
            | TorFlag::HiddenServiceMaxStreamsCloseCircuit(switch) => one(switch.render()),
            TorFlag::ControlPort(number) | TorFlag::SocksPort(number) => one(number.render()),
            TorFlag::ControlPortAuto | TorFlag::SocksPortAuto => Vec::new(),
            TorFlag::ControlPortAddress(address, flags) => two(address.render(), flags.render()),
            TorFlag::HTTPSProxyAuthenticator(first, second)
            | TorFlag::MapAddress(first, second) => two(first.render(), second.render()),
            TorFlag::KeepalivePeriod(number) | TorFlag::LogTimeGranularity(number)
            | TorFlag::NewCircuitPeriod(number) | TorFlag::SocksTimeout(number)
            | TorFlag::HiddenServiceMaxStreams(number) => one(number.render()),
            TorFlag::Log(level) => one(level.render()),
            TorFlag::LogTo(level, destination) => two(level.render(), destination.render()),
            TorFlag::Bridge(first, second, third) => {
                three(first.render(), second.render(), third.render())
            },
            TorFlag::ExcludeNodes(nodes) | TorFlag::ExcludeExitNodes(nodes)
            | TorFlag::ExitNodes(nodes) | TorFlag::MiddleNodes(nodes)
            | TorFlag::EntryNodes(nodes) => one(nodes.render()),
            TorFlag::FirewallPorts(ports) => one(ports.render()),
            TorFlag::SocksPortAddress(address, flags, isolation) => {
                three(address.render(), flags.render(), isolation.render())
            },
            TorFlag::HiddenServicePort(address, target) => two(address.render(), target.render()),
            TorFlag::HiddenServiceVersion(version) => one(version.render()),
            TorFlag::HiddenServiceAuthorizeClient(kind, clients) => {
                two(kind.render(), clients.render())
            },
            TorFlag::LogExpanded(groups, destination) => {
                two(render_groups(groups), destination.render())
            },
        }
    }

    fn fill_template(&self) -> (line: String)
        requires
            self.rule() is Template,
        ensures
            line@ == self.name() + " "@ + self.template_body(),
    {
        let mut line = String::from_str(self.keyword());
        line.append(" ");
        match self {
            TorFlag::ConfigFile(file) => {
                line.append(file.as_str());
            },
            TorFlag::PassphraseFD(number) => {
                line.append(number.render().as_str());
            },
            TorFlag::ControlPortAddress(address, flags) => {
                line.append(address.render().as_str());
                line.append(" ");
                line.append(flags.render().as_str());
            },
            TorFlag::HTTPSProxyAuthenticator(user, password) => {
                line.append(user.as_str());
                line.append(":");
                line.append(password.as_str());
            },
            TorFlag::HiddenServiceAuthorizeClient(kind, clients) => {
                line.append(kind.render().as_str());
                line.append(" ");
                line.append(clients.render().as_str());
            },
            _ => {},
        }
        assert(line@ =~= self.name() + " "@ + self.template_body());
        line
    }

    /// Expands this directive into its tokens. The list is never empty.
    pub fn expand(&self) -> (tokens: Vec<String>)
        ensures
            texts(tokens@) == self.tokens(),
            tokens@.len() >= 1,
    {
        let tokens = match self {
            TorFlag::ControlPortAuto | TorFlag::SocksPortAuto => one(
                String::from_str(self.keyword()),
            ),
            TorFlag::ConfigFile(..)
            | TorFlag::PassphraseFD(..)
            | TorFlag::ControlPortAddress(..)
            | TorFlag::HTTPSProxyAuthenticator(..)
            | TorFlag::HiddenServiceAuthorizeClient(..) => {
                let line = self.fill_template();
                split_words(line.as_str())
            },
            TorFlag::Custom(line) => split_words(line.as_str()),
            TorFlag::Log(..) | TorFlag::LogTo(..) | TorFlag::LogExpanded(..) => log_expand(self),
            _ => {
                let mut tokens = one(String::from_str(self.keyword()));
                let mut fields = self.render_fields();
                let ghost head = tokens@;
                let ghost tail = fields@;
                tokens.append(&mut fields);
                assert(texts(head + tail) =~= texts(head) + texts(tail));
                tokens
            },
        };
        proof {
            self.tokens_are_never_empty();
            assert(texts(tokens@).len() == tokens@.len());
        }
        tokens
    }

    /// Writes this directive as one line: its name alone where it has one
    /// token, else its name and, in one pair of double quotes, its other
    /// tokens separated by single spaces.
    pub fn expand_cli(&self) -> (line: String)
        ensures
            line@ == self.cli(),
    {
        cli_line(self.expand())
    }

    /// Every directive expands to at least one token.
    pub proof fn tokens_are_never_empty(&self)
        ensures
            self.tokens().len() >= 1,
    {
        match self.rule() {
            Rule::Template => {
                crate::text::split_gives_words(self.name() + " "@ + self.template_body());
            },
            Rule::FreeForm => {
                crate::text::split_gives_words(self.fields()[0]);
            },
            _ => {},
        }
    }
}

/// The name of a directive is the first of its tokens.
pub proof fn name_is_first_token(flag: TorFlag)
    ensures
        flag.tokens().len() >= 1,
        flag.tokens()[0] == flag.name(),
{
    flag.tokens_are_never_empty();
    if flag.rule() is Template {
        pattern_tokens(flag);
    }
}

/// A directive with a pattern expands to its name, then the words of its
/// fields as the pattern lays them out.
pub proof fn pattern_tokens(flag: TorFlag)
    requires
        flag.rule() is Template,
    ensures
        flag.tokens() == seq![flag.name()] + split(flag.template_body()),
{
    reveal_strlit("-f");
    reveal_strlit("--passphrase-fd");
    reveal_strlit("ControlPort");
    reveal_strlit("HTTPSProxyAuthenticator");
    reveal_strlit("HiddenServiceAuthorizeClient");
    crate::text::split_after_word(flag.name(), flag.template_body());
}

/// A directive without fields is written as its name alone: one token, and
/// a line with no space and no quote added.
pub proof fn without_fields_name_alone(flag: TorFlag)
    requires
        flag.fields().len() == 0,
    ensures
        flag.tokens() == seq![flag.name()],
        flag.cli() == flag.name(),
{
}

/// A directive under the default rule has at least one field.
pub proof fn default_rule_has_fields(flag: TorFlag)
    requires
        flag.rule() is Default,
    ensures
        flag.fields().len() >= 1,
{
}

/// A directive under the default rule is written as its name, a space, and
/// in one pair of double quotes the text of each field in the order of the
/// fields, separated by single spaces.
pub proof fn default_rule_line(flag: TorFlag)
    requires
        flag.rule() is Default,
        flag.fields().len() >= 1,
    ensures
        flag.tokens() == seq![flag.name()] + flag.fields(),
        flag.cli() == flag.name() + " "@ + "\""@ + join(flag.fields(), " "@) + "\""@,
{
    crate::expand::several_tokens_are_quoted(flag.tokens());
    assert(flag.tokens().skip(1) =~= flag.fields());
}

/// A log directive of a level alone is written `Log "level"`, and one of a
/// level and a destination `Log "level destination"`.
pub proof fn plain_log_lines(level: LogLevel, destination: LogDestination)
    ensures
        TorFlag::Log(level).cli() == "Log"@ + " "@ + "\""@ + level.rendered() + "\""@,
        TorFlag::LogTo(level, destination).cli() == "Log"@ + " "@ + "\""@ + (level.rendered()
            + " "@ + destination.rendered()) + "\""@,
{
    let bare = TorFlag::Log(level);
    let to = TorFlag::LogTo(level, destination);
    crate::expand::several_tokens_are_quoted(bare.tokens());
    crate::expand::several_tokens_are_quoted(to.tokens());
    assert(bare.tokens().skip(1) =~= seq![bare.log_text()]);
    assert(to.tokens().skip(1) =~= seq![to.log_text()]);
}

/// Expansion depends on the directive alone: whatever two expansions of one
/// directive return, they hold the same tokens in the same order.
pub proof fn expansion_is_repeatable(flag: TorFlag, first: Vec<String>, second: Vec<String>)
    requires
        texts(first@) == flag.tokens(),
        texts(second@) == flag.tokens(),
    ensures
        texts(first@) == texts(second@),
        cli_text(texts(first@)) == cli_text(texts(second@)),
        first@.len() == second@.len(),
        forall|i: int| 0 <= i < first@.len() ==> (#[trigger] first@[i])@ == second@[i]@,
{
    assert(texts(first@).len() == first@.len());
    assert(texts(second@).len() == second@.len());
    assert forall|i: int| 0 <= i < first@.len() implies (#[trigger] first@[i])@ == second@[i]@ by {
        assert(texts(first@)[i] == first@[i]@);
        assert(texts(second@)[i] == second@[i]@);
    }
}

/// Expands a log directive: the token `Log`, and one token that holds the
/// whole log specification.
pub fn log_expand(flag: &TorFlag) -> (tokens: Vec<String>)
    requires
        flag.rule() is Delegated,
    ensures
        texts(tokens@) == seq!["Log"@, flag.log_text()],
{
    let mut line = match flag {
        TorFlag::Log(level) | TorFlag::LogTo(level, _) => {
            let mut levels: Vec<(Vec<(bool, LogDomain)>, LogLevel)> = Vec::new();
            levels.push((Vec::new(), *level));
            render_groups(&levels)
        },
        TorFlag::LogExpanded(levels, _) => render_groups(levels),
        _ => vstd::pervasive::unreached(),
    };
    match flag {
        TorFlag::LogTo(_, destination) | TorFlag::LogExpanded(_, destination) => {
            line.append(" ");
            line.append(destination.render().as_str());
        },
        _ => {},
    }
    two(String::from_str("Log"), line)
}

} // verus!
