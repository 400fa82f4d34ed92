//! Typed configuration directives for a Tor daemon, and their encoding into
//! the tokens that the daemon's command line and configuration file accept.
//!
//! A [`Tor`] collects [`TorFlag`] directives in order. Each directive
//! expands into a list of tokens ([`TorFlag::expand`]) and into a single
//! line ([`TorFlag::expand_cli`]); the whole configuration expands into an
//! argument vector ([`Tor::arguments`]).

/// From a token list to a configuration line
pub mod expand;
/// The directives
pub mod flag;
/// Hidden services related flags
pub mod hs;
/// Log related flags
pub mod log;
/// ControlPort and SocksPort related flags
pub mod ports;
/// Joining, splitting and numbers
pub mod text;
/// The configuration builder
pub mod tor;
/// Rendering, optional values and joined lists
pub mod utils;
/// Switches, units and addresses
pub mod values;

pub use crate::flag::{log_expand, TorFlag};
pub use crate::hs::{HiddenServiceAuthType, HiddenServiceVersion};
pub use crate::log::{LogDestination, LogDomain, LogLevel};
pub use crate::ports::{ControlPortFlag, SocksPortFlag, SocksPortIsolationFlag};
pub use crate::tor::{Error, Tor};
pub use crate::utils::{CommaJoiner, DisplayOption, DisplayVec, Joiner, Render, SpaceJoiner};
pub use crate::values::{SizeUnit, TorAddress, TorBool};
