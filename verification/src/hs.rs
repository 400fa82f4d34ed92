//! Field types of the hidden-service directives.

use crate::utils::Render;
use vstd::prelude::*;

verus! {

/// The version of the hidden-service protocol, written as its number.
#[derive(Debug, Clone, Copy)]
pub enum HiddenServiceVersion {
    V2,
    V3,
}

impl Render for HiddenServiceVersion {
    open spec fn rendered(&self) -> Seq<char> {
        match self {
            HiddenServiceVersion::V2 => "2"@,
            HiddenServiceVersion::V3 => "3"@,
        }
    }

    fn render(&self) -> (out: String) {
        match self {
            HiddenServiceVersion::V2 => String::from_str("2"),
            HiddenServiceVersion::V3 => String::from_str("3"),
        }
    }
}

/// How the clients of a hidden service are authorised. Its text is its own
/// name.
#[derive(Debug, Clone, Copy)]
pub enum HiddenServiceAuthType {
    Basic,
    Stealth,
}

impl Render for HiddenServiceAuthType {
    open spec fn rendered(&self) -> Seq<char> {
        match self {
            HiddenServiceAuthType::Basic => "Basic"@,
            HiddenServiceAuthType::Stealth => "Stealth"@,
        }
    }

    fn render(&self) -> (out: String) {
        match self {
            HiddenServiceAuthType::Basic => String::from_str("Basic"),
            HiddenServiceAuthType::Stealth => String::from_str("Stealth"),
        }
    }
}

} // verus!
