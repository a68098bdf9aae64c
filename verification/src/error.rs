//! Errors of commands.

use vstd::prelude::*;
use vstd::string::*;

verus! {

/// Why a command failed.
#[derive(Debug, PartialEq)]
pub enum CliError {
    /// An integration could not be installed, removed or read.
    Install(String),
    /// An agent could not be launched.
    Launch(String),
    /// A request is not one that can be served.
    InvalidPayload(String),
    /// A request is too long.
    PayloadTooLarge(String),
}

pub enum Failure {
    Install(Seq<char>),
    Launch(Seq<char>),
    InvalidPayload(Seq<char>),
    PayloadTooLarge(Seq<char>),
}

impl CliError {
    pub open spec fn view(&self) -> Failure {
        match self {
            CliError::Install(s) => Failure::Install(s@),
            CliError::Launch(s) => Failure::Launch(s@),
            CliError::InvalidPayload(s) => Failure::InvalidPayload(s@),
            CliError::PayloadTooLarge(s) => Failure::PayloadTooLarge(s@),
        }
    }

    /// The error in words.
    pub fn message(&self) -> (r: &str)
        ensures
            r@ == self.view().text(),
    {
        match self {
            CliError::Install(s) => s.as_str(),
            CliError::Launch(s) => s.as_str(),
            CliError::InvalidPayload(s) => s.as_str(),
            CliError::PayloadTooLarge(s) => s.as_str(),
        }
    }
}

impl Failure {
    pub open spec fn text(self) -> Seq<char> {
        match self {
            Failure::Install(s) => s,
            Failure::Launch(s) => s,
            Failure::InvalidPayload(s) => s,
            Failure::PayloadTooLarge(s) => s,
        }
    }
}

} // verus!
