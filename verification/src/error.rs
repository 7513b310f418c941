//! Errors.

use crate::text::{decimal, usize_to_string};
use vstd::prelude::*;
use vstd::string::StringExecFns;

verus! {

/// What can be wrong with a herb farming configuration. These are reported
/// to the caller as they are, never papered over with a default.
#[derive(Copy, Clone, Debug, PartialEq, Eq)]
pub enum FarmError {
    /// No herb patch is configured, so there is nothing to add up.
    NoPatches,
    /// Resurrect Crops is enabled but no magic level was given.
    MagicLevelMissing,
    /// Resurrect Crops is enabled but the magic level is too low to cast it.
    MagicLevelTooLow { required: usize, actual: usize },
}

/// What can go wrong while a command runs.
#[derive(Clone, Debug)]
pub enum OsrsError {
    /// What was given on the command line makes no sense.
    ArgsError(String),
    /// There is no skill of this name.
    UnknownSkill(String),
    /// There is no such level.
    InvalidLevel(usize),
    /// A setting that the command needs has not been made.
    Unconfigured { key: String, message: String },
    /// The settings contradict each other or the player.
    InvalidConfig(String),
}

/// What a farming error reads as.
pub open spec fn farm_error_text(e: FarmError) -> Seq<char> {
    match e {
        FarmError::NoPatches => "Configure your herb patches to use this calculator."@,
        FarmError::MagicLevelMissing => "Resurrect Crops is enabled, but no magic level is known"@,
        FarmError::MagicLevelTooLow { required, actual } => "Resurrect Crops requires level "@
            + decimal(required as nat) + ", but player has level "@ + decimal(actual as nat),
    }
}

impl FarmError {
    /// The error in words.
    pub fn to_string(&self) -> (text: String)
        ensures
            text@ == farm_error_text(*self),
    {
        match self {
            FarmError::NoPatches => String::from_str(
                "Configure your herb patches to use this calculator.",
            ),
            FarmError::MagicLevelMissing => String::from_str(
                "Resurrect Crops is enabled, but no magic level is known",
            ),
            FarmError::MagicLevelTooLow { required, actual } => {
                let mut text = String::from_str("Resurrect Crops requires level ");
                text.append(usize_to_string(*required).as_str());
                text.append(", but player has level ");
                text.append(usize_to_string(*actual).as_str());
                text
            },
        }
    }
}

impl OsrsError {
    /// The error in words.
    pub open spec fn spec_text(self) -> Seq<char> {
        match self {
            OsrsError::ArgsError(what) => "Argument error: "@ + what@,
            OsrsError::UnknownSkill(name) => "Unknown skill: "@ + name@,
            OsrsError::InvalidLevel(level) => "Invalid level. Must be between 1 and 127, got: "@
                + decimal(level as nat),
            OsrsError::Unconfigured { key, message } => "Missing configuration for "@ + key@
                + ". "@ + message@,
            OsrsError::InvalidConfig(what) => "Invalid configuration: "@ + what@,
        }
    }

    /// The error in words.
    pub fn to_string(&self) -> (text: String)
        ensures
            text@ == self.spec_text(),
    {
        match self {
            OsrsError::ArgsError(what) => {
                let mut text = String::from_str("Argument error: ");
                text.append(what.as_str());
                text
            },
            OsrsError::UnknownSkill(name) => {
                let mut text = String::from_str("Unknown skill: ");
                text.append(name.as_str());
                text
            },
            OsrsError::InvalidLevel(level) => {
                let mut text = String::from_str("Invalid level. Must be between 1 and 127, got: ");
                text.append(usize_to_string(*level).as_str());
                text
            },
            OsrsError::Unconfigured { key, message } => {
                let mut text = String::from_str("Missing configuration for ");
                text.append(key.as_str());
                text.append(". ");
                text.append(message.as_str());
                text
            },
            OsrsError::InvalidConfig(what) => {
                let mut text = String::from_str("Invalid configuration: ");
                text.append(what.as_str());
                text
            },
        }
    }

    /// A farming error as an error of a command: a run without patches is
    /// a setting that is missing, anything wrong with the magic level is a
    /// contradiction in the settings.
    pub fn from_farm_error(e: FarmError) -> (error: OsrsError)
        ensures
            match e {
                FarmError::NoPatches => error is Unconfigured && error->key@
                    == "farming.herbs.patches"@ && error->message@ == farm_error_text(e),
                _ => error is InvalidConfig && error->InvalidConfig_0@ == farm_error_text(e),
            },
    {
        match e {
            FarmError::NoPatches => OsrsError::Unconfigured {
                key: String::from_str("farming.herbs.patches"),
                message: e.to_string(),
            },
            _ => OsrsError::InvalidConfig(e.to_string()),
        }
    }
}

} // verus!
