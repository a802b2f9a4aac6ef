//! The command line, as the library receives it once parsed.
use vstd::prelude::*;

verus! {

/// A parsed command line.
#[derive(Debug)]
pub struct Cli {
    pub command: Command,
}

/// The top-level commands.
#[derive(Debug)]
pub enum Command {
    /// Send a notification.
    Send(SendArgs),
    /// Manage profiles.
    Profile { command: ProfileCmd },
}

/// The arguments of `send`.
#[derive(Debug)]
pub struct SendArgs {
    /// The profile to send through; the default profile where absent.
    pub profile: Option<String>,
    pub title: Option<String>,
    pub priority: Option<i8>,
    pub sound: Option<String>,
    pub device: Option<String>,
    pub url: Option<String>,
    pub url_title: Option<String>,
    /// The notification body.
    pub message: String,
}

/// The `profile` subcommands.
#[derive(Debug)]
pub enum ProfileCmd {
    /// Create a new profile.
    Add(ProfileAddArgs),
    /// List the profiles of both tiers.
    List,
    /// Print a profile's file.
    Show { name: String, system: bool },
    /// Delete a profile.
    Remove { name: String, system: bool },
    /// Set a profile as the default.
    Use { name: String, system: bool },
    /// Print where a profile, or the profiles directory, is stored.
    Path { name: Option<String>, system: bool },
}

/// The arguments of `profile add`.
#[derive(Debug)]
pub struct ProfileAddArgs {
    pub name: String,
    pub service: ServiceKind,
    /// The application token; required for Pushover.
    pub token: Option<String>,
    /// The user or group key; required for Pushover.
    pub user_key: Option<String>,
    pub title: Option<String>,
    pub priority: Option<i8>,
    pub sound: Option<String>,
    pub device: Option<String>,
    pub url: Option<String>,
    pub url_title: Option<String>,
    /// Create the profile in the system tier.
    pub system: bool,
}

/// The services a profile can use.
#[derive(Copy, Clone, Debug, PartialEq, Eq, Structural)]
pub enum ServiceKind {
    Pushover,
}

} // verus!
