//! The commands, as sessions: a session decides, the program around it
//! performs the file-system, terminal and network work that each decision
//! asks for and answers with what came of it.
use vstd::prelude::*;

use crate::config::Config;
use crate::error::Error;
use crate::paths::{first_search_tier, FsPath, ProfileSearch};
use crate::profile::Profile;
use crate::service::{Delivery, Reply};

pub mod profile;
pub mod send;

verus! {

/// Work that a session asks the program to perform.
#[derive(Debug)]
pub enum Action {
    /// Read and parse a tier's settings file; answered by `ConfigLoaded`
    /// (`None` where the file does not exist).
    LoadConfig(FsPath),
    /// Write a tier's settings file, creating its directory; answered by `Done`.
    StoreConfig(FsPath, Config),
    /// Ask whether a file exists; answered by `Exists`.
    Probe(FsPath),
    /// Read a text file; answered by `Text` (`None` where it does not exist).
    ReadText(FsPath),
    /// Read and parse a profile file; answered by `ProfileLoaded`.
    LoadProfile(FsPath),
    /// Write a profile file, creating its directory; answered by `Done`.
    StoreProfile(FsPath, Profile),
    /// Delete a file; answered by `Deleted` (`false` where it did not exist).
    Delete(FsPath),
    /// List a directory's entries; answered by `Listing` (`None` where the
    /// directory does not exist).
    ListDir(FsPath),
    /// Write this text to standard output; answered by `Done`.
    Print(String),
    /// Write this text to standard error; answered by `Done`.
    Warn(String),
    /// Write a path and a newline to standard output; answered by `Done`.
    ShowPath(FsPath),
    /// Post a delivery to a service; answered by `Replied`.
    Deliver(Delivery),
    /// The command is over, with this result.
    Finish(Result<(), Error>),
}

/// What came of an action.
#[derive(Debug)]
pub enum Event {
    Done,
    ConfigLoaded(Option<Config>),
    Exists(bool),
    Text(Option<String>),
    ProfileLoaded(Profile),
    Deleted(bool),
    /// The file names of a directory's entries (`None` for a name that is
    /// not valid Unicode), or `None` where the directory does not exist.
    Listing(Option<Vec<Option<String>>>),
    Replied(Reply),
}

/// The kind of event that a session waits for.
#[derive(Copy, Clone, Debug, PartialEq, Eq, Structural)]
pub enum Awaiting {
    Done,
    Config,
    Existence,
    Text,
    Profile,
    Deletion,
    Listing,
    Reply,
    /// The session is over and waits for nothing.
    Nothing,
}

/// The kind of event that answers an action.
pub open spec fn answer_to(a: Action) -> Awaiting {
    match a {
        Action::LoadConfig(_) => Awaiting::Config,
        Action::StoreConfig(_, _) => Awaiting::Done,
        Action::Probe(_) => Awaiting::Existence,
        Action::ReadText(_) => Awaiting::Text,
        Action::LoadProfile(_) => Awaiting::Profile,
        Action::StoreProfile(_, _) => Awaiting::Done,
        Action::Delete(_) => Awaiting::Deletion,
        Action::ListDir(_) => Awaiting::Listing,
        Action::Print(_) => Awaiting::Done,
        Action::Warn(_) => Awaiting::Done,
        Action::ShowPath(_) => Awaiting::Done,
        Action::Deliver(_) => Awaiting::Reply,
        Action::Finish(_) => Awaiting::Nothing,
    }
}

/// The kind of an event.
pub open spec fn kind_of(e: Event) -> Awaiting {
    match e {
        Event::Done => Awaiting::Done,
        Event::ConfigLoaded(_) => Awaiting::Config,
        Event::Exists(_) => Awaiting::Existence,
        Event::Text(_) => Awaiting::Text,
        Event::ProfileLoaded(_) => Awaiting::Profile,
        Event::Deleted(_) => Awaiting::Deletion,
        Event::Listing(_) => Awaiting::Listing,
        Event::Replied(_) => Awaiting::Reply,
    }
}

/// The default profile that a loaded settings file sets; a missing file
/// sets none.
pub open spec fn loaded_default(c: Option<Config>) -> Option<String> {
    match c {
        Some(cfg) => cfg.default_profile,
        None => None,
    }
}

/// A search that has just begun: it probes the tier where searches start
/// (the user tier where it can be located) for `name`.
pub open spec fn search_begun(search: ProfileSearch, act: Action, name: String, env: crate::paths::Environment) -> bool {
    &&& search.wf()
    &&& search.name == name
    &&& search.env == env
    &&& search.tier == first_search_tier(env)
    &&& act matches Action::Probe(q) && q@ == search.path@
}

impl Event {
    /// The kind of this event.
    pub fn kind(&self) -> (k: Awaiting)
        ensures
            k == kind_of(*self),
    {
        match self {
            Event::Done => Awaiting::Done,
            Event::ConfigLoaded(_) => Awaiting::Config,
            Event::Exists(_) => Awaiting::Existence,
            Event::Text(_) => Awaiting::Text,
            Event::ProfileLoaded(_) => Awaiting::Profile,
            Event::Deleted(_) => Awaiting::Deletion,
            Event::Listing(_) => Awaiting::Listing,
            Event::Replied(_) => Awaiting::Reply,
        }
    }
}

} // verus!
