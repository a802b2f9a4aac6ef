//! Errors that the library's own rules raise.
use vstd::prelude::*;

verus! {

/// An error that the library itself decides on. Failures of the file
/// system, of parsing and of the network happen around the library and
/// are reported by the program that drives it.
#[derive(Debug, Clone, PartialEq, Eq)]
pub enum Error {
    /// The notification service refused the message; the text says why.
    Service(String),
    /// A profile name holds a character outside `A-Z a-z 0-9 _ -`, or is empty.
    InvalidProfileName(String),
    /// No profile of that name exists where it was looked for.
    ProfileNotFound(String),
    /// A profile of that name already exists in the tier written to.
    ProfileExists(String),
    /// No profile was named and no tier sets a default profile.
    NoDefaultProfile,
    /// The user tier has no base directory in this environment.
    NoConfigHome,
}

/// The text by which an error is reported.
pub open spec fn error_message(e: Error) -> Seq<char> {
    match e {
        Error::Service(msg) => "service error: "@ + msg@,
        Error::InvalidProfileName(name) => "invalid profile name '"@ + name@
            + "' (allowed: A-Z a-z 0-9 _ -)"@,
        Error::ProfileNotFound(name) => "profile '"@ + name@ + "' not found"@,
        Error::ProfileExists(name) => "profile '"@ + name@ + "' already exists"@,
        Error::NoDefaultProfile => "no default profile set; pass --profile NAME or run `pushit profile use NAME`"@,
        Error::NoConfigHome => "could not determine a config directory"@,
    }
}

impl Error {
    /// The text by which the error is reported to the user.
    pub fn message(&self) -> (s: String)
        ensures
            s@ == error_message(*self),
    {
        match self {
            Error::Service(msg) => String::from_str("service error: ").concat(msg.as_str()),
            Error::InvalidProfileName(name) => String::from_str("invalid profile name '").concat(
                name.as_str(),
            ).concat("' (allowed: A-Z a-z 0-9 _ -)"),
            Error::ProfileNotFound(name) => String::from_str("profile '").concat(
                name.as_str(),
            ).concat("' not found"),
            Error::ProfileExists(name) => String::from_str("profile '").concat(
                name.as_str(),
            ).concat("' already exists"),
            Error::NoDefaultProfile => String::from_str(
                "no default profile set; pass --profile NAME or run `pushit profile use NAME`",
            ),
            Error::NoConfigHome => String::from_str("could not determine a config directory"),
        }
    }
}

} // verus!
