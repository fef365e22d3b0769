//! Errors of the media-player client.

use crate::text::{chars_of, push_str, string_of};
use vstd::prelude::*;

verus! {

/// What can go wrong in the client. The variants that stand for a failure
/// of the bus or of the file system carry its description.
#[derive(Clone, Debug)]
pub enum MprisError {
    /// The bus could not be reached, or a call on it failed.
    DBus(String),
    /// A call to the bus daemon failed.
    Fdo(String),
    /// No player is there.
    NoPlayer,
    /// The player no longer answers.
    Disconnected,
    /// A file could not be read or written.
    Io(String),
    /// The preference file is not usable.
    Config(String),
}

/// The text of an error.
pub open spec fn message_text(error: MprisError) -> Seq<char> {
    match error {
        MprisError::DBus(detail) => "D-Bus error: "@ + detail@,
        MprisError::Fdo(detail) => "D-Bus fdo error: "@ + detail@,
        MprisError::NoPlayer => "No MPRIS player found"@,
        MprisError::Disconnected => "Player disconnected"@,
        MprisError::Io(detail) => "IO error: "@ + detail@,
        MprisError::Config(detail) => "Config error: "@ + detail@,
    }
}

/// A heading followed by a detail.
fn headed(heading: &str, detail: &str) -> (text: String)
    ensures
        text@ == heading@ + detail@,
{
    let mut out = chars_of(heading);
    push_str(&mut out, detail);
    string_of(out.as_slice())
}

impl MprisError {
    /// The text of the error, for a log or a user.
    pub fn message(&self) -> (text: String)
        ensures
            text@ == message_text(*self),
    {
        match self {
            MprisError::DBus(detail) => headed("D-Bus error: ", detail.as_str()),
            MprisError::Fdo(detail) => headed("D-Bus fdo error: ", detail.as_str()),
            MprisError::NoPlayer => {
                let text = chars_of("No MPRIS player found");
                string_of(text.as_slice())
            },
            MprisError::Disconnected => {
                let text = chars_of("Player disconnected");
                string_of(text.as_slice())
            },
            MprisError::Io(detail) => headed("IO error: ", detail.as_str()),
            MprisError::Config(detail) => headed("Config error: ", detail.as_str()),
        }
    }
}

} // verus!
