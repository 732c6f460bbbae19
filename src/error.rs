//! Errors reported by the library.

use vstd::prelude::*;
use crate::text::push_str;

verus! {

/// What went wrong with a command, a file or fetched data.
#[derive(Clone, Debug, PartialEq, Eq)]
pub enum Error {
    FileBadAccess,
    /// An external command could not be run; the reason is kept.
    CommandFailed(String),
    JsonParsing,
    ChannelParsing,
    VideoParsing,
    VideoNotAvailable,
    TomlParsing,
    InternalError(String),
}

impl Error {
    /// The message shown to the user.
    pub fn message(&self) -> (r: String)
        ensures
            r@ == match self {
                Error::FileBadAccess => "Could not access file"@,
                Error::CommandFailed(c) => "Could not run command: "@ + c@,
                Error::JsonParsing => "Could not parse JSON"@,
                Error::ChannelParsing => "Could not parse channel information from yt-dlp"@,
                Error::VideoParsing => "Could not parse video information from yt-dlp"@,
                Error::VideoNotAvailable => "Fetched video was not available"@,
                Error::TomlParsing => "Could not load toml configuration"@,
                Error::InternalError(e) => "Internal Error("@ + e@ + ")"@,
            },
    {
        let mut r = String::new();
        match self {
            Error::FileBadAccess => push_str(&mut r, "Could not access file"),
            Error::CommandFailed(c) => {
                push_str(&mut r, "Could not run command: ");
                push_str(&mut r, c.as_str());
            },
            Error::JsonParsing => push_str(&mut r, "Could not parse JSON"),
            Error::ChannelParsing => push_str(&mut r, "Could not parse channel information from yt-dlp"),
            Error::VideoParsing => push_str(&mut r, "Could not parse video information from yt-dlp"),
            Error::VideoNotAvailable => push_str(&mut r, "Fetched video was not available"),
            Error::TomlParsing => push_str(&mut r, "Could not load toml configuration"),
            Error::InternalError(e) => {
                push_str(&mut r, "Internal Error(");
                push_str(&mut r, e.as_str());
                push_str(&mut r, ")");
            },
        }
        proof {
            reveal_strlit("");
        }
        assert(r@ =~= match self {
            Error::FileBadAccess => "Could not access file"@,
            Error::CommandFailed(c) => "Could not run command: "@ + c@,
            Error::JsonParsing => "Could not parse JSON"@,
            Error::ChannelParsing => "Could not parse channel information from yt-dlp"@,
            Error::VideoParsing => "Could not parse video information from yt-dlp"@,
            Error::VideoNotAvailable => "Fetched video was not available"@,
            Error::TomlParsing => "Could not load toml configuration"@,
            Error::InternalError(e) => "Internal Error("@ + e@ + ")"@,
        });
        r
    }
}

} // verus!
