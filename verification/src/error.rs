//! Errors raised while searching and fetching remote raw images.

use vstd::prelude::*;
use crate::util::{concat_str, to_owned_string};

verus! {

/// Why a remote operation did not complete. Each variant carries its message.
#[derive(Clone, Debug)]
pub enum Error {
    RemoteError(String),
    NoNetwork(String),
    FileFoundLocal(String),
    MissionNotSupported(String),
    NotDownloading(String),
    UnknownError(String),
    ParseFailure(String),
}

impl Error {
    /// The message carried by the error.
    pub open spec fn message_view(&self) -> Seq<char> {
        match self {
            Error::RemoteError(m) => m@,
            Error::NoNetwork(m) => m@,
            Error::FileFoundLocal(m) => m@,
            Error::MissionNotSupported(m) => m@,
            Error::NotDownloading(m) => m@,
            Error::UnknownError(m) => m@,
            Error::ParseFailure(m) => m@,
        }
    }

    /// The message carried by the error.
    pub fn message(&self) -> (r: String)
        ensures
            r@ == self.message_view(),
    {
        match self {
            Error::RemoteError(m) => m.clone(),
            Error::NoNetwork(m) => m.clone(),
            Error::FileFoundLocal(m) => m.clone(),
            Error::MissionNotSupported(m) => m.clone(),
            Error::NotDownloading(m) => m.clone(),
            Error::UnknownError(m) => m.clone(),
            Error::ParseFailure(m) => m.clone(),
        }
    }
}

/// The error for a download whose destination file already exists.
pub fn file_found_local(file_path: &str) -> (r: Error)
    ensures
        r matches Error::FileFoundLocal(m) && m@ == "File exists on destination filesystem: "@
            + file_path@,
{
    Error::FileFoundLocal(concat_str("File exists on destination filesystem: ", file_path))
}

/// The error for a mission that has no remote support.
pub fn mission_not_supported(mission: &str) -> (r: Error)
    ensures
        r matches Error::MissionNotSupported(m) && m@ == "Mission not supported: "@ + mission@,
{
    Error::MissionNotSupported(concat_str("Mission not supported: ", mission))
}

/// The error for a listing where the user asked for no downloads.
pub fn not_downloading() -> (r: Error)
    ensures
        r matches Error::NotDownloading(m) && m@ == "Skipping download; User requested to list only"@,
{
    Error::NotDownloading(to_owned_string("Skipping download; User requested to list only"))
}

} // verus!
