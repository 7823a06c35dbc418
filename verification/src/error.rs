//! Errors of the loop, by where they come from.

use vstd::prelude::*;

verus! {

/// Error type. Each variant carries the message of the failure.
#[derive(Clone, Debug)]
#[non_exhaustive]
pub enum Error {
    /// The platform's event loop failed.
    EventLoopError(String),
    /// The operating system refused a request of the windowing layer.
    OsError(String),
    /// The pixel surface failed.
    PixelsError(String),
    /// The texture behind the pixel surface failed.
    TextureError(String),
    /// Generic error.
    Other(String),
}

impl Error {
    /// The message of the failure, as a sequence of characters.
    pub open spec fn text(self) -> Seq<char> {
        match self {
            Error::EventLoopError(message) => message@,
            Error::OsError(message) => message@,
            Error::PixelsError(message) => message@,
            Error::TextureError(message) => message@,
            Error::Other(message) => message@,
        }
    }

    /// Construct an [`Error::Other`] from a string.
    pub fn new(msg: &str) -> (error: Error)
        ensures
            error is Other,
            error.text() == msg@,
    {
        Error::Other(msg.to_owned())
    }

    /// The message of the failure.
    pub fn message(&self) -> (message: &str)
        ensures
            message@ == self.text(),
    {
        match self {
            Error::EventLoopError(message) => message.as_str(),
            Error::OsError(message) => message.as_str(),
            Error::PixelsError(message) => message.as_str(),
            Error::TextureError(message) => message.as_str(),
            Error::Other(message) => message.as_str(),
        }
    }

    /// Whether the failure came from the application rather than from the
    /// window or the surface.
    pub fn is_other(&self) -> (yes: bool)
        ensures
            yes == (*self is Other),
    {
        matches!(self, Error::Other(_))
    }
}

} // verus!
