//! The ways in which the repair of one picture can fail.

use vstd::prelude::*;

verus! {

/// Why the repair of one picture failed. Every failure ends the work on
/// that picture; nothing is retried.
#[derive(Clone, Copy, Debug, PartialEq, Eq, Structural)]
pub enum Error {
    /// A file could not be opened, read, written or copied, or a directory
    /// could not be created.
    Io,
    /// The bytes of a picture are malformed or in a format that is not
    /// supported.
    Decode,
    /// The result could not be written in the format asked for.
    Encode,
    /// The control points of a warp are degenerate, as for an empty picture,
    /// or a transformed mask does not have the dimensions of the picture.
    Geometry,
}

impl Error {
    /// A short description for a diagnostic.
    pub fn describe(&self) -> (text: &'static str)
        ensures
            text@ == match *self {
                Error::Io => "input or output failed"@,
                Error::Decode => "picture could not be decoded"@,
                Error::Encode => "picture could not be encoded"@,
                Error::Geometry => "degenerate geometry"@,
            },
    {
        match self {
            Error::Io => "input or output failed",
            Error::Decode => "picture could not be decoded",
            Error::Encode => "picture could not be encoded",
            Error::Geometry => "degenerate geometry",
        }
    }
}

} // verus!
