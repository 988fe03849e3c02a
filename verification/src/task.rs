//! The three files of one unit of work.

use vstd::prelude::*;

verus! {

/// One of the files that the repair of a picture touches.
#[derive(Clone, Copy, Debug, PartialEq, Eq, Structural)]
pub enum File {
    /// The picture with trustworthy alpha.
    Original,
    /// The upscaled picture.
    Upscaled,
    /// The repaired picture.
    Output,
}

/// The file whose extension names the format of `file`.
///
/// The upscaled picture is taken to be in the format of the original,
/// whatever its own extension says. The output is written in the format
/// that its own extension names.
pub open spec fn format_source(file: File) -> File {
    match file {
        File::Original => File::Original,
        File::Upscaled => File::Original,
        File::Output => File::Output,
    }
}

/// The file from whose extension the format of `file` is inferred.
pub fn format_named_by(file: File) -> (source: File)
    ensures
        source == format_source(file),
{
    match file {
        File::Original => File::Original,
        File::Upscaled => File::Original,
        File::Output => File::Output,
    }
}

} // verus!
