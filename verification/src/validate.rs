//! The checks that gate a run: is the source a directory, and is there a
//! destination to write to.

use vstd::prelude::*;

verus! {

/// What is known of a path after looking at the file system.
#[derive(Clone, Copy, Debug, PartialEq, Eq, Structural)]
pub struct PathProbe {
    /// Something exists at the path.
    pub exists: bool,
    /// What exists there is a directory.
    pub is_dir: bool,
}

/// An error that ends a run before any file is looked for or converted.
#[derive(Clone, Copy, Debug, PartialEq, Eq, Structural)]
pub enum FatalError {
    /// Nothing exists at the source path.
    NotFound,
    /// The source path is not a directory.
    NotADirectory,
    /// The destination directory is missing and could not be created.
    CannotCreate,
}

/// Whether a probe found a directory.
pub open spec fn is_directory(probe: PathProbe) -> bool {
    probe.exists && probe.is_dir
}

/// What is wrong with a source that was found as `probe` says, if anything.
pub open spec fn source_check(probe: PathProbe) -> Result<(), FatalError> {
    if is_directory(probe) {
        Ok(())
    } else if probe.exists {
        Err(FatalError::NotADirectory)
    } else {
        Err(FatalError::NotFound)
    }
}

/// Checks the source of a run: it has to exist and to be a directory.
pub fn validate_source(probe: PathProbe) -> (checked: Result<(), FatalError>)
    ensures
        checked == source_check(probe),
{
    if probe.exists && probe.is_dir {
        Ok(())
    } else if probe.exists {
        Err(FatalError::NotADirectory)
    } else {
        Err(FatalError::NotFound)
    }
}

/// Whether the destination of a run can be used as it was found. Where it
/// cannot, it is to be created, with every missing parent.
pub fn destination_ready(probe: PathProbe) -> (ready: bool)
    ensures
        ready == is_directory(probe),
{
    probe.exists && probe.is_dir
}

/// The text of a fatal error about `path`.
pub open spec fn fatal_text(error: FatalError, path: Seq<char>) -> Seq<char> {
    match error {
        FatalError::NotFound | FatalError::NotADirectory =>
            "The path either doesn't exist in the filesystem or is not a directory: "@ + path,
        FatalError::CannotCreate => "Could not create directory!"@,
    }
}

impl FatalError {
    /// Says what went wrong with `path`.
    pub fn describe(&self, path: &str) -> (text: String)
        ensures
            text@ == fatal_text(*self, path@),
    {
        match self {
            FatalError::NotFound | FatalError::NotADirectory => {
                let mut text = String::from_str(
                    "The path either doesn't exist in the filesystem or is not a directory: ",
                );
                text.append(path);
                text
            },
            FatalError::CannotCreate => String::from_str("Could not create directory!"),
        }
    }
}

/// A source is accepted exactly when it is a directory, and is never
/// rejected for want of a directory that could be created.
pub proof fn lemma_source_check(probe: PathProbe)
    ensures
        source_check(probe) is Ok <==> probe.exists && probe.is_dir,
        source_check(probe) != Err::<(), FatalError>(FatalError::CannotCreate),
        source_check(probe) == Err::<(), FatalError>(FatalError::NotFound) <==> !probe.exists,
{
}

} // verus!
