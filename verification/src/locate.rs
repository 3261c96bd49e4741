//! Deciding where the document is looked for.
//!
//! Nothing here touches the file system. The caller says what stands at the
//! path it was given, and is told what to do: read that file, or search a
//! directory for a document.

use vstd::prelude::*;
use vstd::string::StringExecFns;

verus! {

/// What stands at the path that the caller was given.
#[derive(Clone, Copy, Debug, PartialEq, Eq, Structural)]
pub enum Target {
    /// A file; `has_parent` says whether the path has a parent directory.
    File { has_parent: bool },
    /// A directory.
    Directory,
    /// Something else, or nothing.
    Other,
}

/// Where the document comes from, and with it the working directory.
#[derive(Clone, Copy, Debug, PartialEq, Eq, Structural)]
pub enum Plan {
    /// Read the file at the given path; its parent is the working directory.
    ReadFile,
    /// Search the directory at the given path, which is the working
    /// directory.
    SearchGiven,
    /// Search the directory that the process runs in, which is the working
    /// directory.
    SearchCurrent,
}

/// Why no document could be looked for, or none was found.
#[derive(Clone, Copy, Debug, PartialEq, Eq, Structural)]
pub enum PathResolutionError {
    /// The path is a file without a parent directory.
    NoParent,
    /// The path is neither a file nor a directory.
    NeitherFileNorDirectory,
    /// The directory holds no document.
    NotFound,
}

/// The plan for a path, where one was given, of which `target` says what
/// stands there.
pub open spec fn plan_for(target: Option<Target>) -> Result<Plan, PathResolutionError> {
    match target {
        Some(Target::File { has_parent }) => if has_parent {
            Ok(Plan::ReadFile)
        } else {
            Err(PathResolutionError::NoParent)
        },
        Some(Target::Directory) => Ok(Plan::SearchGiven),
        Some(Target::Other) => Err(PathResolutionError::NeitherFileNorDirectory),
        None => Ok(Plan::SearchCurrent),
    }
}

/// Decides where the document is looked for. A file is read as it is; a
/// directory is searched; without a path the current directory is searched;
/// anything else is refused.
pub fn plan(target: Option<Target>) -> (decided: Result<Plan, PathResolutionError>)
    ensures
        decided == plan_for(target),
{
    match target {
        Some(Target::File { has_parent }) => {
            if has_parent {
                Ok(Plan::ReadFile)
            } else {
                Err(PathResolutionError::NoParent)
            }
        },
        Some(Target::Directory) => Ok(Plan::SearchGiven),
        Some(Target::Other) => Err(PathResolutionError::NeitherFileNorDirectory),
        None => Ok(Plan::SearchCurrent),
    }
}

impl PathResolutionError {
    /// The error in words; `path` is the path as the user gave it.
    pub open spec fn text(self, path: Seq<char>) -> Seq<char> {
        match self {
            PathResolutionError::NoParent => "unable to get parent directory of '"@ + path + "'"@,
            PathResolutionError::NeitherFileNorDirectory => path
                + " is neither a file nor a directory"@,
            PathResolutionError::NotFound => "unable to find a configuration file in '"@ + path
                + "'"@,
        }
    }

    /// The error in words; `path` is the path as the user gave it.
    pub fn message(self, path: &str) -> (text: String)
        ensures
            text@ == self.text(path@),
    {
        match self {
            PathResolutionError::NoParent => {
                let mut text = "unable to get parent directory of '".to_owned();
                text.append(path);
                text.append("'");
                text
            },
            PathResolutionError::NeitherFileNorDirectory => {
                let mut text = path.to_owned();
                text.append(" is neither a file nor a directory");
                text
            },
            PathResolutionError::NotFound => {
                let mut text = "unable to find a configuration file in '".to_owned();
                text.append(path);
                text.append("'");
                text
            },
        }
    }
}

} // verus!
