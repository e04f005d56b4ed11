//! What a command-line invocation asks for.
use vstd::prelude::*;

use crate::config::FileOpenBehavior;

verus! {

/// `std::path::PathBuf`, carried as an opaque path.
#[verifier::external_type_specification]
#[verifier::external_body]
pub struct ExPathBuf(std::path::PathBuf);

/// How the command line asks for paths to be opened.
#[derive(Debug, Clone, Copy, PartialEq, Eq, Structural)]
pub enum CliOpenMode {
    /// Use the behavior from the configuration (the `fileOpen` setting).
    Config,
    LastFocused,
    CurrentScreen,
    NewWindow,
}

impl CliOpenMode {
    /// The open behavior the mode forces, if any.
    pub open spec fn spec_behavior(self) -> Option<FileOpenBehavior> {
        match self {
            CliOpenMode::Config => None,
            CliOpenMode::LastFocused => Some(FileOpenBehavior::LastFocused),
            CliOpenMode::CurrentScreen => Some(FileOpenBehavior::CurrentScreen),
            CliOpenMode::NewWindow => Some(FileOpenBehavior::NewWindow),
        }
    }

    /// The open behavior the mode forces: none for `Config`, else the matching behavior.
    pub fn to_file_open_behavior(self) -> (b: Option<FileOpenBehavior>)
        ensures
            b == self.spec_behavior(),
    {
        match self {
            CliOpenMode::Config => None,
            CliOpenMode::LastFocused => Some(FileOpenBehavior::LastFocused),
            CliOpenMode::CurrentScreen => Some(FileOpenBehavior::CurrentScreen),
            CliOpenMode::NewWindow => Some(FileOpenBehavior::NewWindow),
        }
    }
}

/// A command-line invocation: positional paths, an optional `--directory`, and the open mode.
#[derive(Debug)]
pub struct CliInvocation {
    pub paths: Vec<std::path::PathBuf>,
    pub directory: Option<std::path::PathBuf>,
    pub open_mode: CliOpenMode,
}

} // verus!
