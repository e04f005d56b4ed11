//! Open requests and the JSON Lines messages that carry them between instances.
use vstd::prelude::*;

use crate::cli::CliOpenMode;
use crate::config::FileOpenBehavior;
use std::path::PathBuf;

verus! {

/// Files to open and/or a directory to use as root, with an optional routing behavior.
#[derive(Debug)]
pub struct OpenRequest {
    pub files: Vec<PathBuf>,
    pub directory: Option<PathBuf>,
    pub behavior: Option<FileOpenBehavior>,
}

/// Open events sent from the command line, Finder or IPC into the main-thread queue.
#[derive(Debug)]
pub enum OpenEvent {
    /// Open files and/or change the root directory in a target window.
    Open(OpenRequest),
    /// App icon clicked (reopen event).
    Reopen { behavior: Option<FileOpenBehavior> },
}

/// Messages sent between instances, one JSON object per line.
#[derive(Debug)]
pub enum IpcMessage {
    /// Legacy: open one file (accepted from older instances).
    File { path: PathBuf },
    /// Legacy: open one directory as root (accepted from older instances).
    Directory { path: PathBuf },
    /// Open files and/or set the root directory.
    Open { files: Vec<PathBuf>, directory: Option<PathBuf>, behavior: Option<FileOpenBehavior> },
    /// Reopen/activate the application (no paths provided).
    Reopen { behavior: Option<FileOpenBehavior> },
}

/// Result of trying to send paths to an existing instance.
#[derive(Debug, Clone, Copy, PartialEq, Eq, Structural)]
pub enum SendResult {
    /// Paths went to an existing instance; the caller should exit.
    Sent,
    /// No existing instance; the caller should become primary.
    NoExistingInstance,
}

/// What a path turned out to be on disk, with its canonical form.
#[derive(Debug)]
pub enum PathKind {
    File(PathBuf),
    Directory(PathBuf),
}

/// An open request as plain values: `(files, directory, behavior)`.
pub type OpenRequestView = (Seq<PathBuf>, Option<PathBuf>, Option<FileOpenBehavior>);

impl OpenRequest {
    pub open spec fn view(&self) -> OpenRequestView {
        (self.files@, self.directory, self.behavior)
    }
}

impl IpcMessage {
    /// Convert to the event it stands for: a legacy file or directory message becomes
    /// an open request with no behavior; the other messages carry over field by field.
    pub fn into_open_event(self) -> (e: OpenEvent)
        ensures
            match self {
                IpcMessage::File { path } => e matches OpenEvent::Open(r) && r.files@ == seq![path]
                    && r.directory is None && r.behavior is None,
                IpcMessage::Directory { path } => e matches OpenEvent::Open(r) && r.files@.len() == 0
                    && r.directory == Some(path) && r.behavior is None,
                IpcMessage::Open { files, directory, behavior } => e matches OpenEvent::Open(r)
                    && r.files@ == files@ && r.directory == directory && r.behavior == behavior,
                IpcMessage::Reopen { behavior } => e == OpenEvent::Reopen { behavior },
            },
    {
        match self {
            IpcMessage::File { path } => {
                let mut files: Vec<PathBuf> = Vec::new();
                files.push(path);
                OpenEvent::Open(OpenRequest { files, directory: None, behavior: None })
            },
            IpcMessage::Directory { path } => {
                OpenEvent::Open(OpenRequest { files: Vec::new(), directory: Some(path), behavior: None })
            },
            IpcMessage::Open { files, directory, behavior } => {
                OpenEvent::Open(OpenRequest { files, directory, behavior })
            },
            IpcMessage::Reopen { behavior } => OpenEvent::Reopen { behavior },
        }
    }

    /// The message that carries an open request.
    pub fn from_open_request(request: OpenRequest) -> (m: IpcMessage)
        ensures
            m matches IpcMessage::Open { files, directory, behavior } && files@ == request.files@
                && directory == request.directory && behavior == request.behavior,
    {
        IpcMessage::Open { files: request.files, directory: request.directory, behavior: request.behavior }
    }
}

/// The canonical files among classified paths, in order.
pub open spec fn spec_files(cs: Seq<Option<PathKind>>) -> Seq<PathBuf>
    decreases cs.len(),
{
    if cs.len() == 0 {
        Seq::empty()
    } else {
        let prev = spec_files(cs.drop_last());
        match cs.last() {
            Some(PathKind::File(p)) => prev.push(p),
            _ => prev,
        }
    }
}

/// The first directory among classified paths.
pub open spec fn spec_first_directory(cs: Seq<Option<PathKind>>) -> Option<PathBuf>
    decreases cs.len(),
{
    if cs.len() == 0 {
        None
    } else {
        match spec_first_directory(cs.drop_last()) {
            Some(d) => Some(d),
            None => match cs.last() {
                Some(PathKind::Directory(p)) => Some(p),
                _ => None,
            },
        }
    }
}

/// Build an open request from a command-line invocation.
///
/// `directory` is the `--directory` option once checked to be a directory, and
/// `classified` says, for each positional path in order, whether it is a file, a
/// directory or neither. Files are collected in order; the first positional directory
/// is the root unless `directory` is given; invalid paths are skipped. There is no
/// request when there is neither a file nor a directory.
pub fn build_open_request(
    open_mode: CliOpenMode,
    directory: Option<PathBuf>,
    classified: Vec<Option<PathKind>>,
) -> (r: Option<OpenRequest>)
    ensures
        ({
            let files = spec_files(classified@);
            let dir = if directory is Some { directory } else { spec_first_directory(classified@) };
            if files.len() == 0 && dir is None {
                r is None
            } else {
                r matches Some(req) && req.files@ == files && req.directory == dir
                    && req.behavior == open_mode.spec_behavior()
            }
        }),
{
    let ghost all = classified@;
    let total = classified.len();
    let mut rest = classified;
    let mut dir = directory;
    let mut files: Vec<PathBuf> = Vec::new();
    let mut done: usize = 0;
    assert(all.take(0) =~= Seq::<Option<PathKind>>::empty());
    while rest.len() > 0
        invariant
            done + rest@.len() == all.len(),
            all.len() == total,
            rest@ == all.skip(done as int),
            files@ == spec_files(all.take(done as int)),
            dir == if directory is Some { directory } else { spec_first_directory(all.take(done as int)) },
        decreases rest@.len(),
    {
        let c = rest.remove(0);
        assert(all.take(done + 1).drop_last() =~= all.take(done as int));
        assert(all.take(done + 1).last() == c);
        assert(rest@ =~= all.skip(done + 1));
        match c {
            Some(PathKind::File(p)) => {
                files.push(p);
            },
            Some(PathKind::Directory(p)) => {
                if dir.is_none() {
                    dir = Some(p);
                }
            },
            None => {},
        }
        done += 1;
    }
    assert(all.take(done as int) =~= all);
    if files.len() == 0 && dir.is_none() {
        return None;
    }
    Some(OpenRequest { files, directory: dir, behavior: open_mode.to_file_open_behavior() })
}

/// The event for a path from a non-CLI source (e.g. Finder), given what the path is:
/// a file opens as a file, a directory as the root, anything else gives no event.
/// Such events never override the configured behavior.
pub fn validate_path(classified: Option<PathKind>) -> (e: Option<OpenEvent>)
    ensures
        match classified {
            Some(PathKind::File(p)) => e matches Some(OpenEvent::Open(r)) && r.files@ == seq![p]
                && r.directory is None && r.behavior is None,
            Some(PathKind::Directory(p)) => e matches Some(OpenEvent::Open(r)) && r.files@.len() == 0
                && r.directory == Some(p) && r.behavior is None,
            None => e is None,
        },
{
    match classified {
        Some(PathKind::File(p)) => {
            let mut files: Vec<PathBuf> = Vec::new();
            files.push(p);
            Some(OpenEvent::Open(OpenRequest { files, directory: None, behavior: None }))
        },
        Some(PathKind::Directory(p)) => {
            Some(OpenEvent::Open(OpenRequest { files: Vec::new(), directory: Some(p), behavior: None }))
        },
        None => None,
    }
}

} // verus!
