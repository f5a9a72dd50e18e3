//! What ends a run early.

use crate::command::{spaced, CommandView, GitCommand};
use vstd::prelude::*;
use vstd::string::*;

verus! {

/// The first failure of a run. Nothing is retried and nothing is skipped:
/// whatever goes wrong ends the run, and the error says where it went wrong.
#[derive(Debug, PartialEq, Eq)]
pub enum SyncError {
    /// The first listing request for `owner` failed.
    Listing { owner: String, detail: String },
    /// The request that followed `link` to a further page failed.
    NextPage { link: String, detail: String },
    /// A repository entry has no full name.
    MissingFullName,
    /// The entry of `full_name` has no clone URL.
    MissingCloneUrl { full_name: String },
    /// The mirror directory `target` has no parent directory.
    NoParentDirectory { target: String },
    /// The directories down to `path` could not be created.
    CreateDirectories { path: String, detail: String },
    /// `command` could not be started or did not exit with status zero.
    Command { command: GitCommand, detail: String },
}

/// What a [`SyncError`] holds, as mathematical values.
pub enum ErrorView {
    Listing { owner: Seq<char>, detail: Seq<char> },
    NextPage { link: Seq<char>, detail: Seq<char> },
    MissingFullName,
    MissingCloneUrl { full_name: Seq<char> },
    NoParentDirectory { target: Seq<char> },
    CreateDirectories { path: Seq<char>, detail: Seq<char> },
    Command { command: CommandView, detail: Seq<char> },
}

/// The four families of failure.
#[derive(Clone, Copy, Debug, PartialEq, Eq, Structural)]
pub enum ErrorKind {
    /// A listing or pagination request failed.
    Api,
    /// A repository entry lacks a required field.
    DataIntegrity,
    /// The destination directories could not be prepared.
    Filesystem,
    /// An external command failed.
    Subprocess,
}

impl ErrorView {
    /// The family that the error belongs to.
    pub open spec fn kind(self) -> ErrorKind {
        match self {
            ErrorView::Listing { .. } => ErrorKind::Api,
            ErrorView::NextPage { .. } => ErrorKind::Api,
            ErrorView::MissingFullName => ErrorKind::DataIntegrity,
            ErrorView::MissingCloneUrl { .. } => ErrorKind::DataIntegrity,
            ErrorView::NoParentDirectory { .. } => ErrorKind::Filesystem,
            ErrorView::CreateDirectories { .. } => ErrorKind::Filesystem,
            ErrorView::Command { .. } => ErrorKind::Subprocess,
        }
    }
}

impl ErrorView {
    /// The message that tells an operator what went wrong, and where.
    pub open spec fn describe(self) -> Seq<char> {
        match self {
            ErrorView::Listing { owner, detail } => "failed to list the repositories of `"@ + owner
                + "`: "@ + detail,
            ErrorView::NextPage { link, detail } => "failed to load next page `"@ + link + "`: "@
                + detail,
            ErrorView::MissingFullName => "missing full_name"@,
            ErrorView::MissingCloneUrl { full_name } => "missing clone_url of `"@ + full_name
                + "`"@,
            ErrorView::NoParentDirectory { target } => "failed to get parent directory of `"@
                + target + "`"@,
            ErrorView::CreateDirectories { path, detail } => "failed to create parent directory `"@
                + path + "`: "@ + detail,
            ErrorView::Command { command, detail } => "`"@ + spaced(command.argv())
                + "` failed for `"@ + command.target() + "`: "@ + detail,
        }
    }
}

impl View for SyncError {
    type V = ErrorView;

    open spec fn view(&self) -> ErrorView {
        match self {
            SyncError::Listing { owner, detail } => ErrorView::Listing {
                owner: owner@,
                detail: detail@,
            },
            SyncError::NextPage { link, detail } => ErrorView::NextPage {
                link: link@,
                detail: detail@,
            },
            SyncError::MissingFullName => ErrorView::MissingFullName,
            SyncError::MissingCloneUrl { full_name } => ErrorView::MissingCloneUrl {
                full_name: full_name@,
            },
            SyncError::NoParentDirectory { target } => ErrorView::NoParentDirectory {
                target: target@,
            },
            SyncError::CreateDirectories { path, detail } => ErrorView::CreateDirectories {
                path: path@,
                detail: detail@,
            },
            SyncError::Command { command, detail } => ErrorView::Command {
                command: command@,
                detail: detail@,
            },
        }
    }
}

impl DeepView for SyncError {
    type V = ErrorView;

    open spec fn deep_view(&self) -> ErrorView {
        self@
    }
}

impl Clone for SyncError {
    fn clone(&self) -> (copy: Self)
        ensures
            copy@ == self@,
    {
        match self {
            SyncError::Listing { owner, detail } => SyncError::Listing {
                owner: owner.clone(),
                detail: detail.clone(),
            },
            SyncError::NextPage { link, detail } => SyncError::NextPage {
                link: link.clone(),
                detail: detail.clone(),
            },
            SyncError::MissingFullName => SyncError::MissingFullName,
            SyncError::MissingCloneUrl { full_name } => SyncError::MissingCloneUrl {
                full_name: full_name.clone(),
            },
            SyncError::NoParentDirectory { target } => SyncError::NoParentDirectory {
                target: target.clone(),
            },
            SyncError::CreateDirectories { path, detail } => SyncError::CreateDirectories {
                path: path.clone(),
                detail: detail.clone(),
            },
            SyncError::Command { command, detail } => SyncError::Command {
                command: command.clone(),
                detail: detail.clone(),
            },
        }
    }
}

impl SyncError {
    /// The family that the error belongs to.
    pub fn kind(&self) -> (kind: ErrorKind)
        ensures
            kind == self@.kind(),
    {
        match self {
            SyncError::Listing { .. } => ErrorKind::Api,
            SyncError::NextPage { .. } => ErrorKind::Api,
            SyncError::MissingFullName => ErrorKind::DataIntegrity,
            SyncError::MissingCloneUrl { .. } => ErrorKind::DataIntegrity,
            SyncError::NoParentDirectory { .. } => ErrorKind::Filesystem,
            SyncError::CreateDirectories { .. } => ErrorKind::Filesystem,
            SyncError::Command { .. } => ErrorKind::Subprocess,
        }
    }

    /// The message that tells an operator what went wrong, and where.
    pub fn describe(&self) -> (message: String)
        ensures
            message@ == self@.describe(),
    {
        match self {
            SyncError::Listing { owner, detail } => {
                let mut message = String::from_str("failed to list the repositories of `");
                message.append(owner.as_str());
                message.append("`: ");
                message.append(detail.as_str());
                message
            },
            SyncError::NextPage { link, detail } => {
                let mut message = String::from_str("failed to load next page `");
                message.append(link.as_str());
                message.append("`: ");
                message.append(detail.as_str());
                message
            },
            SyncError::MissingFullName => String::from_str("missing full_name"),
            SyncError::MissingCloneUrl { full_name } => {
                let mut message = String::from_str("missing clone_url of `");
                message.append(full_name.as_str());
                message.append("`");
                message
            },
            SyncError::NoParentDirectory { target } => {
                let mut message = String::from_str("failed to get parent directory of `");
                message.append(target.as_str());
                message.append("`");
                message
            },
            SyncError::CreateDirectories { path, detail } => {
                let mut message = String::from_str("failed to create parent directory `");
                message.append(path.as_str());
                message.append("`: ");
                message.append(detail.as_str());
                message
            },
            SyncError::Command { command, detail } => {
                let mut message = String::from_str("`");
                message.append(command.command_line().as_str());
                message.append("` failed for `");
                message.append(command.target().as_str());
                message.append("`: ");
                message.append(detail.as_str());
                message
            },
        }
    }
}

} // verus!
