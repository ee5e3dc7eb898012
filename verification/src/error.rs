//! The errors the tools report, and the exact text of each.

use vstd::prelude::*;
use crate::text::{owned, push_str, trim_white_space};

verus! {

/// Why a tool stopped short.
#[derive(Debug)]
pub enum ToolError {
    /// The LXC runtime was chosen without a container id.
    MissingVmid,
    /// The `/config` volume to back up is not a directory.
    NotADirectory { path: String },
    /// The backup tarball to restore from does not exist.
    TarballNotFound { path: String },
    /// The system clock could not be read as a time.
    ClockUnavailable,
    /// A host command could not be started at all; `cause` is why.
    SpawnFailed { cause: String },
    /// A host command exited unsuccessfully; `stderr` is already trimmed.
    CommandFailed { status: String, stderr: String },
    /// No endpoint of that name is registered.
    EndpointNotRegistered { name: String },
    /// The endpoint exists but is switched off.
    EndpointDisabled { name: String },
}

/// A `ToolError` with its text as plain sequences.
pub enum ErrorView {
    MissingVmid,
    NotADirectory { path: Seq<char> },
    TarballNotFound { path: Seq<char> },
    ClockUnavailable,
    SpawnFailed { cause: Seq<char> },
    CommandFailed { status: Seq<char>, stderr: Seq<char> },
    EndpointNotRegistered { name: Seq<char> },
    EndpointDisabled { name: Seq<char> },
}

impl View for ToolError {
    type V = ErrorView;

    open spec fn view(&self) -> ErrorView {
        match self {
            ToolError::MissingVmid => ErrorView::MissingVmid,
            ToolError::NotADirectory { path } => ErrorView::NotADirectory { path: path@ },
            ToolError::TarballNotFound { path } => ErrorView::TarballNotFound { path: path@ },
            ToolError::ClockUnavailable => ErrorView::ClockUnavailable,
            ToolError::SpawnFailed { cause } => ErrorView::SpawnFailed { cause: cause@ },
            ToolError::CommandFailed { status, stderr } => ErrorView::CommandFailed {
                status: status@,
                stderr: stderr@,
            },
            ToolError::EndpointNotRegistered { name } => ErrorView::EndpointNotRegistered {
                name: name@,
            },
            ToolError::EndpointDisabled { name } => ErrorView::EndpointDisabled { name: name@ },
        }
    }
}

/// The error for a command that exited unsuccessfully: its exit status as
/// text and its standard error stripped of surrounding white space.
pub open spec fn command_failed(status: Seq<char>, stderr: Seq<char>) -> ErrorView {
    ErrorView::CommandFailed { status, stderr: crate::text::trim(stderr) }
}

/// The underlying error an error was caused by, where it keeps one: for a
/// command that could not be started, why it could not.
pub open spec fn error_cause(e: ErrorView) -> Option<Seq<char>> {
    match e {
        ErrorView::SpawnFailed { cause } => Some(cause),
        _ => None,
    }
}

/// The text each error is reported with.
pub open spec fn error_message(e: ErrorView) -> Seq<char> {
    match e {
        ErrorView::MissingVmid => "`vmid` is required when runtime=lxc"@,
        ErrorView::NotADirectory { path } => "config path '"@ + path + "' is not a directory"@,
        ErrorView::TarballNotFound { path } => "backup tarball '"@ + path + "' not found"@,
        ErrorView::ClockUnavailable => "system clock is outside the representable range"@,
        ErrorView::SpawnFailed { .. } => "failed to spawn command"@,
        ErrorView::CommandFailed { status, stderr } => "command failed ("@ + status + "): "@
            + stderr,
        ErrorView::EndpointNotRegistered { name } => "home assistant endpoint '"@ + name
            + "' not registered"@,
        ErrorView::EndpointDisabled { name } => "home assistant endpoint '"@ + name
            + "' is disabled"@,
    }
}

impl ToolError {
    /// The error for a command that exited unsuccessfully.
    pub fn command_failed(status: &str, stderr: &str) -> (e: ToolError)
        ensures
            e@ == command_failed(status@, stderr@),
    {
        ToolError::CommandFailed { status: owned(status), stderr: trim_white_space(stderr) }
    }

    /// A copy of this error.
    pub fn duplicate(&self) -> (e: ToolError)
        ensures
            e@ == self@,
    {
        match self {
            ToolError::MissingVmid => ToolError::MissingVmid,
            ToolError::NotADirectory { path } => ToolError::NotADirectory { path: path.clone() },
            ToolError::TarballNotFound { path } => ToolError::TarballNotFound {
                path: path.clone(),
            },
            ToolError::ClockUnavailable => ToolError::ClockUnavailable,
            ToolError::SpawnFailed { cause } => ToolError::SpawnFailed { cause: cause.clone() },
            ToolError::CommandFailed { status, stderr } => ToolError::CommandFailed {
                status: status.clone(),
                stderr: stderr.clone(),
            },
            ToolError::EndpointNotRegistered { name } => ToolError::EndpointNotRegistered {
                name: name.clone(),
            },
            ToolError::EndpointDisabled { name } => ToolError::EndpointDisabled {
                name: name.clone(),
            },
        }
    }

    /// The text of the underlying error this error keeps as its cause.
    pub fn cause(&self) -> (c: Option<String>)
        ensures
            match c {
                Some(t) => error_cause(self@) == Some(t@),
                None => error_cause(self@) is None,
            },
    {
        match self {
            ToolError::SpawnFailed { cause } => Some(cause.clone()),
            _ => None,
        }
    }

    /// The text this error is reported with.
    pub fn message(&self) -> (m: String)
        ensures
            m@ == error_message(self@),
    {
        let mut m = String::new();
        match self {
            ToolError::MissingVmid => {
                push_str(&mut m, "`vmid` is required when runtime=lxc");
            },
            ToolError::NotADirectory { path } => {
                push_str(&mut m, "config path '");
                push_str(&mut m, path.as_str());
                push_str(&mut m, "' is not a directory");
            },
            ToolError::TarballNotFound { path } => {
                push_str(&mut m, "backup tarball '");
                push_str(&mut m, path.as_str());
                push_str(&mut m, "' not found");
            },
            ToolError::ClockUnavailable => {
                push_str(&mut m, "system clock is outside the representable range");
            },
            ToolError::SpawnFailed { .. } => {
                push_str(&mut m, "failed to spawn command");
            },
            ToolError::CommandFailed { status, stderr } => {
                push_str(&mut m, "command failed (");
                push_str(&mut m, status.as_str());
                push_str(&mut m, "): ");
                push_str(&mut m, stderr.as_str());
            },
            ToolError::EndpointNotRegistered { name } => {
                push_str(&mut m, "home assistant endpoint '");
                push_str(&mut m, name.as_str());
                push_str(&mut m, "' not registered");
            },
            ToolError::EndpointDisabled { name } => {
                push_str(&mut m, "home assistant endpoint '");
                push_str(&mut m, name.as_str());
                push_str(&mut m, "' is disabled");
            },
        }
        assert(m@ =~= error_message(self@));
        m
    }
}

} // verus!
