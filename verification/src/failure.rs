//! The ways in which an invocation fails.

use vstd::prelude::*;

verus! {

/// Why an invocation failed. Every failure ends the invocation.
#[derive(Debug, PartialEq, Eq)]
pub enum Failure {
    /// The configuration file could not be read or written; the text says
    /// what went wrong.
    ConfigIo(String),
    /// The configuration file is not well-formed or does not follow the
    /// schema.
    ConfigParse,
    /// The arguments do not have the shape of a command; the text says what
    /// is wrong with them.
    InvalidArguments(String),
    /// No profile of this name is stored.
    ProfileNotFound(String),
    /// Nothing names the profile to connect to.
    NoProfileSpecified,
    /// The remote-login client could not be started.
    SubprocessLaunch,
    /// The remote-login client ran and reported a failure, with this exit
    /// code if it gave one.
    RemoteSessionFailed(Option<i32>),
}

/// The mathematical content of an [`Failure`].
pub enum FailureView {
    ConfigIo(Seq<char>),
    ConfigParse,
    InvalidArguments(Seq<char>),
    ProfileNotFound(Seq<char>),
    NoProfileSpecified,
    SubprocessLaunch,
    RemoteSessionFailed(Option<i32>),
}

impl FailureView {
    /// The one-line message shown for the failure. A missing profile points
    /// to the listing command.
    pub open spec fn message(self) -> Seq<char> {
        match self {
            FailureView::ConfigIo(detail) => detail,
            FailureView::ConfigParse => "Failed to parse config file"@,
            FailureView::InvalidArguments(detail) => detail,
            FailureView::ProfileNotFound(name) => "Profile '"@ + name
                + "' not found. Use 'masuk ls' to see available profiles."@,
            FailureView::NoProfileSpecified => "No profile specified"@,
            FailureView::SubprocessLaunch => "Failed to execute SSH command"@,
            FailureView::RemoteSessionFailed(_) => "SSH connection failed"@,
        }
    }

    /// The exit status of the failed invocation: that of the remote session
    /// where it gave a non-zero one, 1 otherwise.
    pub open spec fn exit_code(self) -> i32 {
        match self {
            FailureView::RemoteSessionFailed(Some(code)) => if code != 0 {
                code
            } else {
                1
            },
            _ => 1,
        }
    }
}

impl View for Failure {
    type V = FailureView;

    open spec fn view(&self) -> FailureView {
        match self {
            Failure::ConfigIo(detail) => FailureView::ConfigIo(detail@),
            Failure::ConfigParse => FailureView::ConfigParse,
            Failure::InvalidArguments(detail) => FailureView::InvalidArguments(detail@),
            Failure::ProfileNotFound(name) => FailureView::ProfileNotFound(name@),
            Failure::NoProfileSpecified => FailureView::NoProfileSpecified,
            Failure::SubprocessLaunch => FailureView::SubprocessLaunch,
            Failure::RemoteSessionFailed(code) => FailureView::RemoteSessionFailed(*code),
        }
    }
}

impl Failure {
    /// The one-line message shown for the failure.
    pub fn message(&self) -> (text: String)
        ensures
            text@ == self@.message(),
    {
        match self {
            Failure::ConfigIo(detail) => detail.clone(),
            Failure::ConfigParse => String::from_str("Failed to parse config file"),
            Failure::InvalidArguments(detail) => detail.clone(),
            Failure::ProfileNotFound(name) => {
                let mut text = String::from_str("Profile '");
                text.append(name.as_str());
                text.append("' not found. Use 'masuk ls' to see available profiles.");
                text
            },
            Failure::NoProfileSpecified => String::from_str("No profile specified"),
            Failure::SubprocessLaunch => String::from_str("Failed to execute SSH command"),
            Failure::RemoteSessionFailed(_) => String::from_str("SSH connection failed"),
        }
    }

    /// The exit status of the failed invocation; never zero.
    pub fn exit_code(&self) -> (code: i32)
        ensures
            code == self@.exit_code(),
            code != 0,
    {
        match self {
            Failure::RemoteSessionFailed(Some(code)) => if *code != 0 {
                *code
            } else {
                1
            },
            _ => 1,
        }
    }
}

} // verus!
