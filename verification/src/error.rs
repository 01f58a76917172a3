//! The fatal conditions that end a run.

use vstd::prelude::*;
use vstd::string::StringExecFns;
use crate::text::{signed_decimal, signed_decimal_string};

verus! {

/// A fatal condition. Each one ends the run with a non-zero exit code.
#[derive(Debug, PartialEq, Eq)]
pub enum VigilError {
    /// The remote-execution program is missing from the search path.
    SshMissing,
    /// The remote-execution program could not be started.
    Spawn { program: String, detail: String },
    /// The remote shell reported status 127: the multiplexer is not installed.
    RemoteNotFound,
    /// The attach-or-create command ended with a non-zero status.
    RemoteFailed { code: Option<i32> },
    /// The kill command ended with a non-zero status.
    KillFailed { target: String, code: Option<i32> },
    /// The interactive selection named no listed session.
    InvalidSelection,
    /// The interactive selection could not be read.
    ReadFailed,
}

/// The mathematical value of a [`VigilError`].
pub enum VigilErrorView {
    SshMissing,
    Spawn { program: Seq<char>, detail: Seq<char> },
    RemoteNotFound,
    RemoteFailed { code: Option<i32> },
    KillFailed { target: Seq<char>, code: Option<i32> },
    InvalidSelection,
    ReadFailed,
}

impl View for VigilError {
    type V = VigilErrorView;

    open spec fn view(&self) -> VigilErrorView {
        match self {
            VigilError::SshMissing => VigilErrorView::SshMissing,
            VigilError::Spawn { program, detail } => VigilErrorView::Spawn {
                program: program@,
                detail: detail@,
            },
            VigilError::RemoteNotFound => VigilErrorView::RemoteNotFound,
            VigilError::RemoteFailed { code } => VigilErrorView::RemoteFailed { code: *code },
            VigilError::KillFailed { target, code } => VigilErrorView::KillFailed {
                target: target@,
                code: *code,
            },
            VigilError::InvalidSelection => VigilErrorView::InvalidSelection,
            VigilError::ReadFailed => VigilErrorView::ReadFailed,
        }
    }
}

/// How an exit status reads in a message: `Some(..)` around its number, or
/// `None` where a signal ended the process.
pub open spec fn status_text(code: Option<i32>) -> Seq<char> {
    match code {
        Some(c) => "Some("@ + signed_decimal(c as int) + ")"@,
        None => "None"@,
    }
}

/// The message of an error.
pub open spec fn message_text(e: VigilErrorView) -> Seq<char> {
    match e {
        VigilErrorView::SshMissing => "`ssh` not found in PATH"@,
        VigilErrorView::Spawn { program, detail } => "failed to execute "@ + program + ": "@
            + detail,
        VigilErrorView::RemoteNotFound => "remote tmux not found (exit 127)"@,
        VigilErrorView::RemoteFailed { code } => "remote command exited with status: "@
            + status_text(code),
        VigilErrorView::KillFailed { target, code } => "failed to kill remote session '"@ + target
            + "' (status: "@ + status_text(code) + ")"@,
        VigilErrorView::InvalidSelection => "invalid selection"@,
        VigilErrorView::ReadFailed => "failed to read selection"@,
    }
}

/// The exit code that follows a remote exit status which was no success:
/// the status itself where there is one, and one otherwise.
pub open spec fn failure_code(code: Option<i32>) -> i32 {
    match code {
        Some(c) if c != 0 => c,
        _ => 1i32,
    }
}

/// The exit code of the run that an error ends: the remote status where the
/// remote command gave one, and one otherwise. It is never zero.
pub open spec fn exit_code_of(e: VigilErrorView) -> i32 {
    match e {
        VigilErrorView::RemoteNotFound => 127i32,
        VigilErrorView::RemoteFailed { code } => failure_code(code),
        VigilErrorView::KillFailed { target, code } => failure_code(code),
        _ => 1i32,
    }
}

/// How an exit status reads in a message.
fn status_string(code: Option<i32>) -> (r: String)
    ensures
        r@ == status_text(code),
{
    match code {
        Some(c) => {
            let mut s = String::from_str("Some(");
            s.append(signed_decimal_string(c).as_str());
            s.append(")");
            s
        },
        None => String::from_str("None"),
    }
}

/// The exit code that follows a remote exit status which was no success.
fn code_or_one(code: Option<i32>) -> (r: i32)
    ensures
        r == failure_code(code),
        r != 0,
{
    match code {
        Some(c) => if c != 0 {
            c
        } else {
            1
        },
        None => 1,
    }
}

impl VigilError {
    /// The message that tells the user what went wrong.
    pub fn message(&self) -> (r: String)
        ensures
            r@ == message_text(self@),
    {
        match self {
            VigilError::SshMissing => String::from_str("`ssh` not found in PATH"),
            VigilError::Spawn { program, detail } => {
                let mut s = String::from_str("failed to execute ");
                s.append(program.as_str());
                s.append(": ");
                s.append(detail.as_str());
                s
            },
            VigilError::RemoteNotFound => String::from_str("remote tmux not found (exit 127)"),
            VigilError::RemoteFailed { code } => {
                let mut s = String::from_str("remote command exited with status: ");
                s.append(status_string(*code).as_str());
                s
            },
            VigilError::KillFailed { target, code } => {
                let mut s = String::from_str("failed to kill remote session '");
                s.append(target.as_str());
                s.append("' (status: ");
                s.append(status_string(*code).as_str());
                s.append(")");
                s
            },
            VigilError::InvalidSelection => String::from_str("invalid selection"),
            VigilError::ReadFailed => String::from_str("failed to read selection"),
        }
    }

    /// The exit code of the run that this error ends.
    pub fn exit_code(&self) -> (r: i32)
        ensures
            r == exit_code_of(self@),
            r != 0,
    {
        match self {
            VigilError::RemoteNotFound => 127,
            VigilError::RemoteFailed { code } => code_or_one(*code),
            VigilError::KillFailed { target: _, code } => code_or_one(*code),
            _ => 1,
        }
    }
}

} // verus!
