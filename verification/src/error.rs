//! The one way a command fails: the shell refused one of its calls.

use vstd::prelude::*;

verus! {

/// Which call of the shell was refused.
#[derive(Clone, Copy, Debug, PartialEq, Eq, Hash, Structural)]
pub enum ErrorKind {
    /// The notification service rejected the notification.
    NotificationFailed,
    /// The window chrome could not be shown or hidden.
    DecorationChangeFailed,
    /// The window could not be resized.
    ResizeFailed,
    /// The window could not be centred on its display.
    CenterFailed,
}

/// A refused call, with the message the shell gave for it, unchanged.
#[derive(Debug, PartialEq, Eq)]
pub enum CommandError {
    NotificationFailed(String),
    DecorationChangeFailed(String),
    ResizeFailed(String),
    CenterFailed(String),
}

/// A `CommandError` as a plain value: the call that was refused and the
/// shell's message.
pub struct CommandErrorView {
    pub kind: ErrorKind,
    pub message: Seq<char>,
}

impl View for CommandError {
    type V = CommandErrorView;

    open spec fn view(&self) -> CommandErrorView {
        match *self {
            CommandError::NotificationFailed(m) => CommandErrorView {
                kind: ErrorKind::NotificationFailed,
                message: m@,
            },
            CommandError::DecorationChangeFailed(m) => CommandErrorView {
                kind: ErrorKind::DecorationChangeFailed,
                message: m@,
            },
            CommandError::ResizeFailed(m) => CommandErrorView {
                kind: ErrorKind::ResizeFailed,
                message: m@,
            },
            CommandError::CenterFailed(m) => CommandErrorView {
                kind: ErrorKind::CenterFailed,
                message: m@,
            },
        }
    }
}

impl CommandError {
    /// The error of the given kind that carries `message`.
    pub fn new(kind: ErrorKind, message: String) -> (error: CommandError)
        ensures
            error@ == (CommandErrorView { kind, message: message@ }),
    {
        match kind {
            ErrorKind::NotificationFailed => CommandError::NotificationFailed(message),
            ErrorKind::DecorationChangeFailed => CommandError::DecorationChangeFailed(message),
            ErrorKind::ResizeFailed => CommandError::ResizeFailed(message),
            ErrorKind::CenterFailed => CommandError::CenterFailed(message),
        }
    }

    /// Which call was refused.
    pub fn kind(&self) -> (kind: ErrorKind)
        ensures
            kind == self@.kind,
    {
        match self {
            CommandError::NotificationFailed(_) => ErrorKind::NotificationFailed,
            CommandError::DecorationChangeFailed(_) => ErrorKind::DecorationChangeFailed,
            CommandError::ResizeFailed(_) => ErrorKind::ResizeFailed,
            CommandError::CenterFailed(_) => ErrorKind::CenterFailed,
        }
    }

    /// The shell's message.
    pub fn message(&self) -> (message: &str)
        ensures
            message@ == self@.message,
    {
        match self {
            CommandError::NotificationFailed(m) => m.as_str(),
            CommandError::DecorationChangeFailed(m) => m.as_str(),
            CommandError::ResizeFailed(m) => m.as_str(),
            CommandError::CenterFailed(m) => m.as_str(),
        }
    }

    /// The shell's message, as the front end receives it: nothing is added
    /// to it and nothing taken away.
    pub fn into_message(self) -> (message: String)
        ensures
            message@ == self@.message,
    {
        match self {
            CommandError::NotificationFailed(m) => m,
            CommandError::DecorationChangeFailed(m) => m,
            CommandError::ResizeFailed(m) => m,
            CommandError::CenterFailed(m) => m,
        }
    }
}

} // verus!
