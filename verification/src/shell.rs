//! The calls that a command asks of the host shell, and the shell's replies.

use crate::error::ErrorKind;
use crate::request::{
    DecorationRequest, NotificationRequest, NotificationRequestView, WindowSizeRequest,
};
use vstd::prelude::*;

verus! {

/// One call on the shell's notification service or on the calling window.
#[derive(Debug, PartialEq, Eq)]
pub enum ShellCall {
    /// Display a notification.
    Notify(NotificationRequest),
    /// Show or hide the window chrome.
    SetDecorations(DecorationRequest),
    /// Resize the window to exactly this size.
    Resize(WindowSizeRequest),
    /// Centre the window on the display it is on.
    Center,
}

/// A `ShellCall` as a plain value.
pub enum ShellCallView {
    Notify(NotificationRequestView),
    SetDecorations(DecorationRequest),
    Resize(WindowSizeRequest),
    Center,
}

impl View for ShellCall {
    type V = ShellCallView;

    open spec fn view(&self) -> ShellCallView {
        match *self {
            ShellCall::Notify(request) => ShellCallView::Notify(request@),
            ShellCall::SetDecorations(request) => ShellCallView::SetDecorations(request),
            ShellCall::Resize(request) => ShellCallView::Resize(request),
            ShellCall::Center => ShellCallView::Center,
        }
    }
}

impl ShellCallView {
    /// The kind of error that a refusal of this call is reported as.
    pub open spec fn failure_kind(self) -> ErrorKind {
        match self {
            ShellCallView::Notify(_) => ErrorKind::NotificationFailed,
            ShellCallView::SetDecorations(_) => ErrorKind::DecorationChangeFailed,
            ShellCallView::Resize(_) => ErrorKind::ResizeFailed,
            ShellCallView::Center => ErrorKind::CenterFailed,
        }
    }
}

impl ShellCall {
    /// The kind of error that a refusal of this call is reported as.
    pub fn failure_kind(&self) -> (kind: ErrorKind)
        ensures
            kind == self@.failure_kind(),
    {
        match self {
            ShellCall::Notify(_) => ErrorKind::NotificationFailed,
            ShellCall::SetDecorations(_) => ErrorKind::DecorationChangeFailed,
            ShellCall::Resize(_) => ErrorKind::ResizeFailed,
            ShellCall::Center => ErrorKind::CenterFailed,
        }
    }
}

/// The shell's reply to one call as a plain value: done, or refused with a
/// message.
pub type ReplyView = Result<(), Seq<char>>;

/// The plain value of a reply.
pub open spec fn reply_view(reply: Result<(), String>) -> ReplyView {
    match reply {
        Ok(_) => Ok(()),
        Err(message) => Err(message@),
    }
}

} // verus!
