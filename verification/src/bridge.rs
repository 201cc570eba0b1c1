//! The three commands of the bridge.
//!
//! A command opens with the first call it wants made. After each reply,
//! `advance` says what comes next: one more call, or the command's result.
//! Nothing is kept between two commands, and nothing between two steps of
//! one command but the call that is outstanding.

use crate::error::{CommandError, CommandErrorView};
use crate::request::{
    DecorationRequest, NotificationRequest, NotificationRequestView, WindowSizeRequest,
};
use crate::shell::{reply_view, ReplyView, ShellCall, ShellCallView};
use vstd::prelude::*;

verus! {

/// Where a command stands once the shell has replied.
#[derive(Debug, PartialEq, Eq)]
pub enum Progress {
    /// The shell is to make this call next.
    Call(ShellCall),
    /// The command is over, with this result.
    Done(Result<(), CommandError>),
}

/// The result of a command as a plain value.
pub type ResultView = Result<(), CommandErrorView>;

/// A `Progress` as a plain value.
pub enum ProgressView {
    Call(ShellCallView),
    Done(ResultView),
}

/// The plain value of a command's result.
pub open spec fn result_view(result: Result<(), CommandError>) -> ResultView {
    match result {
        Ok(_) => Ok(()),
        Err(error) => Err(error@),
    }
}

impl View for Progress {
    type V = ProgressView;

    open spec fn view(&self) -> ProgressView {
        match *self {
            Progress::Call(call) => ProgressView::Call(call@),
            Progress::Done(result) => ProgressView::Done(result_view(result)),
        }
    }
}

/// The call that `show_notification` opens with.
pub open spec fn notification_call(title: Seq<char>, message: Seq<char>) -> ShellCallView {
    ShellCallView::Notify(NotificationRequestView { title, message })
}

/// The call that `set_decorations` opens with.
pub open spec fn decorations_call(decorations: bool) -> ShellCallView {
    ShellCallView::SetDecorations(DecorationRequest { enabled: decorations })
}

/// The call that `set_window_size` opens with.
pub open spec fn resize_call(width: u32, height: u32) -> ShellCallView {
    ShellCallView::Resize(WindowSizeRequest { width, height })
}

/// What follows the shell's reply to the outstanding call.
///
/// A refusal ends the command at once, as an error of the kind that belongs
/// to the refused call, with the shell's message. A resize that was done is
/// followed by centring. Any other call that was done ends the command with
/// success.
pub open spec fn after_reply(pending: ShellCallView, reply: ReplyView) -> ProgressView {
    match reply {
        Err(message) => ProgressView::Done(
            Err(CommandErrorView { kind: pending.failure_kind(), message }),
        ),
        Ok(_) => match pending {
            ShellCallView::Resize(_) => ProgressView::Call(ShellCallView::Center),
            _ => ProgressView::Done(Ok(())),
        },
    }
}

/// Opens the command that displays a system notification: the one call it
/// makes carries `title` and `message` as they are, empty or not.
pub fn show_notification(title: String, message: String) -> (first: ShellCall)
    ensures
        first@ == notification_call(title@, message@),
{
    ShellCall::Notify(NotificationRequest { title, message })
}

/// Opens the command that shows or hides the window chrome.
pub fn set_decorations(decorations: bool) -> (first: ShellCall)
    ensures
        first@ == decorations_call(decorations),
{
    ShellCall::SetDecorations(DecorationRequest { enabled: decorations })
}

/// Opens the command that resizes the window to `width` by `height` physical
/// pixels and then centres it. The size is passed on unchecked, a zero too.
pub fn set_window_size(width: u32, height: u32) -> (first: ShellCall)
    ensures
        first@ == resize_call(width, height),
{
    ShellCall::Resize(WindowSizeRequest { width, height })
}

/// Takes the shell's reply to the outstanding call `pending` and decides how
/// the command goes on.
pub fn advance(pending: &ShellCall, reply: Result<(), String>) -> (progress: Progress)
    ensures
        progress@ == after_reply(pending@, reply_view(reply)),
{
    match reply {
        Err(message) => Progress::Done(Err(CommandError::new(pending.failure_kind(), message))),
        Ok(_) => match pending {
            ShellCall::Resize(_) => Progress::Call(ShellCall::Center),
            _ => Progress::Done(Ok(())),
        },
    }
}

/// What the front end sees of a command's result.
pub open spec fn answer_of(result: ResultView) -> ReplyView {
    match result {
        Ok(_) => Ok(()),
        Err(error) => Err(error.message),
    }
}

/// Turns a command's result into what crosses over to the front end:
/// success, or the shell's message word for word.
pub fn answer(result: Result<(), CommandError>) -> (reply: Result<(), String>)
    ensures
        reply_view(reply) == answer_of(result_view(result)),
{
    match result {
        Ok(_) => Ok(()),
        Err(error) => Err(error.into_message()),
    }
}

} // verus!
