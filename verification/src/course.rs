//! A command seen whole: the calls it makes on the shell, one after the
//! other, with the shell's replies, and the result it ends with.

use crate::bridge::{
    advance, after_reply, answer_of, decorations_call, notification_call, resize_call,
};
use crate::bridge::{result_view, Progress, ProgressView, ResultView};
use crate::error::{CommandError, CommandErrorView, ErrorKind};
use crate::shell::{reply_view, ReplyView, ShellCall, ShellCallView};
use vstd::prelude::*;

verus! {

/// One call made on the shell, with the reply it got.
pub struct Exchange {
    pub call: ShellCallView,
    pub reply: ReplyView,
}

/// `exchanges` is what goes on between the shell and the command that opens
/// with `first`, from its first call to its last, and the command ends with
/// `result`: each call but the last is followed by the call that
/// `after_reply` names, and the reply to the last one ends the command.
pub open spec fn completes(
    first: ShellCallView,
    exchanges: Seq<Exchange>,
    result: ResultView,
) -> bool {
    &&& exchanges.len() > 0
    &&& exchanges[0].call == first
    &&& forall|i: int|
        0 <= i < exchanges.len() - 1 ==> after_reply(
            (#[trigger] exchanges[i]).call,
            exchanges[i].reply,
        ) == ProgressView::Call(exchanges[i + 1].call)
    &&& after_reply(exchanges.last().call, exchanges.last().reply) == ProgressView::Done(result)
}

/// The most calls that a command opening with `first` makes.
pub open spec fn calls_at_most(first: ShellCallView) -> nat {
    match first {
        ShellCallView::Resize(_) => 2,
        _ => 1,
    }
}

/// Whether the command that opens with `first` can come to make `call`.
pub open spec fn may_make(first: ShellCallView, call: ShellCallView) -> bool {
    call == first || (first is Resize && call is Center)
}

/// The exchanges in which the shell was asked for `calls`, in this order, and
/// gave `replies`.
pub open spec fn exchanges_of(
    calls: Seq<ShellCall>,
    replies: Seq<Result<(), String>>,
) -> Seq<Exchange>
    recommends
        calls.len() == replies.len(),
{
    Seq::new(calls.len(), |i: int| Exchange { call: calls[i]@, reply: reply_view(replies[i]) })
}

/// Carries out the command that opens with `first`: hands each call to
/// `perform`, which makes it on the shell and returns the shell's reply, and
/// goes on as `advance` decides until the command is over.
///
/// `perform` need only accept the calls that this command can make. Whatever
/// it replies, the calls handed to it and the replies it gave make up the
/// whole of the command, and the result is the one they end with: the first
/// refusal ends the command.
pub fn execute<F>(first: ShellCall, perform: F) -> (result: Result<(), CommandError>)
    where
        F: Fn(&ShellCall) -> Result<(), String>,
    requires
        forall|call: ShellCall| may_make(first@, call@) ==> #[trigger] perform.requires((&call,)),
    ensures
        exists|calls: Seq<ShellCall>, replies: Seq<Result<(), String>>|
            {
                &&& calls.len() == replies.len()
                &&& forall|i: int|
                    0 <= i < calls.len() ==> perform.ensures((&#[trigger] calls[i],), replies[i])
                &&& completes(first@, #[trigger] exchanges_of(calls, replies), result_view(result))
            },
{
    let ghost opening = first@;
    let ghost mut calls: Seq<ShellCall> = Seq::empty();
    let ghost mut replies: Seq<Result<(), String>> = Seq::empty();
    let mut pending = first;
    loop
        invariant
            opening == first@,
            forall|call: ShellCall|
                may_make(opening, call@) ==> #[trigger] perform.requires((&call,)),
            calls.len() == replies.len(),
            forall|i: int|
                0 <= i < calls.len() ==> perform.ensures((&#[trigger] calls[i],), replies[i]),
            calls.len() == 0 ==> pending@ == opening,
            calls.len() != 0 ==> {
                &&& calls.len() == 1
                &&& calls[0]@ == opening
                &&& after_reply(opening, reply_view(replies[0])) == ProgressView::Call(pending@)
            },
        decreases 2 - calls.len(),
    {
        let reply = perform(&pending);
        proof {
            calls = calls.push(pending);
            replies = replies.push(reply);
        }
        match advance(&pending, reply) {
            Progress::Call(next) => {
                pending = next;
            },
            Progress::Done(result) => {
                proof {
                    let exchanges = exchanges_of(calls, replies);
                    assert(completes(opening, exchanges, result_view(result)));
                }
                return result;
            },
        }
    }
}

/// No command makes more calls than `calls_at_most` says: two for a resize,
/// which centring follows, and one for anything else.
pub proof fn command_is_bounded(
    first: ShellCallView,
    exchanges: Seq<Exchange>,
    result: ResultView,
)
    requires
        completes(first, exchanges, result),
    ensures
        exchanges.len() <= calls_at_most(first),
{
    if exchanges.len() > 1 {
        assert(after_reply(exchanges[0].call, exchanges[0].reply) == ProgressView::Call(
            exchanges[1].call,
        ));
        if exchanges.len() > 2 {
            assert(after_reply(exchanges[1].call, exchanges[1].reply) == ProgressView::Call(
                exchanges[2].call,
            ));
        }
    }
}

/// A command's result is settled by its own first call and the replies to
/// its own calls: two commands that open alike and are answered alike make
/// the same calls and end alike.
pub proof fn command_is_determined(
    first: ShellCallView,
    one: Seq<Exchange>,
    one_result: ResultView,
    other: Seq<Exchange>,
    other_result: ResultView,
)
    requires
        completes(first, one, one_result),
        completes(first, other, other_result),
        forall|i: int|
            0 <= i < one.len() && i < other.len() ==> (#[trigger] one[i]).reply == other[i].reply,
    ensures
        one == other,
        one_result == other_result,
{
    command_is_bounded(first, one, one_result);
    command_is_bounded(first, other, other_result);
    assert(one[0].reply == other[0].reply);
    if one.len() > 1 {
        assert(after_reply(one[0].call, one[0].reply) == ProgressView::Call(one[1].call));
    }
    if other.len() > 1 {
        assert(after_reply(other[0].call, other[0].reply) == ProgressView::Call(other[1].call));
    }
    if one.len() > 1 {
        assert(one[1].reply == other[1].reply);
    }
    assert(one =~= other);
}

/// Every failure is the shell's, passed on as it came: a command fails
/// exactly when the shell refused its last call, with the error kind of that
/// call and the shell's message, and it never goes on after a refusal.
pub proof fn failure_is_passed_on(
    first: ShellCallView,
    exchanges: Seq<Exchange>,
    result: ResultView,
)
    requires
        completes(first, exchanges, result),
    ensures
        forall|i: int| 0 <= i < exchanges.len() - 1 ==> (#[trigger] exchanges[i]).reply is Ok,
        result is Ok <==> exchanges.last().reply is Ok,
        exchanges.last().reply matches Err(refusal) ==> result == Err::<(), CommandErrorView>(
            CommandErrorView { kind: exchanges.last().call.failure_kind(), message: refusal },
        ),
{
    assert forall|i: int| 0 <= i < exchanges.len() - 1 implies (#[trigger] exchanges[i]).reply
        is Ok by {
        assert(after_reply(exchanges[i].call, exchanges[i].reply) == ProgressView::Call(
            exchanges[i + 1].call,
        ));
    }
}

/// `show_notification` makes one call. It succeeds exactly when the shell
/// did that call; when the shell refused, the error carries the shell's
/// message unchanged, so it is empty only where the shell's own message was.
pub proof fn notification_result(
    title: Seq<char>,
    message: Seq<char>,
    exchanges: Seq<Exchange>,
    result: ResultView,
)
    requires
        completes(notification_call(title, message), exchanges, result),
    ensures
        exchanges.len() == 1,
        exchanges[0].call == notification_call(title, message),
        result is Ok <==> exchanges[0].reply is Ok,
        exchanges[0].reply matches Err(refusal) ==> result == Err::<(), CommandErrorView>(
            CommandErrorView { kind: ErrorKind::NotificationFailed, message: refusal },
        ),
{
    command_is_bounded(notification_call(title, message), exchanges, result);
}

/// `show_notification` answers the front end with success or with an error
/// string, and that string is not empty where the shell's message was not.
pub proof fn notification_answer_is_not_empty(
    title: Seq<char>,
    message: Seq<char>,
    exchanges: Seq<Exchange>,
    result: ResultView,
)
    requires
        completes(notification_call(title, message), exchanges, result),
        exchanges[0].reply matches Err(refusal) ==> refusal.len() > 0,
    ensures
        answer_of(result) matches Err(text) ==> text.len() > 0,
{
    notification_result(title, message, exchanges, result);
}

/// `set_decorations` makes one call, with the value it was given. It
/// succeeds exactly when the shell did that call, and otherwise fails with
/// the shell's message.
pub proof fn decorations_result(decorations: bool, exchanges: Seq<Exchange>, result: ResultView)
    requires
        completes(decorations_call(decorations), exchanges, result),
    ensures
        exchanges.len() == 1,
        exchanges[0].call == decorations_call(decorations),
        result is Ok <==> exchanges[0].reply is Ok,
        exchanges[0].reply matches Err(refusal) ==> result == Err::<(), CommandErrorView>(
            CommandErrorView { kind: ErrorKind::DecorationChangeFailed, message: refusal },
        ),
{
    command_is_bounded(decorations_call(decorations), exchanges, result);
}

/// When the shell refuses the resize, `set_window_size` ends there: the
/// resize is the only call it has made, centring is never asked for, and the
/// result is the resize error with the shell's message.
pub proof fn failed_resize_ends_command(
    width: u32,
    height: u32,
    exchanges: Seq<Exchange>,
    result: ResultView,
)
    requires
        completes(resize_call(width, height), exchanges, result),
        exchanges[0].reply is Err,
    ensures
        exchanges.len() == 1,
        result == Err::<(), CommandErrorView>(
            CommandErrorView {
                kind: ErrorKind::ResizeFailed,
                message: exchanges[0].reply->Err_0,
            },
        ),
{
    if exchanges.len() > 1 {
        assert(after_reply(exchanges[0].call, exchanges[0].reply) == ProgressView::Call(
            exchanges[1].call,
        ));
    }
}

/// When the shell does the resize, `set_window_size` asks for centring
/// next and for nothing after it; the reply to the centring decides the
/// result. So the command succeeds exactly when it made both calls, resize
/// first, and the shell did both.
pub proof fn resize_is_followed_by_centering(
    width: u32,
    height: u32,
    exchanges: Seq<Exchange>,
    result: ResultView,
)
    requires
        completes(resize_call(width, height), exchanges, result),
        exchanges[0].reply is Ok,
    ensures
        exchanges.len() == 2,
        exchanges[0].call == resize_call(width, height),
        exchanges[1].call == ShellCallView::Center,
        result is Ok <==> exchanges[1].reply is Ok,
        exchanges[1].reply matches Err(refusal) ==> result == Err::<(), CommandErrorView>(
            CommandErrorView { kind: ErrorKind::CenterFailed, message: refusal },
        ),
{
    command_is_bounded(resize_call(width, height), exchanges, result);
    if exchanges.len() > 1 {
        assert(after_reply(exchanges[0].call, exchanges[0].reply) == ProgressView::Call(
            exchanges[1].call,
        ));
    }
}

} // verus!
