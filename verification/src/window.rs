//! The window as the commands mean to leave it.
//!
//! The commands are written against a reading of the shell's calls: what a
//! call changes on the window when the shell does it, and that a refused call
//! changes nothing. `WindowModel` and `accepted` put that reading down, and
//! the laws below say what the commands achieve on a window that behaves so.
//! Whether the shell at hand does behave so is for the shell to answer.

use crate::bridge::{decorations_call, notification_call, resize_call, ResultView};
use crate::course::{
    completes, decorations_result, failed_resize_ends_command, notification_result,
    resize_is_followed_by_centering, Exchange,
};
use crate::shell::ShellCallView;
use vstd::prelude::*;

verus! {

/// What can be seen of a window.
pub struct WindowModel {
    /// The native chrome, title bar and borders, is shown.
    pub decorated: bool,
    /// Width in physical pixels.
    pub width: nat,
    /// Height in physical pixels.
    pub height: nat,
    /// The window has been centred on its display since it last took a size.
    pub centered: bool,
}

/// A call that the shell did takes the window from `before` to `after`.
///
/// A resize to a size with no zero in it gives exactly that size. With a
/// zero in it the size that results is the platform's affair and is left
/// open here. Either way the window has yet to be centred at its new size.
pub open spec fn accepted(call: ShellCallView, before: WindowModel, after: WindowModel) -> bool {
    match call {
        ShellCallView::Notify(_) => after == before,
        ShellCallView::SetDecorations(request) => after == (WindowModel {
            decorated: request.enabled,
            ..before
        }),
        ShellCallView::Resize(request) => {
            &&& after.decorated == before.decorated
            &&& !after.centered
            &&& request.width > 0 && request.height > 0 ==> after.width == request.width
                && after.height == request.height
        },
        ShellCallView::Center => after == (WindowModel { centered: true, ..before }),
    }
}

/// One exchange takes the window from `before` to `after`: by the call's
/// effect where the shell did the call, not at all where it refused.
pub open spec fn honours(exchange: Exchange, before: WindowModel, after: WindowModel) -> bool {
    match exchange.reply {
        Ok(_) => accepted(exchange.call, before, after),
        Err(_) => after == before,
    }
}

/// `states` are the states of a window that goes through `exchanges` with
/// nothing else acting on it: the state before the first call, then the
/// state after each.
pub open spec fn follows(exchanges: Seq<Exchange>, states: Seq<WindowModel>) -> bool {
    &&& states.len() == exchanges.len() + 1
    &&& forall|i: int|
        0 <= i < exchanges.len() ==> honours(#[trigger] exchanges[i], states[i], states[i + 1])
}

/// `show_notification` leaves the window as it was, whatever the reply.
pub proof fn notification_keeps_window(
    title: Seq<char>,
    message: Seq<char>,
    exchanges: Seq<Exchange>,
    result: ResultView,
    states: Seq<WindowModel>,
)
    requires
        completes(notification_call(title, message), exchanges, result),
        follows(exchanges, states),
    ensures
        states.last() == states[0],
{
    notification_result(title, message, exchanges, result);
    assert(honours(exchanges[0], states[0], states[1]));
}

/// A `set_decorations` that succeeds leaves the chrome as asked and all else
/// as it was; one that fails leaves the window as it was.
pub proof fn decorations_take_effect(
    decorations: bool,
    exchanges: Seq<Exchange>,
    result: ResultView,
    states: Seq<WindowModel>,
)
    requires
        completes(decorations_call(decorations), exchanges, result),
        follows(exchanges, states),
    ensures
        result is Ok ==> states.last() == (WindowModel { decorated: decorations, ..states[0] }),
        result is Err ==> states.last() == states[0],
{
    decorations_result(decorations, exchanges, result);
    assert(honours(exchanges[0], states[0], states[1]));
}

/// `set_decorations` is idempotent: once it has succeeded, giving the same
/// command again, with the same value, changes nothing more, whether the
/// second one succeeds or not. `states` runs through both commands: before
/// the first, between the two, after the second.
pub proof fn decorations_are_idempotent(
    decorations: bool,
    once: Seq<Exchange>,
    again: Seq<Exchange>,
    again_result: ResultView,
    states: Seq<WindowModel>,
)
    requires
        completes(decorations_call(decorations), once, Ok(())),
        completes(decorations_call(decorations), again, again_result),
        follows(once + again, states),
    ensures
        states.len() == 3,
        states[2] == states[1],
{
    decorations_result(decorations, once, Ok(()));
    decorations_result(decorations, again, again_result);
    let both = once + again;
    assert(both[0] == once[0]);
    assert(both[1] == again[0]);
    assert(honours(both[0], states[0], states[1]));
    assert(honours(both[1], states[1], states[2]));
}

/// When `set_window_size` succeeds with a width and a height above zero, the
/// window has exactly that size and is centred on its display; its chrome is
/// as it was.
pub proof fn window_is_resized_and_centered(
    width: u32,
    height: u32,
    exchanges: Seq<Exchange>,
    states: Seq<WindowModel>,
)
    requires
        width > 0,
        height > 0,
        completes(resize_call(width, height), exchanges, Ok(())),
        follows(exchanges, states),
    ensures
        states.last().width == width,
        states.last().height == height,
        states.last().centered,
        states.last().decorated == states[0].decorated,
{
    if exchanges[0].reply is Err {
        failed_resize_ends_command(width, height, exchanges, Ok(()));
    }
    resize_is_followed_by_centering(width, height, exchanges, Ok(()));
    assert(honours(exchanges[0], states[0], states[1]));
    assert(honours(exchanges[1], states[1], states[2]));
}

/// When `set_window_size` succeeds, the window is centred, a zero in the
/// size or not: such a size is passed on like any other, and the window
/// is centred at whatever size the shell then gave it.
pub proof fn window_is_centered_at_any_size(
    width: u32,
    height: u32,
    exchanges: Seq<Exchange>,
    states: Seq<WindowModel>,
)
    requires
        completes(resize_call(width, height), exchanges, Ok(())),
        follows(exchanges, states),
    ensures
        exchanges.len() == 2,
        states.last() == (WindowModel { centered: true, ..states[1] }),
        states.last().decorated == states[0].decorated,
{
    if exchanges[0].reply is Err {
        failed_resize_ends_command(width, height, exchanges, Ok(()));
    }
    resize_is_followed_by_centering(width, height, exchanges, Ok(()));
    assert(honours(exchanges[0], states[0], states[1]));
    assert(honours(exchanges[1], states[1], states[2]));
}

/// When the shell refuses the resize, `set_window_size` leaves the window as
/// it was.
pub proof fn failed_resize_keeps_window(
    width: u32,
    height: u32,
    exchanges: Seq<Exchange>,
    result: ResultView,
    states: Seq<WindowModel>,
)
    requires
        completes(resize_call(width, height), exchanges, result),
        exchanges[0].reply is Err,
        follows(exchanges, states),
    ensures
        states.last() == states[0],
{
    failed_resize_ends_command(width, height, exchanges, result);
    assert(honours(exchanges[0], states[0], states[1]));
}

/// When the shell does the resize and then refuses to centre,
/// `set_window_size` fails and nothing is undone: the window keeps its new
/// size and is not centred.
pub proof fn failed_centering_keeps_new_size(
    width: u32,
    height: u32,
    exchanges: Seq<Exchange>,
    result: ResultView,
    states: Seq<WindowModel>,
)
    requires
        width > 0,
        height > 0,
        completes(resize_call(width, height), exchanges, result),
        exchanges[0].reply is Ok,
        result is Err,
        follows(exchanges, states),
    ensures
        states.last().width == width,
        states.last().height == height,
        !states.last().centered,
{
    resize_is_followed_by_centering(width, height, exchanges, result);
    assert(honours(exchanges[0], states[0], states[1]));
    assert(honours(exchanges[1], states[1], states[2]));
}

} // verus!
