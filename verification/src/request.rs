//! What the front end hands to a command. Each request lives for one call.

use vstd::prelude::*;

verus! {

/// A system notification to display. Either text may be empty: the
/// notification service is the judge of that.
#[derive(Debug, PartialEq, Eq)]
pub struct NotificationRequest {
    pub title: String,
    pub message: String,
}

/// A `NotificationRequest` as a plain value.
pub struct NotificationRequestView {
    pub title: Seq<char>,
    pub message: Seq<char>,
}

impl View for NotificationRequest {
    type V = NotificationRequestView;

    open spec fn view(&self) -> NotificationRequestView {
        NotificationRequestView { title: self.title@, message: self.message@ }
    }
}

/// Whether the window is to show its native chrome: title bar and borders.
#[derive(Clone, Copy, Debug, PartialEq, Eq, Structural)]
pub struct DecorationRequest {
    pub enabled: bool,
}

/// A size for the window, in physical pixels. No range is imposed here: the
/// window manager clamps or rejects what it cannot show.
#[derive(Clone, Copy, Debug, PartialEq, Eq, Structural)]
pub struct WindowSizeRequest {
    pub width: u32,
    pub height: u32,
}

} // verus!
