use command_bridge::bridge::{answer, set_decorations, set_window_size, show_notification};
use command_bridge::course::execute;
use command_bridge::error::CommandError;
use command_bridge::request::{DecorationRequest, NotificationRequest, WindowSizeRequest};
use command_bridge::shell::ShellCall;
use std::cell::RefCell;

/// A window that does what it is asked, unless told to refuse a call.
struct Window {
    decorated: bool,
    width: u32,
    height: u32,
    centered: bool,
    shown: Vec<(String, String)>,
    asked: Vec<String>,
    refuse: Vec<&'static str>,
}

fn window() -> RefCell<Window> {
    RefCell::new(Window {
        decorated: true,
        width: 1024,
        height: 768,
        centered: false,
        shown: Vec::new(),
        asked: Vec::new(),
        refuse: Vec::new(),
    })
}

fn refusing(names: Vec<&'static str>) -> RefCell<Window> {
    let made = window();
    made.borrow_mut().refuse = names;
    made
}

fn perform(window: &RefCell<Window>, call: &ShellCall) -> Result<(), String> {
    let mut w = window.borrow_mut();
    let name = match call {
        ShellCall::Notify(_) => "notify",
        ShellCall::SetDecorations(_) => "decorations",
        ShellCall::Resize(_) => "resize",
        ShellCall::Center => "center",
    };
    w.asked.push(name.to_string());
    if w.refuse.contains(&name) {
        return Err(format!("{} refused", name));
    }
    match call {
        ShellCall::Notify(NotificationRequest { title, message }) => {
            w.shown.push((title.clone(), message.clone()));
        }
        ShellCall::SetDecorations(DecorationRequest { enabled }) => {
            w.decorated = *enabled;
        }
        ShellCall::Resize(WindowSizeRequest { width, height }) => {
            w.width = *width;
            w.height = *height;
            w.centered = false;
        }
        ShellCall::Center => {
            w.centered = true;
        }
    }
    Ok(())
}

#[test]
fn execute_shows_the_notification() {
    let w = window();
    let result = execute(show_notification("Done".to_string(), "3 files".to_string()), |call| {
        perform(&w, call)
    });
    assert_eq!(result, Ok(()));
    assert_eq!(w.borrow().shown, vec![("Done".to_string(), "3 files".to_string())]);
    assert_eq!(w.borrow().asked, vec!["notify".to_string()]);
}

#[test]
fn execute_reports_a_rejected_notification() {
    let w = refusing(vec!["notify"]);
    let result = execute(show_notification(String::new(), String::new()), |call| perform(&w, call));
    assert_eq!(result, Err(CommandError::NotificationFailed("notify refused".to_string())));
    assert_eq!(answer(result), Err("notify refused".to_string()));
    assert!(w.borrow().shown.is_empty());
    assert_eq!(w.borrow().asked, vec!["notify".to_string()]);
}

#[test]
fn execute_sets_the_decorations() {
    let w = window();
    assert_eq!(execute(set_decorations(false), |call| perform(&w, call)), Ok(()));
    assert!(!w.borrow().decorated);
    assert_eq!(execute(set_decorations(true), |call| perform(&w, call)), Ok(()));
    assert!(w.borrow().decorated);
    assert_eq!(w.borrow().asked, vec!["decorations".to_string(), "decorations".to_string()]);
}

#[test]
fn setting_the_decorations_twice_is_as_once() {
    for value in [true, false] {
        let once = window();
        assert_eq!(execute(set_decorations(value), |call| perform(&once, call)), Ok(()));

        let twice = window();
        assert_eq!(execute(set_decorations(value), |call| perform(&twice, call)), Ok(()));
        assert_eq!(execute(set_decorations(value), |call| perform(&twice, call)), Ok(()));

        assert_eq!(once.borrow().decorated, value);
        assert_eq!(twice.borrow().decorated, once.borrow().decorated);
        assert_eq!(twice.borrow().width, once.borrow().width);
        assert_eq!(twice.borrow().height, once.borrow().height);
        assert_eq!(twice.borrow().centered, once.borrow().centered);
    }
}

#[test]
fn execute_reports_a_refused_decoration_change() {
    let w = refusing(vec!["decorations"]);
    let result = execute(set_decorations(false), |call| perform(&w, call));
    assert_eq!(result, Err(CommandError::DecorationChangeFailed("decorations refused".to_string())));
    assert!(w.borrow().decorated);
}

#[test]
fn execute_resizes_then_centers() {
    let w = window();
    let result = execute(set_window_size(800, 600), |call| perform(&w, call));
    assert_eq!(result, Ok(()));
    assert_eq!(w.borrow().width, 800);
    assert_eq!(w.borrow().height, 600);
    assert!(w.borrow().centered);
    assert!(w.borrow().decorated);
    assert_eq!(w.borrow().asked, vec!["resize".to_string(), "center".to_string()]);
}

#[test]
fn execute_never_centers_after_a_failed_resize() {
    let w = refusing(vec!["resize"]);
    let result = execute(set_window_size(800, 600), |call| perform(&w, call));
    assert_eq!(result, Err(CommandError::ResizeFailed("resize refused".to_string())));
    assert_eq!(w.borrow().asked, vec!["resize".to_string()]);
    assert_eq!(w.borrow().width, 1024);
    assert_eq!(w.borrow().height, 768);
    assert!(!w.borrow().centered);
}

#[test]
fn execute_leaves_the_window_resized_when_centering_fails() {
    let w = refusing(vec!["center"]);
    let result = execute(set_window_size(800, 600), |call| perform(&w, call));
    assert_eq!(result, Err(CommandError::CenterFailed("center refused".to_string())));
    assert_eq!(answer(result), Err("center refused".to_string()));
    assert_eq!(w.borrow().asked, vec!["resize".to_string(), "center".to_string()]);
    assert_eq!(w.borrow().width, 800);
    assert_eq!(w.borrow().height, 600);
    assert!(!w.borrow().centered);
}

#[test]
fn execute_reports_the_resize_when_both_would_fail() {
    let w = refusing(vec!["resize", "center"]);
    let result = execute(set_window_size(1, 1), |call| perform(&w, call));
    assert_eq!(result, Err(CommandError::ResizeFailed("resize refused".to_string())));
    assert_eq!(w.borrow().asked, vec!["resize".to_string()]);
}

#[test]
fn execute_hands_a_zero_size_to_the_shell() {
    let w = window();
    let seen: RefCell<Vec<(u32, u32)>> = RefCell::new(Vec::new());
    let result = execute(set_window_size(0, 0), |call| {
        if let ShellCall::Resize(request) = call {
            seen.borrow_mut().push((request.width, request.height));
        }
        perform(&w, call)
    });
    assert_eq!(result, Ok(()));
    assert_eq!(seen.into_inner(), vec![(0, 0)]);
    assert!(w.borrow().centered);
}

#[test]
fn execute_gives_the_same_result_for_the_same_replies() {
    for (width, height) in [(0, 0), (0, 5), (5, 0), (800, 600)] {
        let one = refusing(vec!["center"]);
        let other = refusing(vec!["center"]);
        let first = execute(set_window_size(width, height), |call| perform(&one, call));
        let second = execute(set_window_size(width, height), |call| perform(&other, call));
        assert_eq!(first, second);
        assert_eq!(one.borrow().asked, other.borrow().asked);
    }
}

#[test]
fn execute_makes_a_lone_centering_call() {
    let w = window();
    assert_eq!(execute(ShellCall::Center, |call| perform(&w, call)), Ok(()));
    assert_eq!(w.borrow().asked, vec!["center".to_string()]);
    assert!(w.borrow().centered);
}
