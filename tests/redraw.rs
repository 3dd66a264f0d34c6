use galileo_egui::messenger::MapStateMessenger;
use galileo_egui::redraw::{on_request, on_take, RedrawFlag};

#[test]
fn redraw_requests_coalesce() {
    let flag = RedrawFlag::new();
    assert!(flag.take_and_clear());
    assert!(!flag.take_and_clear());

    let mut repaints = 0;
    for _ in 0..5 {
        if flag.request_redraw() {
            repaints += 1;
        }
    }
    assert_eq!(repaints, 1);
    assert!(flag.take_and_clear());
    assert!(!flag.take_and_clear());
}

#[test]
fn single_request_repaints_once() {
    let flag = RedrawFlag::new();
    assert!(flag.take_and_clear());
    assert!(flag.request_redraw());
    assert!(flag.take_and_clear());
}

#[test]
fn request_on_fresh_flag_needs_no_repaint() {
    let flag = RedrawFlag::new();
    assert!(!flag.request_redraw());
    assert!(flag.take_and_clear());
}

#[test]
fn clones_share_the_flag() {
    let flag = RedrawFlag::new();
    let other = flag.clone();
    assert!(other.take_and_clear());
    assert!(!flag.take_and_clear());
    assert!(flag.request_redraw());
    assert!(other.take_and_clear());
}

#[test]
fn transition_tables() {
    assert_eq!(on_request(false), (true, true));
    assert_eq!(on_request(true), (true, false));
    assert_eq!(on_take(true), (false, true));
    assert_eq!(on_take(false), (false, false));
}

#[test]
fn messenger_marks_dirty() {
    let flag = RedrawFlag::new();
    let messenger = MapStateMessenger {
        requires_redraw: flag.clone(),
        context: egui::Context::default(),
    };
    assert!(flag.take_and_clear());
    messenger.request_redraw();
    messenger.request_redraw();
    let copy = messenger.clone();
    copy.request_redraw();
    assert!(flag.take_and_clear());
    assert!(!flag.take_and_clear());
}
