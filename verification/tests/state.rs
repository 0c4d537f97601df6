use nih_plug_dioxus::state::{empty_size_fn, state_without_default_size, DioxusState};

#[test]
fn size_falls_back_to_default() {
    let s = DioxusState::new(|| (400, 300));
    assert_eq!(s.size(), (400, 300));
    assert_eq!(s.inner_logical_size(), (400, 300));
    assert!(!s.is_open());
}

#[test]
fn stored_size_wins_when_both_edges_set() {
    let mut s = DioxusState::new(|| (400, 300));
    s.set_size(800, 600);
    assert_eq!(s.size(), (800, 600));
    s.set_size(800, 0);
    assert_eq!(s.size(), (400, 300));
    s.set_size(0, 600);
    assert_eq!(s.inner_logical_size(), (400, 300));
}

#[test]
fn resize_request_is_taken_once() {
    let mut s = DioxusState::new(|| (400, 300));
    assert_eq!(s.take_pending_resize(), None);
    s.request_resize(500, 350);
    s.request_resize(500, 350);
    assert_eq!(s.take_pending_resize(), Some((500, 350)));
    assert_eq!(s.take_pending_resize(), None);
}

#[test]
fn latest_resize_request_wins() {
    let mut s = DioxusState::new(|| (400, 300));
    s.request_resize(500, 350);
    s.request_resize(640, 480);
    assert_eq!(s.take_pending_resize(), Some((640, 480)));
}

#[test]
fn host_and_ui_resize_queues_are_independent() {
    let mut s = DioxusState::new(|| (400, 300));
    s.host_set_size(1000, 700);
    assert_eq!(s.take_pending_resize(), None);
    s.request_resize(300, 200);
    assert_eq!(s.take_pending_host_resize(), Some((1000, 700)));
    assert_eq!(s.take_pending_host_resize(), None);
    assert_eq!(s.take_pending_resize(), Some((300, 200)));
    assert_eq!(s.size(), (400, 300));
}

#[test]
fn open_flag_round_trip() {
    let mut s = DioxusState::new(|| (1, 1));
    s.set_open(true);
    assert!(s.is_open());
    s.set_open(false);
    assert!(!s.is_open());
}

#[test]
fn empty_size_fn_reports_nothing_until_a_size_is_stored() {
    let mut s = DioxusState::new(empty_size_fn());
    assert_eq!(s.size(), (0, 0));
    s.set_size(640, 480);
    assert_eq!(s.size(), (640, 480));
}

#[test]
fn state_without_default_size_reports_zero_until_sized() {
    let mut s = state_without_default_size();
    assert_eq!(s.size(), (0, 0));
    assert!(!s.is_open());
    s.set_size(300, 200);
    assert_eq!(s.size(), (300, 200));
}
