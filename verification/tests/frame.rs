use maylib::events::Event;
use maylib::ops::{
    begin_drawing, end_drawing, frame_tick, get_time, init_window, is_window_focused,
    set_frame_rate, switch_window, translate_events, window_should_close,
};
use maylib::session::Maylib;
use maylib::types::MayError;

#[test]
fn default_frame_rate_and_interval() {
    let m = Maylib::init();
    assert_eq!(m.frame_rate, 60);
    // ceil(1000 / 60) milliseconds
    assert_eq!(m.frame_interval_ms, 17);
}

#[test]
fn set_frame_rate_updates_interval() {
    let mut m = Maylib::init();
    set_frame_rate(&mut m, 50).unwrap();
    assert_eq!(m.frame_rate, 50);
    assert_eq!(m.frame_interval_ms, 20);
    set_frame_rate(&mut m, 3).unwrap();
    // ceil(1000 / 3) milliseconds
    assert_eq!(m.frame_interval_ms, 334);
    set_frame_rate(&mut m, 1000).unwrap();
    assert_eq!(m.frame_interval_ms, 1);
}

#[test]
fn non_positive_frame_rate_rejected() {
    let mut m = Maylib::init();
    assert_eq!(set_frame_rate(&mut m, 0), Err(MayError::InvalidFrameRate));
    assert_eq!(set_frame_rate(&mut m, -30), Err(MayError::InvalidFrameRate));
    // The previous configuration stands.
    assert_eq!(m.frame_rate, 60);
    assert_eq!(m.frame_interval_ms, 17);
}

#[test]
fn pacing_wait_not_over_before_interval() {
    let mut m = Maylib::init();
    init_window(&mut m, String::from("P"), 640, 480, 1, 0, 0, 800, 600, 900);
    switch_window(&mut m, 1);
    set_frame_rate(&mut m, 50).unwrap();
    begin_drawing(&mut m, 1000, Vec::new());
    // interval is 20 ms: the wait that began at 1000 is not over...
    assert_eq!(frame_tick(&mut m, 1000), Ok(false));
    assert_eq!(frame_tick(&mut m, 1010), Ok(false));
    assert_eq!(frame_tick(&mut m, 1019), Ok(false));
    // ...until a full 1/50 s has elapsed.
    assert_eq!(frame_tick(&mut m, 1020), Ok(true));
    assert_eq!(frame_tick(&mut m, 1050), Ok(true));
}

#[test]
fn pacing_updates_current_window_timestamps() {
    let mut m = Maylib::init();
    init_window(&mut m, String::from("P"), 640, 480, 1, 0, 0, 800, 600, 500);
    switch_window(&mut m, 1);
    begin_drawing(&mut m, 1000, Vec::new());
    assert_eq!(get_time(&m), Ok(1000));
    assert_eq!(m.registry.windows[0].previous_time, 500);
    frame_tick(&mut m, 1010).unwrap();
    assert_eq!(get_time(&m), Ok(1010));
    assert_eq!(m.registry.windows[0].previous_time, 1000);
}

#[test]
fn frame_tick_fails_on_dangling_selector() {
    let mut m = Maylib::init();
    begin_drawing(&mut m, 100, Vec::new());
    assert_eq!(frame_tick(&mut m, 120), Err(MayError::InvalidWindowReference));
}

#[test]
fn event_queue_applied_in_order() {
    let mut m = Maylib::init();
    let w1 = init_window(&mut m, String::from("W1"), 640, 480, 1, 0, 0, 800, 600, 0);
    let w2 = init_window(&mut m, String::from("W2"), 640, 480, 2, 0, 0, 800, 600, 0);
    let queue = vec![
        Event::WindowClose { window_id: w1 },
        Event::FocusLost { window_id: w2 },
        Event::FocusGained { window_id: w2 },
    ];
    begin_drawing(&mut m, 10, queue);
    switch_window(&mut m, w1);
    assert_eq!(window_should_close(&m), Ok(true));
    switch_window(&mut m, w2);
    assert_eq!(is_window_focused(&m), Ok(true));
}

#[test]
fn event_order_matters_for_focus() {
    let mut m = Maylib::init();
    let w = init_window(&mut m, String::from("W"), 640, 480, 5, 0, 0, 800, 600, 0);
    switch_window(&mut m, w);
    let queue = vec![
        Event::FocusGained { window_id: w },
        Event::FocusLost { window_id: w },
    ];
    translate_events(&mut m, queue);
    assert_eq!(is_window_focused(&m), Ok(false));
}

#[test]
fn unknown_window_and_other_events_ignored() {
    let mut m = Maylib::init();
    let w = init_window(&mut m, String::from("W"), 640, 480, 5, 0, 0, 800, 600, 0);
    switch_window(&mut m, w);
    let queue = vec![
        Event::WindowClose { window_id: 999 },
        Event::Other,
    ];
    translate_events(&mut m, queue);
    assert_eq!(window_should_close(&m), Ok(false));
    assert!(!m.terminated);
}

#[test]
fn termination_event_enters_terminal_state() {
    let mut m = Maylib::init();
    init_window(&mut m, String::from("W"), 640, 480, 5, 0, 0, 800, 600, 0);
    switch_window(&mut m, 5);
    assert!(!m.is_terminated());
    begin_drawing(&mut m, 10, vec![Event::AppTerminating]);
    assert!(m.is_terminated());
    // The terminal state is sticky.
    translate_events(&mut m, vec![Event::Other]);
    assert!(m.is_terminated());
}

#[test]
fn begin_drawing_stamps_every_window() {
    let mut m = Maylib::init();
    init_window(&mut m, String::from("A"), 640, 480, 1, 0, 0, 800, 600, 100);
    init_window(&mut m, String::from("B"), 640, 480, 2, 0, 0, 800, 600, 200);
    begin_drawing(&mut m, 300, Vec::new());
    assert_eq!(m.registry.windows[0].previous_time, 100);
    assert_eq!(m.registry.windows[0].current_time, 300);
    assert_eq!(m.registry.windows[1].previous_time, 200);
    assert_eq!(m.registry.windows[1].current_time, 300);
}

#[test]
fn end_drawing_lists_every_window_in_creation_order() {
    let mut m = Maylib::init();
    init_window(&mut m, String::from("A"), 640, 480, 31, 0, 0, 800, 600, 0);
    init_window(&mut m, String::from("B"), 640, 480, 7, 0, 0, 800, 600, 0);
    init_window(&mut m, String::from("C"), 640, 480, 19, 0, 0, 800, 600, 0);
    assert_eq!(end_drawing(&m), vec![31, 7, 19]);
}
