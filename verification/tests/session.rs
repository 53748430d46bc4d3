use maylib::ops::{
    all_windows_closed, close_window, get_screen_height, get_screen_width, get_window_size,
    get_window_x, get_window_y, init_window, is_window_fullscreen, is_window_maximized,
    is_window_minimized, is_window_ready, is_window_resized, maximize_window, minimize_window,
    restore_window, set_window_position, set_window_size, set_window_title, switch_window,
    toggle_borderless_windowed, toggle_fullscreen, window_should_close,
};
use maylib::session::Maylib;
use maylib::types::MayError;

#[test]
fn window_defaults_after_creation() {
    let mut m = Maylib::init();
    let id = init_window(
        &mut m,
        String::from("Main"),
        800,
        600,
        1,
        10,
        20,
        1920,
        1080,
        5,
    );
    assert_eq!(id, 1);
    switch_window(&mut m, 1);
    assert_eq!(is_window_ready(&m), Ok(true));
    assert_eq!(window_should_close(&m), Ok(false));
    assert_eq!(is_window_fullscreen(&m), Ok(false));
    assert_eq!(is_window_minimized(&m), Ok(false));
    assert_eq!(is_window_maximized(&m), Ok(false));
    assert_eq!(is_window_resized(&m), Ok(false));
    assert!(m.registry.windows[0].bordered);
    assert_eq!(m.registry.windows[0].current_time, m.registry.windows[0].start_time);
    assert_eq!(m.registry.windows[0].previous_time, m.registry.windows[0].start_time);
}

#[test]
fn toggle_fullscreen_parity() {
    let mut m = Maylib::init();
    init_window(&mut m, String::from("T"), 640, 480, 3, 0, 0, 800, 600, 0);
    switch_window(&mut m, 3);
    for n in 1..=6 {
        toggle_fullscreen(&mut m).unwrap();
        let expected = n % 2 == 1;
        assert_eq!(is_window_fullscreen(&m), Ok(expected));
    }
}

#[test]
fn all_windows_closed_empty_then_not() {
    let mut m = Maylib::init();
    assert!(all_windows_closed(&m));
    init_window(&mut m, String::from("W"), 320, 240, 9, 0, 0, 800, 600, 0);
    assert!(!all_windows_closed(&m));
}

#[test]
fn closed_window_is_absent() {
    let mut m = Maylib::init();
    init_window(&mut m, String::from("W"), 320, 240, 4, 0, 0, 800, 600, 0);
    switch_window(&mut m, 4);
    assert_eq!(is_window_ready(&m), Ok(true));
    close_window(&mut m);
    assert!(m.registry.windows.is_empty());
    assert_eq!(is_window_ready(&m), Err(MayError::InvalidWindowReference));
    assert_eq!(window_should_close(&m), Err(MayError::InvalidWindowReference));
    assert_eq!(get_window_size(&m), Err(MayError::InvalidWindowReference));
}

#[test]
fn close_without_selection_is_noop() {
    let mut m = Maylib::init();
    init_window(&mut m, String::from("W"), 320, 240, 4, 0, 0, 800, 600, 0);
    // The selector still dangles at its initial value.
    close_window(&mut m);
    assert_eq!(m.registry.windows.len(), 1);
}

#[test]
fn two_windows_scenario() {
    let mut m = Maylib::init();
    let a = init_window(&mut m, String::from("A"), 800, 600, 11, 0, 0, 1920, 1080, 0);
    let b = init_window(&mut m, String::from("B"), 400, 300, 12, 0, 0, 1920, 1080, 1);
    switch_window(&mut m, a);
    assert_eq!(m.registry.current_window, a);
    switch_window(&mut m, b);
    assert_eq!(get_window_size(&m), Ok((400, 300)));
    close_window(&mut m);
    assert!(!all_windows_closed(&m));
    switch_window(&mut m, a);
    assert_eq!(get_window_size(&m), Ok((800, 600)));
}

#[test]
fn geometry_accessors_and_mutators() {
    let mut m = Maylib::init();
    init_window(&mut m, String::from("G"), 640, 480, 2, 30, 40, 2560, 1440, 0);
    switch_window(&mut m, 2);
    assert_eq!(get_window_x(&m), Ok(30));
    assert_eq!(get_window_y(&m), Ok(40));
    assert_eq!(get_screen_width(&m), Ok(2560));
    assert_eq!(get_screen_height(&m), Ok(1440));
    set_window_position(&mut m, -5, 77).unwrap();
    assert_eq!(get_window_x(&m), Ok(-5));
    assert_eq!(get_window_y(&m), Ok(77));
    set_window_size(&mut m, 1024, 768).unwrap();
    assert_eq!(get_window_size(&m), Ok((1024, 768)));
    set_window_title(&mut m, String::from("Renamed")).unwrap();
    assert_eq!(m.registry.windows[0].title, "Renamed");
}

#[test]
fn minimize_maximize_restore() {
    let mut m = Maylib::init();
    init_window(&mut m, String::from("M"), 640, 480, 6, 0, 0, 800, 600, 0);
    switch_window(&mut m, 6);
    maximize_window(&mut m).unwrap();
    assert_eq!(is_window_maximized(&m), Ok(true));
    minimize_window(&mut m).unwrap();
    assert_eq!(is_window_minimized(&m), Ok(true));
    restore_window(&mut m).unwrap();
    assert_eq!(is_window_maximized(&m), Ok(true));
    assert_eq!(is_window_minimized(&m), Ok(true));
}

#[test]
fn borderless_toggle_flips_flag() {
    let mut m = Maylib::init();
    init_window(&mut m, String::from("B"), 640, 480, 8, 0, 0, 800, 600, 0);
    switch_window(&mut m, 8);
    assert!(m.registry.windows[0].bordered);
    toggle_borderless_windowed(&mut m).unwrap();
    assert!(!m.registry.windows[0].bordered);
    toggle_borderless_windowed(&mut m).unwrap();
    assert!(m.registry.windows[0].bordered);
}

#[test]
fn mutators_fail_on_dangling_selector() {
    let mut m = Maylib::init();
    assert_eq!(toggle_fullscreen(&mut m), Err(MayError::InvalidWindowReference));
    assert_eq!(maximize_window(&mut m), Err(MayError::InvalidWindowReference));
    assert_eq!(minimize_window(&mut m), Err(MayError::InvalidWindowReference));
    assert_eq!(restore_window(&mut m), Err(MayError::InvalidWindowReference));
    assert_eq!(
        set_window_title(&mut m, String::from("x")),
        Err(MayError::InvalidWindowReference)
    );
    assert_eq!(set_window_size(&mut m, 1, 1), Err(MayError::InvalidWindowReference));
    assert_eq!(set_window_position(&mut m, 0, 0), Err(MayError::InvalidWindowReference));
    assert_eq!(toggle_borderless_windowed(&mut m), Err(MayError::InvalidWindowReference));
}
