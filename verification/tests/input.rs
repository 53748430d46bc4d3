use maylib::ops::{
    cursor_hidden, get_clipboard_text, get_mouse_x, get_mouse_y, get_random_i32, get_random_i64,
    hide_cursor, key_pressed, mouse_button_pressed, set_clipboard_text, show_cursor, update_input,
};
use maylib::session::Maylib;
use maylib::types::{button_code, scancode_of, Color, Keycode, MouseButton};

#[test]
fn scancode_mapping_matches_platform_values() {
    assert_eq!(scancode_of(Keycode::A), 4);
    assert_eq!(scancode_of(Keycode::Z), 29);
    assert_eq!(scancode_of(Keycode::Num1), 30);
    assert_eq!(scancode_of(Keycode::Num0), 39);
    assert_eq!(scancode_of(Keycode::Return), 40);
    assert_eq!(scancode_of(Keycode::Space), 44);
    assert_eq!(scancode_of(Keycode::CapsLock), 57);
    assert_eq!(scancode_of(Keycode::F1), 58);
    assert_eq!(scancode_of(Keycode::F12), 69);
    assert_eq!(scancode_of(Keycode::F13), 104);
    assert_eq!(scancode_of(Keycode::F24), 115);
    assert_eq!(scancode_of(Keycode::Delete), 76);
    assert_eq!(scancode_of(Keycode::Right), 79);
    assert_eq!(scancode_of(Keycode::Left), 80);
    assert_eq!(scancode_of(Keycode::Down), 81);
    assert_eq!(scancode_of(Keycode::Up), 82);
}

#[test]
fn mouse_button_mapping_matches_platform_values() {
    assert_eq!(button_code(MouseButton::Left), 1);
    assert_eq!(button_code(MouseButton::Middle), 2);
    assert_eq!(button_code(MouseButton::Right), 3);
}

#[test]
fn input_snapshot_drives_queries() {
    let mut m = Maylib::init();
    assert!(!key_pressed(&m, Keycode::W));
    update_input(
        &mut m,
        vec![scancode_of(Keycode::W), scancode_of(Keycode::Space)],
        vec![button_code(MouseButton::Left)],
        120,
        -35,
    );
    assert!(key_pressed(&m, Keycode::W));
    assert!(key_pressed(&m, Keycode::Space));
    assert!(!key_pressed(&m, Keycode::S));
    assert!(mouse_button_pressed(&m, MouseButton::Left));
    assert!(!mouse_button_pressed(&m, MouseButton::Right));
    assert_eq!(get_mouse_x(&m), 120);
    assert_eq!(get_mouse_y(&m), -35);
}

#[test]
fn cursor_visibility_round_trip() {
    let mut m = Maylib::init();
    // The cursor starts shown.
    assert!(!cursor_hidden(&m));
    hide_cursor(&mut m);
    assert!(cursor_hidden(&m));
    show_cursor(&mut m);
    assert!(!cursor_hidden(&m));
}

#[test]
fn clipboard_round_trip() {
    let mut m = Maylib::init();
    assert_eq!(get_clipboard_text(&m), Some(String::new()));
    set_clipboard_text(&mut m, String::from("copied text"));
    assert_eq!(get_clipboard_text(&m), Some(String::from("copied text")));
}

#[test]
fn random_values_stay_in_range() {
    for _ in 0..100 {
        let a = get_random_i32(-3, 7);
        assert!((-3..7).contains(&a));
        let b = get_random_i64(1_000_000_000_000, 1_000_000_000_010);
        assert!((1_000_000_000_000..1_000_000_000_010).contains(&b));
    }
    assert_eq!(get_random_i32(5, 6), 5);
    assert_eq!(get_random_i64(-8, -7), -8);
}

#[test]
fn color_constructors() {
    let c = Color::new(10, 20, 30);
    assert_eq!(c, Color { r: 10, g: 20, b: 30, a: 255 });
    let d = Color::new_alpha(1, 2, 3, 4);
    assert_eq!(d, Color { r: 1, g: 2, b: 3, a: 4 });
    assert_ne!(c, d);
}
