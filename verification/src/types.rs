//! Plain data types shared across the library: colors, input
//! identifiers with their native platform codes, and the error
//! taxonomy.

use vstd::prelude::*;

verus! {

/// An RGBA color with 8 bits per channel.
#[derive(Clone, Copy, PartialEq, Eq, Structural, Debug)]
pub struct Color {
    pub r: u8,
    pub g: u8,
    pub b: u8,
    pub a: u8,
}

impl Color {
    /// Creates a new solid color.
    pub fn new(r: u8, g: u8, b: u8) -> (c: Color)
        ensures
            c == (Color { r, g, b, a: 255 }),
    {
        Color { r, g, b, a: 255 }
    }

    /// Creates a new color with transparency.
    pub fn new_alpha(r: u8, g: u8, b: u8, a: u8) -> (c: Color)
        ensures
            c == (Color { r, g, b, a }),
    {
        Color { r, g, b, a }
    }
}

/// The errors the session surfaces to callers.
#[derive(Clone, Copy, PartialEq, Eq, Structural, Debug)]
pub enum MayError {
    /// The platform could not allocate a window or its render target.
    PlatformError,
    /// An accessor ran while the current-window selector does not
    /// resolve to a live registry entry.
    InvalidWindowReference,
    /// A non-positive target frame rate was rejected.
    InvalidFrameRate,
}

/// A mouse button, independent of the platform toolkit.
#[derive(Clone, Copy, PartialEq, Eq, Structural, Debug)]
pub enum MouseButton {
    Left,
    Right,
    Middle,
}

/// The platform's numeric code for a mouse button.
pub open spec fn button_code_spec(button: MouseButton) -> u8 {
    match button {
        MouseButton::Left => 1,
        MouseButton::Middle => 2,
        MouseButton::Right => 3,
    }
}

/// Maps a mouse button to the platform's numeric button code: a pure,
/// total mapping, usable without a live platform context.
pub fn button_code(button: MouseButton) -> (code: u8)
    ensures
        code == button_code_spec(button),
{
    match button {
        MouseButton::Left => 1,
        MouseButton::Middle => 2,
        MouseButton::Right => 3,
    }
}

/// A key on the keyboard, by position, independent of the platform
/// toolkit.
#[derive(Clone, Copy, PartialEq, Eq, Structural, Hash, Debug)]
pub enum Keycode {
    A,
    B,
    C,
    D,
    E,
    F,
    G,
    H,
    I,
    J,
    K,
    L,
    M,
    N,
    O,
    P,
    Q,
    R,
    S,
    T,
    U,
    V,
    W,
    X,
    Y,
    Z,
    Num1,
    Num2,
    Num3,
    Num4,
    Num5,
    Num6,
    Num7,
    Num8,
    Num9,
    Num0,
    Return,
    Escape,
    Backspace,
    Tab,
    Space,
    Minus,
    Equals,
    LeftBracket,
    RightBracket,
    Backslash,
    NonUsHash,
    Semicolon,
    Apostrophe,
    Grave,
    Comma,
    Period,
    Slash,
    CapsLock,
    F1,
    F2,
    F3,
    F4,
    F5,
    F6,
    F7,
    F8,
    F9,
    F10,
    F11,
    F12,
    F13,
    F14,
    F15,
    F16,
    F17,
    F18,
    F19,
    F20,
    F21,
    F22,
    F23,
    F24,
    Delete,
    Right,
    Left,
    Down,
    Up,
}

/// The platform's numeric scancode for a key.
pub open spec fn scancode_spec(key: Keycode) -> u16 {
    match key {
        Keycode::A => 4,
        Keycode::B => 5,
        Keycode::C => 6,
        Keycode::D => 7,
        Keycode::E => 8,
        Keycode::F => 9,
        Keycode::G => 10,
        Keycode::H => 11,
        Keycode::I => 12,
        Keycode::J => 13,
        Keycode::K => 14,
        Keycode::L => 15,
        Keycode::M => 16,
        Keycode::N => 17,
        Keycode::O => 18,
        Keycode::P => 19,
        Keycode::Q => 20,
        Keycode::R => 21,
        Keycode::S => 22,
        Keycode::T => 23,
        Keycode::U => 24,
        Keycode::V => 25,
        Keycode::W => 26,
        Keycode::X => 27,
        Keycode::Y => 28,
        Keycode::Z => 29,
        Keycode::Num1 => 30,
        Keycode::Num2 => 31,
        Keycode::Num3 => 32,
        Keycode::Num4 => 33,
        Keycode::Num5 => 34,
        Keycode::Num6 => 35,
        Keycode::Num7 => 36,
        Keycode::Num8 => 37,
        Keycode::Num9 => 38,
        Keycode::Num0 => 39,
        Keycode::Return => 40,
        Keycode::Escape => 41,
        Keycode::Backspace => 42,
        Keycode::Tab => 43,
        Keycode::Space => 44,
        Keycode::Minus => 45,
        Keycode::Equals => 46,
        Keycode::LeftBracket => 47,
        Keycode::RightBracket => 48,
        Keycode::Backslash => 49,
        Keycode::NonUsHash => 50,
        Keycode::Semicolon => 51,
        Keycode::Apostrophe => 52,
        Keycode::Grave => 53,
        Keycode::Comma => 54,
        Keycode::Period => 55,
        Keycode::Slash => 56,
        Keycode::CapsLock => 57,
        Keycode::F1 => 58,
        Keycode::F2 => 59,
        Keycode::F3 => 60,
        Keycode::F4 => 61,
        Keycode::F5 => 62,
        Keycode::F6 => 63,
        Keycode::F7 => 64,
        Keycode::F8 => 65,
        Keycode::F9 => 66,
        Keycode::F10 => 67,
        Keycode::F11 => 68,
        Keycode::F12 => 69,
        Keycode::F13 => 104,
        Keycode::F14 => 105,
        Keycode::F15 => 106,
        Keycode::F16 => 107,
        Keycode::F17 => 108,
        Keycode::F18 => 109,
        Keycode::F19 => 110,
        Keycode::F20 => 111,
        Keycode::F21 => 112,
        Keycode::F22 => 113,
        Keycode::F23 => 114,
        Keycode::F24 => 115,
        Keycode::Delete => 76,
        Keycode::Right => 79,
        Keycode::Left => 80,
        Keycode::Down => 81,
        Keycode::Up => 82,
    }
}

/// Maps a key to the platform's numeric scancode: a pure, total
/// mapping, usable without a live platform context.
pub fn scancode_of(key: Keycode) -> (code: u16)
    ensures
        code == scancode_spec(key),
{
    match key {
        Keycode::A => 4,
        Keycode::B => 5,
        Keycode::C => 6,
        Keycode::D => 7,
        Keycode::E => 8,
        Keycode::F => 9,
        Keycode::G => 10,
        Keycode::H => 11,
        Keycode::I => 12,
        Keycode::J => 13,
        Keycode::K => 14,
        Keycode::L => 15,
        Keycode::M => 16,
        Keycode::N => 17,
        Keycode::O => 18,
        Keycode::P => 19,
        Keycode::Q => 20,
        Keycode::R => 21,
        Keycode::S => 22,
        Keycode::T => 23,
        Keycode::U => 24,
        Keycode::V => 25,
        Keycode::W => 26,
        Keycode::X => 27,
        Keycode::Y => 28,
        Keycode::Z => 29,
        Keycode::Num1 => 30,
        Keycode::Num2 => 31,
        Keycode::Num3 => 32,
        Keycode::Num4 => 33,
        Keycode::Num5 => 34,
        Keycode::Num6 => 35,
        Keycode::Num7 => 36,
        Keycode::Num8 => 37,
        Keycode::Num9 => 38,
        Keycode::Num0 => 39,
        Keycode::Return => 40,
        Keycode::Escape => 41,
        Keycode::Backspace => 42,
        Keycode::Tab => 43,
        Keycode::Space => 44,
        Keycode::Minus => 45,
        Keycode::Equals => 46,
        Keycode::LeftBracket => 47,
        Keycode::RightBracket => 48,
        Keycode::Backslash => 49,
        Keycode::NonUsHash => 50,
        Keycode::Semicolon => 51,
        Keycode::Apostrophe => 52,
        Keycode::Grave => 53,
        Keycode::Comma => 54,
        Keycode::Period => 55,
        Keycode::Slash => 56,
        Keycode::CapsLock => 57,
        Keycode::F1 => 58,
        Keycode::F2 => 59,
        Keycode::F3 => 60,
        Keycode::F4 => 61,
        Keycode::F5 => 62,
        Keycode::F6 => 63,
        Keycode::F7 => 64,
        Keycode::F8 => 65,
        Keycode::F9 => 66,
        Keycode::F10 => 67,
        Keycode::F11 => 68,
        Keycode::F12 => 69,
        Keycode::F13 => 104,
        Keycode::F14 => 105,
        Keycode::F15 => 106,
        Keycode::F16 => 107,
        Keycode::F17 => 108,
        Keycode::F18 => 109,
        Keycode::F19 => 110,
        Keycode::F20 => 111,
        Keycode::F21 => 112,
        Keycode::F22 => 113,
        Keycode::F23 => 114,
        Keycode::F24 => 115,
        Keycode::Delete => 76,
        Keycode::Right => 79,
        Keycode::Left => 80,
        Keycode::Down => 81,
        Keycode::Up => 82,
    }
}

} // verus!
