use web_canvas::canvas::{KeyCode, MouseButton};

#[test]
fn mouse_buttons_decode() {
    assert_eq!(MouseButton::from(0), MouseButton::Left);
    assert_eq!(MouseButton::from(1), MouseButton::Middle);
    assert_eq!(MouseButton::from(2), MouseButton::Right);
    assert_eq!(MouseButton::from(3), MouseButton::Unknown);
    assert_eq!(MouseButton::from(255), MouseButton::Unknown);
}

#[test]
fn mouse_button_codes_round_trip() {
    for b in [MouseButton::Left, MouseButton::Middle, MouseButton::Right, MouseButton::Unknown] {
        assert_eq!(MouseButton::from(b.code()), b);
    }
    assert_eq!(MouseButton::Right.code(), 2);
}

#[test]
fn key_codes_decode() {
    assert_eq!(KeyCode::from(48), KeyCode::Key0);
    assert_eq!(KeyCode::from(57), KeyCode::Key9);
    assert_eq!(KeyCode::from(65), KeyCode::A);
    assert_eq!(KeyCode::from(90), KeyCode::Z);
    assert_eq!(KeyCode::from(37), KeyCode::ArrowLeft);
    assert_eq!(KeyCode::from(40), KeyCode::ArrowDown);
    assert_eq!(KeyCode::from(32), KeyCode::Space);
    assert_eq!(KeyCode::from(13), KeyCode::Enter);
    assert_eq!(KeyCode::from(27), KeyCode::Escape);
    assert_eq!(KeyCode::from(9), KeyCode::Tab);
    assert_eq!(KeyCode::from(16), KeyCode::Shift);
    assert_eq!(KeyCode::from(17), KeyCode::Ctrl);
    assert_eq!(KeyCode::from(18), KeyCode::Alt);
    assert_eq!(KeyCode::from(189), KeyCode::Minus);
    assert_eq!(KeyCode::from(187), KeyCode::Equal);
}

#[test]
fn unrecognised_key_codes_are_unknown() {
    assert_eq!(KeyCode::from(0), KeyCode::Unknown);
    assert_eq!(KeyCode::from(64), KeyCode::Unknown);
    assert_eq!(KeyCode::from(97), KeyCode::Unknown);
    assert_eq!(KeyCode::from(65535), KeyCode::Unknown);
    assert_eq!(KeyCode::from(u32::MAX), KeyCode::Unknown);
}

#[test]
fn key_codes_round_trip() {
    let keys = [
        KeyCode::Key0, KeyCode::Key5, KeyCode::A, KeyCode::M, KeyCode::Z,
        KeyCode::ArrowUp, KeyCode::ArrowRight, KeyCode::Space, KeyCode::Enter,
        KeyCode::Escape, KeyCode::Tab, KeyCode::Shift, KeyCode::Ctrl, KeyCode::Alt,
        KeyCode::Minus, KeyCode::Equal, KeyCode::Unknown,
    ];
    for k in keys {
        assert_eq!(KeyCode::from(k.code()), k);
    }
    assert_eq!(KeyCode::Equal.code(), 187);
    assert_eq!(KeyCode::Unknown.code(), 65535);
}
