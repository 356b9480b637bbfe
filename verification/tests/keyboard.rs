use chip8::keyboard::{
    get_key_from_keycode, update_keyboard_keys_system, KeyCode, Keyboard,
};

#[test]
fn keypad_layout() {
    assert_eq!(get_key_from_keycode(&KeyCode::Digit1), Some(0x1));
    assert_eq!(get_key_from_keycode(&KeyCode::Digit2), Some(0x2));
    assert_eq!(get_key_from_keycode(&KeyCode::Digit3), Some(0x3));
    assert_eq!(get_key_from_keycode(&KeyCode::Digit4), Some(0xC));
    assert_eq!(get_key_from_keycode(&KeyCode::KeyQ), Some(0x4));
    assert_eq!(get_key_from_keycode(&KeyCode::KeyW), Some(0x5));
    assert_eq!(get_key_from_keycode(&KeyCode::KeyE), Some(0x6));
    assert_eq!(get_key_from_keycode(&KeyCode::KeyR), Some(0xD));
    assert_eq!(get_key_from_keycode(&KeyCode::KeyA), Some(0x7));
    assert_eq!(get_key_from_keycode(&KeyCode::KeyS), Some(0x8));
    assert_eq!(get_key_from_keycode(&KeyCode::KeyD), Some(0x9));
    assert_eq!(get_key_from_keycode(&KeyCode::KeyF), Some(0xE));
    assert_eq!(get_key_from_keycode(&KeyCode::KeyZ), Some(0xA));
    assert_eq!(get_key_from_keycode(&KeyCode::KeyX), Some(0x0));
    assert_eq!(get_key_from_keycode(&KeyCode::KeyC), Some(0xB));
    assert_eq!(get_key_from_keycode(&KeyCode::KeyV), Some(0xF));
    assert_eq!(get_key_from_keycode(&KeyCode::Other), None);
}

#[test]
fn keypad_layout_reaches_every_key_once() {
    let keys = [
        KeyCode::Digit1, KeyCode::Digit2, KeyCode::Digit3, KeyCode::Digit4,
        KeyCode::KeyQ, KeyCode::KeyW, KeyCode::KeyE, KeyCode::KeyR,
        KeyCode::KeyA, KeyCode::KeyS, KeyCode::KeyD, KeyCode::KeyF,
        KeyCode::KeyZ, KeyCode::KeyX, KeyCode::KeyC, KeyCode::KeyV,
    ];
    let mut seen = [false; 16];
    for key in keys.iter() {
        let code = get_key_from_keycode(key).unwrap() as usize;
        assert!(!seen[code]);
        seen[code] = true;
    }
    assert!(seen.iter().all(|s| *s));
}

#[test]
fn new_keyboard_has_no_key() {
    let keyboard = Keyboard::new();
    assert_eq!(keyboard.wait_for_any_key_press(), None);
    for key in 0..=255u8 {
        assert!(!keyboard.is_key_pressed(key));
    }
}

#[test]
fn set_key_is_seen_by_queries() {
    let mut keyboard = Keyboard::new();
    keyboard.set_key(Some(0x7));
    assert!(keyboard.is_key_pressed(0x7));
    assert!(!keyboard.is_key_pressed(0x8));
    assert_eq!(keyboard.wait_for_any_key_press(), Some(0x7));
    keyboard.set_key(Some(0x0));
    assert!(keyboard.is_key_pressed(0x0));
    assert!(!keyboard.is_key_pressed(0x7));
    assert_eq!(keyboard.wait_for_any_key_press(), Some(0x0));
    keyboard.set_key(None);
    assert!(!keyboard.is_key_pressed(0x0));
    assert_eq!(keyboard.wait_for_any_key_press(), None);
}

#[test]
fn polling_takes_the_first_keypad_key() {
    let mut keyboard = Keyboard::new();
    update_keyboard_keys_system(&[KeyCode::KeyW, KeyCode::KeyQ], &mut keyboard);
    assert_eq!(keyboard.wait_for_any_key_press(), Some(0x5));
    update_keyboard_keys_system(
        &[KeyCode::Other, KeyCode::Other, KeyCode::KeyV, KeyCode::Digit1],
        &mut keyboard,
    );
    assert_eq!(keyboard.wait_for_any_key_press(), Some(0xF));
    update_keyboard_keys_system(&[KeyCode::KeyX], &mut keyboard);
    assert_eq!(keyboard.wait_for_any_key_press(), Some(0x0));
}

#[test]
fn polling_without_keypad_key_releases() {
    let mut keyboard = Keyboard::new();
    keyboard.set_key(Some(0x3));
    update_keyboard_keys_system(&[], &mut keyboard);
    assert_eq!(keyboard.wait_for_any_key_press(), None);
    keyboard.set_key(Some(0x3));
    update_keyboard_keys_system(&[KeyCode::Other, KeyCode::Other], &mut keyboard);
    assert_eq!(keyboard.wait_for_any_key_press(), None);
}
