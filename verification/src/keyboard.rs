//! The sixteen-key keypad and its place on a computer keyboard.

use vstd::prelude::*;

verus! {

/// The keys of a computer keyboard that the keypad is laid out on, and
/// `Other` for every key that it does not use.
#[derive(Debug, Clone, Copy, PartialEq, Eq, Structural)]
pub enum KeyCode {
    Digit1,
    Digit2,
    Digit3,
    Digit4,
    KeyQ,
    KeyW,
    KeyE,
    KeyR,
    KeyA,
    KeyS,
    KeyD,
    KeyF,
    KeyZ,
    KeyX,
    KeyC,
    KeyV,
    Other,
}

/// The keypad key that a keyboard key stands for. The block `1234`, `QWER`,
/// `ASDF`, `ZXCV` of the keyboard is the keypad
///
/// ```text
/// 1 2 3 C
/// 4 5 6 D
/// 7 8 9 E
/// A 0 B F
/// ```
pub open spec fn keypad_key(keycode: KeyCode) -> Option<u8> {
    match keycode {
        KeyCode::Digit1 => Some(0x1u8),
        KeyCode::Digit2 => Some(0x2u8),
        KeyCode::Digit3 => Some(0x3u8),
        KeyCode::Digit4 => Some(0xCu8),
        KeyCode::KeyQ => Some(0x4u8),
        KeyCode::KeyW => Some(0x5u8),
        KeyCode::KeyE => Some(0x6u8),
        KeyCode::KeyR => Some(0xDu8),
        KeyCode::KeyA => Some(0x7u8),
        KeyCode::KeyS => Some(0x8u8),
        KeyCode::KeyD => Some(0x9u8),
        KeyCode::KeyF => Some(0xEu8),
        KeyCode::KeyZ => Some(0xAu8),
        KeyCode::KeyX => Some(0x0u8),
        KeyCode::KeyC => Some(0xBu8),
        KeyCode::KeyV => Some(0xFu8),
        KeyCode::Other => None,
    }
}

/// The keyboard key on which a keypad key lies; `Other` for a number that is
/// no keypad key.
pub open spec fn keyboard_key(key: u8) -> KeyCode {
    if key == 0x1 {
        KeyCode::Digit1
    } else if key == 0x2 {
        KeyCode::Digit2
    } else if key == 0x3 {
        KeyCode::Digit3
    } else if key == 0xC {
        KeyCode::Digit4
    } else if key == 0x4 {
        KeyCode::KeyQ
    } else if key == 0x5 {
        KeyCode::KeyW
    } else if key == 0x6 {
        KeyCode::KeyE
    } else if key == 0xD {
        KeyCode::KeyR
    } else if key == 0x7 {
        KeyCode::KeyA
    } else if key == 0x8 {
        KeyCode::KeyS
    } else if key == 0x9 {
        KeyCode::KeyD
    } else if key == 0xE {
        KeyCode::KeyF
    } else if key == 0xA {
        KeyCode::KeyZ
    } else if key == 0x0 {
        KeyCode::KeyX
    } else if key == 0xB {
        KeyCode::KeyC
    } else if key == 0xF {
        KeyCode::KeyV
    } else {
        KeyCode::Other
    }
}

/// The keypad and its block of the keyboard match key for key: each of the
/// sixteen keypad keys lies on one keyboard key, and each keyboard key of
/// the block stands for one keypad key.
pub proof fn lemma_keypad_matches_keyboard(keycode: KeyCode, key: u8)
    ensures
        key < 16 ==> keypad_key(keyboard_key(key)) == Some(key),
        keypad_key(keycode) matches Some(k) ==> k < 16 && keyboard_key(k) == keycode,
{
}

/// The keypad key of the first key in `keys` that stands for one, if any
/// does.
pub open spec fn first_keypad_key(keys: Seq<KeyCode>) -> Option<u8>
    decreases keys.len(),
{
    if keys.len() == 0 {
        None
    } else if keypad_key(keys.first()) is Some {
        keypad_key(keys.first())
    } else {
        first_keypad_key(keys.drop_first())
    }
}

/// The keypad key that `keycode` stands for: one of the sixteen keys 0x0 to
/// 0xF, or `None` for a key outside the keypad's block.
pub fn get_key_from_keycode(keycode: &KeyCode) -> (key: Option<u8>)
    ensures
        key == keypad_key(*keycode),
        key matches Some(k) ==> k < 16,
        key is None <==> *keycode == KeyCode::Other,
{
    let key: u8 = match keycode {
        KeyCode::Digit1 => 0x1,
        KeyCode::Digit2 => 0x2,
        KeyCode::Digit3 => 0x3,
        KeyCode::Digit4 => 0xC,
        KeyCode::KeyQ => 0x4,
        KeyCode::KeyW => 0x5,
        KeyCode::KeyE => 0x6,
        KeyCode::KeyR => 0xD,
        KeyCode::KeyA => 0x7,
        KeyCode::KeyS => 0x8,
        KeyCode::KeyD => 0x9,
        KeyCode::KeyF => 0xE,
        KeyCode::KeyZ => 0xA,
        KeyCode::KeyX => 0x0,
        KeyCode::KeyC => 0xB,
        KeyCode::KeyV => 0xF,
        KeyCode::Other => {
            return None;
        },
    };
    Some(key)
}

/// One tick of input polling: `keys` are the keys that went down since the
/// last tick. The first of them that stands for a keypad key becomes the
/// pressed key; if none does, no key is pressed.
pub fn update_keyboard_keys_system(keys: &[KeyCode], keyboard: &mut Keyboard)
    ensures
        final(keyboard)@ == first_keypad_key(keys@),
{
    let mut seen: usize = 0;
    assert(keys@.skip(0) == keys@);
    while seen < keys.len()
        invariant
            seen <= keys.len(),
            first_keypad_key(keys@) == first_keypad_key(keys@.skip(seen as int)),
        decreases keys.len() - seen,
    {
        let ghost rest = keys@.skip(seen as int);
        assert(rest.drop_first() == keys@.skip(seen + 1));
        match get_key_from_keycode(&keys[seen]) {
            Some(key) => {
                keyboard.set_key(Some(key));
                return ;
            },
            None => {},
        }
        seen += 1;
    }
    keyboard.set_key(None);
}

/// The keypad as the engine sees it: the key that is pressed now, if one is.
#[derive(Debug)]
pub struct Keyboard {
    pressed_key: Option<u8>,
}

impl View for Keyboard {
    type V = Option<u8>;

    closed spec fn view(&self) -> Option<u8> {
        self.pressed_key
    }
}

impl Keyboard {
    /// A keypad with no key pressed.
    pub fn new() -> (keyboard: Self)
        ensures
            keyboard@ is None,
    {
        Keyboard { pressed_key: None }
    }

    /// Records what the latest polling tick saw: the pressed key, or `None`
    /// for no key.
    pub fn set_key(&mut self, key: Option<u8>)
        ensures
            final(self)@ == key,
    {
        self.pressed_key = key;
    }

    /// Whether `key` is the key that is pressed now.
    pub fn is_key_pressed(&self, key: u8) -> (pressed: bool)
        ensures
            pressed == (self@ == Some(key)),
    {
        if let Some(pressed_key) = self.pressed_key {
            pressed_key == key
        } else {
            false
        }
    }

    /// One look of a caller that waits for a key press: the pressed key, which
    /// ends the wait, or `None` while no key is pressed and the wait goes on.
    pub fn wait_for_any_key_press(&self) -> (key: Option<u8>)
        ensures
            key == self@,
    {
        self.pressed_key
    }
}

} // verus!
