use vstd::prelude::*;

verus! {

/// What the host tells the interpreter's main loop about. A key is named
/// by its key code, the character code of the unshifted key.
#[derive(Clone, Copy, Debug, PartialEq, Eq, Structural)]
pub enum HostEvent {
    /// The window was closed.
    Quit,
    /// The window has a new size.
    Resized,
    /// A key went down.
    KeyDown { keycode: i32 },
    /// Anything else.
    Other,
}

/// What the main loop does about an event.
#[derive(Clone, Copy, Debug, PartialEq, Eq, Structural)]
pub enum HostAction {
    /// Leave the loop.
    Stop,
    /// Paint the screen again.
    Render,
    /// Go on.
    Continue,
}

/// Key code of the escape key.
pub const KEY_ESCAPE: i32 = 27;

/// Key code of the key `p`.
pub const KEY_P: i32 = 112;

/// The byte that stands for a key held down.
pub const KEY_DOWN: u8 = 255;

/// The keypad key that a key of the host stands for. The four by four
/// block from `1` to `v` is laid over the keypad
/// `1 2 3 C / 4 5 6 D / 7 8 9 E / A 0 B F`.
pub open spec fn keypad_of(keycode: i32) -> Option<u8> {
    if keycode == 49 {
        Some(0x1u8)
    } else if keycode == 50 {
        Some(0x2u8)
    } else if keycode == 51 {
        Some(0x3u8)
    } else if keycode == 52 {
        Some(0xCu8)
    } else if keycode == 113 {
        Some(0x4u8)
    } else if keycode == 119 {
        Some(0x5u8)
    } else if keycode == 101 {
        Some(0x6u8)
    } else if keycode == 114 {
        Some(0xDu8)
    } else if keycode == 97 {
        Some(0x7u8)
    } else if keycode == 115 {
        Some(0x8u8)
    } else if keycode == 100 {
        Some(0x9u8)
    } else if keycode == 102 {
        Some(0xEu8)
    } else if keycode == 122 {
        Some(0xAu8)
    } else if keycode == 120 {
        Some(0x0u8)
    } else if keycode == 99 {
        Some(0xBu8)
    } else if keycode == 118 {
        Some(0xFu8)
    } else {
        None
    }
}

/// What the main loop does about `event`.
pub open spec fn action_of(event: HostEvent) -> HostAction {
    match event {
        HostEvent::Quit => HostAction::Stop,
        HostEvent::Resized => HostAction::Render,
        HostEvent::KeyDown { keycode } => if keycode == KEY_ESCAPE {
            HostAction::Stop
        } else if keycode == KEY_P {
            HostAction::Render
        } else {
            HostAction::Continue
        },
        HostEvent::Other => HostAction::Continue,
    }
}

/// The keypad bytes after `event`: a key of the keypad that went down is
/// marked, nothing else changes.
pub open spec fn keys_after(keys: Seq<u8>, event: HostEvent) -> Seq<u8> {
    match event {
        HostEvent::KeyDown { keycode } => match keypad_of(keycode) {
            Some(key) => keys.update(key as int, KEY_DOWN),
            None => keys,
        },
        _ => keys,
    }
}

/// The keypad key that a key of the host stands for, if it stands for one.
pub fn keypad_key(keycode: i32) -> (key: Option<u8>)
    ensures
        key == keypad_of(keycode),
        key matches Some(k) ==> k < 16,
{
    match keycode {
        49 => Some(0x1),
        50 => Some(0x2),
        51 => Some(0x3),
        52 => Some(0xC),
        113 => Some(0x4),
        119 => Some(0x5),
        101 => Some(0x6),
        114 => Some(0xD),
        97 => Some(0x7),
        115 => Some(0x8),
        100 => Some(0x9),
        102 => Some(0xE),
        122 => Some(0xA),
        120 => Some(0x0),
        99 => Some(0xB),
        118 => Some(0xF),
        _ => None,
    }
}

/// Takes one event of the host: marks the keypad key that went down in
/// `keys`, and says what the main loop does next.
pub fn handle_event(event: HostEvent, keys: &mut [u8; 16]) -> (action: HostAction)
    ensures
        action == action_of(event),
        final(keys)@ == keys_after(old(keys)@, event),
{
    match event {
        HostEvent::Quit => HostAction::Stop,
        HostEvent::Resized => HostAction::Render,
        HostEvent::KeyDown { keycode } => {
            if keycode == KEY_ESCAPE {
                HostAction::Stop
            } else if keycode == KEY_P {
                HostAction::Render
            } else {
                match keypad_key(keycode) {
                    Some(key) => {
                        keys[key as usize] = KEY_DOWN;
                    },
                    None => {},
                }
                HostAction::Continue
            }
        },
        HostEvent::Other => HostAction::Continue,
    }
}

/// The key of the host that stands for a key of the keypad.
pub open spec fn host_key_of(key: u8) -> i32 {
    if key == 0x0 {
        120
    } else if key == 0x1 {
        49
    } else if key == 0x2 {
        50
    } else if key == 0x3 {
        51
    } else if key == 0x4 {
        113
    } else if key == 0x5 {
        119
    } else if key == 0x6 {
        101
    } else if key == 0x7 {
        97
    } else if key == 0x8 {
        115
    } else if key == 0x9 {
        100
    } else if key == 0xA {
        122
    } else if key == 0xB {
        99
    } else if key == 0xC {
        52
    } else if key == 0xD {
        114
    } else if key == 0xE {
        102
    } else {
        118
    }
}

/// Every key of the keypad has exactly one key of the host: the two
/// tables undo each other.
pub proof fn lemma_keypad_is_one_to_one()
    ensures
        forall|key: u8| key < 16 ==> keypad_of(#[trigger] host_key_of(key)) == Some(key),
        forall|keycode: i32|
            (#[trigger] keypad_of(keycode)) matches Some(key) ==> key < 16 && host_key_of(key)
                == keycode,
{
}

} // verus!
