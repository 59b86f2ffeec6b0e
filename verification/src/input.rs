//! The keyboard as the game sees it: which keys are down, which went down
//! or up since the last tick, and the text that was typed.

use vstd::prelude::*;
use std::collections::HashMap;

verus! {

broadcast use vstd::std_specs::hash::group_hash_axioms;

/// A key of the keyboard. The keys that the game knows have a name; any
/// other key is told apart by the number the windowing layer gives it.
#[derive(Copy, Clone, PartialEq, Eq, Structural, Debug, Hash)]
pub enum VirtualKeyCode {
    A,
    B,
    C,
    D,
    E,
    F,
    G,
    H,
    I,
    J,
    K,
    L,
    M,
    N,
    O,
    P,
    Q,
    R,
    S,
    T,
    U,
    V,
    W,
    X,
    Y,
    Z,
    Space,
    Period,
    Comma,
    Back,
    Left,
    Right,
    Other(u32),
}

/// Whether a key went down or up.
#[derive(Copy, Clone, PartialEq, Eq, Structural, Debug)]
pub enum ElementState {
    Pressed,
    Released,
}

impl VirtualKeyCode {
    /// The key as a number: the letters from 0 in the order of the
    /// alphabet, the other named keys after them, and the rest after
    /// those.
    pub open spec fn spec_code(self) -> u64 {
        match self {
            VirtualKeyCode::A => 0,
            VirtualKeyCode::B => 1,
            VirtualKeyCode::C => 2,
            VirtualKeyCode::D => 3,
            VirtualKeyCode::E => 4,
            VirtualKeyCode::F => 5,
            VirtualKeyCode::G => 6,
            VirtualKeyCode::H => 7,
            VirtualKeyCode::I => 8,
            VirtualKeyCode::J => 9,
            VirtualKeyCode::K => 10,
            VirtualKeyCode::L => 11,
            VirtualKeyCode::M => 12,
            VirtualKeyCode::N => 13,
            VirtualKeyCode::O => 14,
            VirtualKeyCode::P => 15,
            VirtualKeyCode::Q => 16,
            VirtualKeyCode::R => 17,
            VirtualKeyCode::S => 18,
            VirtualKeyCode::T => 19,
            VirtualKeyCode::U => 20,
            VirtualKeyCode::V => 21,
            VirtualKeyCode::W => 22,
            VirtualKeyCode::X => 23,
            VirtualKeyCode::Y => 24,
            VirtualKeyCode::Z => 25,
            VirtualKeyCode::Space => 26,
            VirtualKeyCode::Period => 27,
            VirtualKeyCode::Comma => 28,
            VirtualKeyCode::Back => 29,
            VirtualKeyCode::Left => 30,
            VirtualKeyCode::Right => 31,
            VirtualKeyCode::Other(n) => (32 + n) as u64,
        }
    }

    /// Computes [`VirtualKeyCode::spec_code`].
    pub fn code(self) -> (code: u64)
        ensures
            code == self.spec_code(),
    {
        match self {
            VirtualKeyCode::A => 0,
            VirtualKeyCode::B => 1,
            VirtualKeyCode::C => 2,
            VirtualKeyCode::D => 3,
            VirtualKeyCode::E => 4,
            VirtualKeyCode::F => 5,
            VirtualKeyCode::G => 6,
            VirtualKeyCode::H => 7,
            VirtualKeyCode::I => 8,
            VirtualKeyCode::J => 9,
            VirtualKeyCode::K => 10,
            VirtualKeyCode::L => 11,
            VirtualKeyCode::M => 12,
            VirtualKeyCode::N => 13,
            VirtualKeyCode::O => 14,
            VirtualKeyCode::P => 15,
            VirtualKeyCode::Q => 16,
            VirtualKeyCode::R => 17,
            VirtualKeyCode::S => 18,
            VirtualKeyCode::T => 19,
            VirtualKeyCode::U => 20,
            VirtualKeyCode::V => 21,
            VirtualKeyCode::W => 22,
            VirtualKeyCode::X => 23,
            VirtualKeyCode::Y => 24,
            VirtualKeyCode::Z => 25,
            VirtualKeyCode::Space => 26,
            VirtualKeyCode::Period => 27,
            VirtualKeyCode::Comma => 28,
            VirtualKeyCode::Back => 29,
            VirtualKeyCode::Left => 30,
            VirtualKeyCode::Right => 31,
            VirtualKeyCode::Other(n) => 32 + n as u64,
        }
    }

    /// Two keys with the same number are the same key.
    pub proof fn lemma_code_injective(a: VirtualKeyCode, b: VirtualKeyCode)
        requires
            a.spec_code() == b.spec_code(),
        ensures
            a == b,
    {
    }
}

/// The character that a key types: a letter key its letter, in upper case
/// with shift; space, period and comma their sign; any other key nothing.
pub open spec fn spec_keycode_to_char(keycode: VirtualKeyCode, is_upper: bool) -> Option<char> {
    if keycode.spec_code() < 26 {
        if is_upper {
            Some(((0x41 + keycode.spec_code()) as u8) as char)
        } else {
            Some(((0x61 + keycode.spec_code()) as u8) as char)
        }
    } else if keycode == VirtualKeyCode::Space {
        Some(' ')
    } else if keycode == VirtualKeyCode::Period {
        Some('.')
    } else if keycode == VirtualKeyCode::Comma {
        Some(',')
    } else {
        None
    }
}

/// Computes [`spec_keycode_to_char`].
pub fn keycode_to_char(keycode: VirtualKeyCode, is_upper: bool) -> (character: Option<char>)
    ensures
        character == spec_keycode_to_char(keycode, is_upper),
{
    let code = keycode.code();
    if code < 26 {
        let base: u8 = if is_upper {
            0x41
        } else {
            0x61
        };
        Some((base + code as u8) as char)
    } else {
        match keycode {
            VirtualKeyCode::Space => Some(' '),
            VirtualKeyCode::Period => Some('.'),
            VirtualKeyCode::Comma => Some(','),
            _ => None,
        }
    }
}

/// The state of the keyboard.
#[derive(Debug)]
pub struct InputState {
    current_keys: HashMap<u64, bool>,
    pressed_keys: HashMap<u64, bool>,
    released_keys: HashMap<u64, bool>,
    input_string: Vec<char>,
}

/// Whether `keys` marks the key with number `code`.
pub open spec fn marked(keys: Map<u64, bool>, code: u64) -> bool {
    keys.contains_key(code) && keys[code]
}

impl InputState {
    /// Whether the key is down.
    pub closed spec fn held(&self, keycode: VirtualKeyCode) -> bool {
        marked(self.current_keys@, keycode.spec_code())
    }

    /// Whether the key went down since the flags were last cleared.
    pub closed spec fn pressed(&self, keycode: VirtualKeyCode) -> bool {
        marked(self.pressed_keys@, keycode.spec_code())
    }

    /// Whether the key went up since the flags were last cleared.
    pub closed spec fn released(&self, keycode: VirtualKeyCode) -> bool {
        marked(self.released_keys@, keycode.spec_code())
    }

    /// The text typed so far.
    pub closed spec fn text(&self) -> Seq<char> {
        self.input_string@
    }

    /// A keyboard with no key down and nothing typed.
    pub fn new() -> (state: InputState)
        ensures
            forall|k: VirtualKeyCode| !state.held(k) && !state.pressed(k) && !state.released(k),
            state.text() == Seq::<char>::empty(),
    {
        InputState {
            current_keys: HashMap::new(),
            pressed_keys: HashMap::new(),
            released_keys: HashMap::new(),
            input_string: Vec::new(),
        }
    }

    /// Forgets which keys went down or up; the keys that are down stay
    /// down.
    pub fn clear_pressed_and_released(&mut self)
        ensures
            forall|k: VirtualKeyCode| !final(self).pressed(k) && !final(self).released(k),
            forall|k: VirtualKeyCode| final(self).held(k) == old(self).held(k),
            final(self).text() == old(self).text(),
    {
        self.pressed_keys.clear();
        self.released_keys.clear();
    }

    /// Forgets the typed text.
    pub fn clear_input_string(&mut self)
        ensures
            final(self).text() == Seq::<char>::empty(),
            forall|k: VirtualKeyCode|
                final(self).held(k) == old(self).held(k) && final(self).pressed(k) == old(
                    self,
                ).pressed(k) && final(self).released(k) == old(self).released(k),
    {
        self.input_string = Vec::new();
    }

    /// The text after a key went down: backspace takes the last character
    /// away, and a key that types a character adds it.
    pub open spec fn typed(text: Seq<char>, keycode: VirtualKeyCode, shift: bool) -> Seq<char> {
        let erased = if keycode == VirtualKeyCode::Back && text.len() > 0 {
            text.drop_last()
        } else {
            text
        };
        match spec_keycode_to_char(keycode, shift) {
            Some(c) => erased.push(c),
            None => erased,
        }
    }

    /// Takes in that a key went down or up. A key that goes down is held
    /// from now on, counts as pressed if it was not held already, and
    /// types. A key that goes up is no longer held and counts as released.
    pub fn process_input(&mut self, keycode: VirtualKeyCode, state: ElementState, shift: bool)
        ensures
            forall|k: VirtualKeyCode|
                final(self).held(k) == (if k == keycode {
                    state == ElementState::Pressed
                } else {
                    old(self).held(k)
                }),
            forall|k: VirtualKeyCode|
                final(self).pressed(k) == (old(self).pressed(k) || (k == keycode && state
                    == ElementState::Pressed && !old(self).held(keycode))),
            forall|k: VirtualKeyCode|
                final(self).released(k) == (old(self).released(k) || (k == keycode && state
                    == ElementState::Released)),
            final(self).text() == (if state == ElementState::Pressed {
                Self::typed(old(self).text(), keycode, shift)
            } else {
                old(self).text()
            }),
    {
        let code = keycode.code();
        proof {
            assert forall|k: VirtualKeyCode| k != keycode implies k.spec_code() != code by {
                if k.spec_code() == code {
                    VirtualKeyCode::lemma_code_injective(k, keycode);
                }
            }
        }
        match state {
            ElementState::Pressed => {
                if !self.is_key_held(keycode) {
                    self.pressed_keys.insert(code, true);
                }
                self.current_keys.insert(code, true);

                if keycode == VirtualKeyCode::Back {
                    self.input_string.pop();
                }
                if let Some(key_char) = keycode_to_char(keycode, shift) {
                    self.input_string.push(key_char);
                }
            },
            ElementState::Released => {
                self.released_keys.insert(code, true);
                self.current_keys.insert(code, false);
            },
        }
    }

    /// Whether the key went down since the flags were last cleared.
    pub fn is_key_pressed(&self, keycode: VirtualKeyCode) -> (pressed: bool)
        ensures
            pressed == self.pressed(keycode),
    {
        match self.pressed_keys.get(&keycode.code()) {
            Some(flag) => *flag,
            None => false,
        }
    }

    /// Whether the key went up since the flags were last cleared.
    pub fn is_key_released(&self, keycode: VirtualKeyCode) -> (released: bool)
        ensures
            released == self.released(keycode),
    {
        match self.released_keys.get(&keycode.code()) {
            Some(flag) => *flag,
            None => false,
        }
    }

    /// Whether the key is down.
    pub fn is_key_held(&self, keycode: VirtualKeyCode) -> (held: bool)
        ensures
            held == self.held(keycode),
    {
        match self.current_keys.get(&keycode.code()) {
            Some(flag) => *flag,
            None => false,
        }
    }

    /// The text typed so far.
    pub fn input_string(&self) -> (text: &Vec<char>)
        ensures
            text@ == self.text(),
    {
        &self.input_string
    }
}

} // verus!
