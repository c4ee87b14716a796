//! Input events as the session sees them, and the key press that ends it.
use crossterm::event;
use vstd::prelude::*;

verus! {

/// The modifier bit that crossterm gives the Shift key.
pub const SHIFT: u8 = 1;

/// The modifier bit that crossterm gives the Control key.
pub const CONTROL: u8 = 2;

/// The modifier bits that crossterm's `KeyModifiers` knows.
pub const MODIFIER_BITS: u8 = 63;

/// The state bits that crossterm's `KeyEventState` knows.
pub const STATE_BITS: u8 = 9;

/// Which key was pressed: a character, or any other key.
#[derive(Debug, Clone, Copy, PartialEq, Eq, Structural)]
pub enum KeyCode {
    Char(char),
    /// A key that is no character; such keys are not told apart.
    Other,
}

/// Whether a key went down, repeated, or came up.
#[derive(Debug, Clone, Copy, PartialEq, Eq, Structural)]
pub enum KeyKind {
    Press,
    Repeat,
    Release,
}

/// A key event: the key, the modifiers held (as crossterm's bits), its kind,
/// and the keyboard state bits.
#[derive(Debug, Clone, Copy, PartialEq, Eq, Structural)]
pub struct KeyPress {
    pub code: KeyCode,
    pub modifiers: u8,
    pub kind: KeyKind,
    pub state: u8,
}

/// One event read from the terminal.
#[derive(Debug, Clone, Copy, PartialEq, Eq, Structural)]
pub enum InputEvent {
    Key(KeyPress),
    /// A mouse event, a resize, a change of focus or a paste.
    Other,
}

pub open spec fn is_ascii_upper(c: char) -> bool {
    65 <= c as u32 <= 90
}

pub open spec fn is_ascii_lower(c: char) -> bool {
    97 <= c as u32 <= 122
}

/// The modifiers of `k` once crossterm has normalised its case: Shift is
/// added for an upper-case letter.
pub open spec fn normal_modifiers(k: KeyPress) -> u8 {
    let m = k.modifiers & MODIFIER_BITS;
    match k.code {
        KeyCode::Char(c) => if is_ascii_upper(c) {
            m | SHIFT
        } else {
            m
        },
        KeyCode::Other => m,
    }
}

/// The key of `k` once crossterm has normalised its case, as a number: a
/// lower-case letter with Shift held counts as its upper-case letter; any
/// other key that is no character counts as -1.
pub open spec fn normal_code(k: KeyPress) -> int {
    match k.code {
        KeyCode::Char(c) => if is_ascii_lower(c) && k.modifiers & SHIFT != 0 {
            c as u32 - 32
        } else {
            c as u32 as int
        },
        KeyCode::Other => -1,
    }
}

/// When crossterm holds two key events equal.
pub open spec fn same_key(a: KeyPress, b: KeyPress) -> bool {
    &&& normal_code(a) == normal_code(b)
    &&& normal_modifiers(a) == normal_modifiers(b)
    &&& a.kind == b.kind
    &&& a.state & STATE_BITS == b.state & STATE_BITS
}

/// Relies on `PartialEq for crossterm::event::KeyEvent`: both events are
/// normalised (Shift added for an upper-case letter, a letter with Shift
/// upper-cased), then code, modifiers, kind and state are compared; the bits
/// are kept as `from_bits_truncate` keeps them. `KeyCode::Other` is handed
/// over as crossterm's `Null`.
#[verifier::external_body]
fn crossterm_keys_equal(a: &KeyPress, b: &KeyPress) -> (r: bool)
    ensures
        r == same_key(*a, *b),
{
    let key = |k: &KeyPress|
        event::KeyEvent::new_with_kind_and_state(
            match k.code {
                KeyCode::Char(c) => event::KeyCode::Char(c),
                KeyCode::Other => event::KeyCode::Null,
            },
            event::KeyModifiers::from_bits_truncate(k.modifiers),
            match k.kind {
                KeyKind::Press => event::KeyEventKind::Press,
                KeyKind::Repeat => event::KeyEventKind::Repeat,
                KeyKind::Release => event::KeyEventKind::Release,
            },
            event::KeyEventState::from_bits_truncate(k.state),
        );
    key(a) == key(b)
}

/// Control and `c`, pressed: the default key press that ends a session.
pub open spec fn control_c_spec() -> KeyPress {
    KeyPress { code: KeyCode::Char('c'), modifiers: CONTROL, kind: KeyKind::Press, state: 0 }
}

/// Control and `c`, pressed.
pub fn control_c() -> (k: KeyPress)
    ensures
        k == control_c_spec(),
{
    KeyPress { code: KeyCode::Char('c'), modifiers: CONTROL, kind: KeyKind::Press, state: 0 }
}

/// Whether `e` is the key press `quit`, as crossterm compares key events.
pub open spec fn ends_session(e: InputEvent, quit: KeyPress) -> bool {
    match e {
        InputEvent::Key(k) => same_key(k, quit),
        InputEvent::Other => false,
    }
}

/// Tells whether the event `e` is the key press `quit`.
pub fn is_quit(e: &InputEvent, quit: &KeyPress) -> (r: bool)
    ensures
        r == ends_session(*e, *quit),
{
    match e {
        InputEvent::Key(k) => crossterm_keys_equal(k, quit),
        InputEvent::Other => false,
    }
}

} // verus!
