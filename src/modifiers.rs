//! Modifier-key tracking, and the modifier bundle that UI contexts receive.
use vstd::prelude::*;

verus! {

/// The logical key of a keyboard event, as far as this library reads it.
#[derive(Clone, Debug, PartialEq, Eq)]
pub enum LogicalKey {
    Shift,
    Control,
    Alt,
    Super,
    Meta,
    Space,
    /// A key that produces these characters.
    Character(String),
    /// Any other key.
    Other,
}

/// The modifier bundle handed to a UI context.
#[derive(Clone, Copy, Debug, PartialEq, Eq, Structural)]
pub struct Modifiers {
    pub alt: bool,
    pub ctrl: bool,
    pub shift: bool,
    /// The Command key of Apple platforms.
    pub mac_cmd: bool,
    /// The platform's primary accelerator: Command on Apple platforms,
    /// Control elsewhere.
    pub command: bool,
}

/// The "pressed" state of the modifier keys.
#[derive(Clone, Copy, Debug)]
pub struct ModifierKeysState {
    /// Whether the Shift key is pressed.
    pub shift: bool,
    /// Whether the Control key is pressed.
    pub ctrl: bool,
    /// Whether the Alt key is pressed.
    pub alt: bool,
    /// Whether the Super (or Meta) key is pressed.
    pub win: bool,
    /// Whether the platform's primary accelerator is the Command key (Apple
    /// platforms).
    pub is_macos: bool,
}

/// The state after one key event: a modifier key's flag follows the event,
/// other keys change nothing.
pub open spec fn key_applied(s: ModifierKeysState, key: LogicalKey, pressed: bool) -> ModifierKeysState {
    match key {
        LogicalKey::Shift => ModifierKeysState { shift: pressed, ..s },
        LogicalKey::Control => ModifierKeysState { ctrl: pressed, ..s },
        LogicalKey::Alt => ModifierKeysState { alt: pressed, ..s },
        LogicalKey::Super | LogicalKey::Meta => ModifierKeysState { win: pressed, ..s },
        _ => s,
    }
}

/// The state after the key events of `keys`, in order.
pub open spec fn keys_applied(s: ModifierKeysState, keys: Seq<(LogicalKey, bool)>) -> ModifierKeysState
    decreases keys.len(),
{
    if keys.len() == 0 {
        s
    } else {
        let last = keys.last();
        key_applied(keys_applied(s, keys.drop_last()), last.0, last.1)
    }
}

/// The state with every modifier flag cleared.
pub open spec fn cleared(s: ModifierKeysState) -> ModifierKeysState {
    ModifierKeysState { shift: false, ctrl: false, alt: false, win: false, ..s }
}

/// The state after one frame: a lost focus clears the flags first, then the
/// frame's key events apply.
pub open spec fn frame_applied(
    s: ModifierKeysState,
    focus_lost: bool,
    keys: Seq<(LogicalKey, bool)>,
) -> ModifierKeysState {
    keys_applied(if focus_lost { cleared(s) } else { s }, keys)
}

/// Whether a key event presses a modifier key.
pub open spec fn presses_modifier(key: LogicalKey, pressed: bool) -> bool {
    pressed && match key {
        LogicalKey::Shift | LogicalKey::Control | LogicalKey::Alt | LogicalKey::Super | LogicalKey::Meta => true,
        _ => false,
    }
}

/// Key events that press no modifier leave cleared flags cleared.
proof fn lemma_no_press_keeps_cleared(s: ModifierKeysState, keys: Seq<(LogicalKey, bool)>)
    requires
        !s.shift && !s.ctrl && !s.alt && !s.win,
        forall|i: int| 0 <= i < keys.len() ==> !presses_modifier(#[trigger] keys[i].0, keys[i].1),
    ensures
        ({
            let t = keys_applied(s, keys);
            !t.shift && !t.ctrl && !t.alt && !t.win
        }),
    decreases keys.len(),
{
    if keys.len() > 0 {
        let rest = keys.drop_last();
        assert forall|i: int| 0 <= i < rest.len() implies !presses_modifier(#[trigger] rest[i].0, rest[i].1) by {
            assert(rest[i] == keys[i]);
        }
        lemma_no_press_keeps_cleared(s, rest);
        assert(!presses_modifier(keys[keys.len() - 1].0, keys[keys.len() - 1].1));
    }
}

/// Once focus is lost, all four modifier flags read false at the end of the
/// frame, with no key-up event needed, unless a key event of that frame
/// pressed a modifier again.
pub proof fn focus_lost_clears_modifiers(s: ModifierKeysState, keys: Seq<(LogicalKey, bool)>)
    requires
        forall|i: int| 0 <= i < keys.len() ==> !presses_modifier(#[trigger] keys[i].0, keys[i].1),
    ensures
        !frame_applied(s, true, keys).shift,
        !frame_applied(s, true, keys).ctrl,
        !frame_applied(s, true, keys).alt,
        !frame_applied(s, true, keys).win,
{
    lemma_no_press_keeps_cleared(cleared(s), keys);
}

impl ModifierKeysState {
    /// The bundle that the flags give on this state's platform.
    pub open spec fn bundle(&self) -> Modifiers {
        Modifiers {
            alt: self.alt,
            ctrl: self.ctrl,
            shift: self.shift,
            mac_cmd: self.is_macos && self.win,
            command: if self.is_macos { self.win } else { self.ctrl },
        }
    }

    /// No key pressed, on a platform whose primary accelerator is the Command
    /// key where `is_macos` holds.
    pub fn new(is_macos: bool) -> (r: ModifierKeysState)
        ensures
            !r.shift && !r.ctrl && !r.alt && !r.win,
            r.is_macos == is_macos,
    {
        ModifierKeysState { shift: false, ctrl: false, alt: false, win: false, is_macos }
    }

    /// The modifier bundle of this state.
    pub fn to_egui_modifiers(&self) -> (r: Modifiers)
        ensures
            r == self.bundle(),
    {
        Modifiers {
            alt: self.alt,
            ctrl: self.ctrl,
            shift: self.shift,
            mac_cmd: if self.is_macos {
                self.win
            } else {
                false
            },
            command: if self.is_macos {
                self.win
            } else {
                self.ctrl
            },
        }
    }

    /// Whether plain characters may pass as text: not while Meta is held, nor
    /// while Control is held without Alt (Control with Alt is AltGr, which
    /// types characters).
    pub fn text_input_is_allowed(&self) -> (r: bool)
        ensures
            r == (!self.win && (!self.ctrl || self.alt)),
    {
        !self.win && (!self.ctrl || self.alt)
    }

    /// Clears the four modifier flags.
    pub fn reset(&mut self)
        ensures
            *final(self) == cleared(*old(self)),
    {
        self.shift = false;
        self.ctrl = false;
        self.alt = false;
        self.win = false;
    }

    /// Applies one key event.
    pub fn apply_key(&mut self, key: &LogicalKey, pressed: bool)
        ensures
            *final(self) == key_applied(*old(self), *key, pressed),
    {
        match key {
            LogicalKey::Shift => self.shift = pressed,
            LogicalKey::Control => self.ctrl = pressed,
            LogicalKey::Alt => self.alt = pressed,
            LogicalKey::Super | LogicalKey::Meta => self.win = pressed,
            _ => {},
        }
    }

    /// Applies one frame: where focus was lost, clears the flags, then applies
    /// the frame's key events in order.
    pub fn write_modifiers_keys_state(&mut self, focus_lost: bool, keys: &Vec<(LogicalKey, bool)>)
        ensures
            *final(self) == frame_applied(*old(self), focus_lost, keys@),
    {
        if focus_lost {
            self.reset();
        }
        let ghost start = *self;
        let mut i: usize = 0;
        while i < keys.len()
            invariant
                i <= keys.len(),
                start == (if focus_lost { cleared(*old(self)) } else { *old(self) }),
                *self == keys_applied(start, keys@.take(i as int)),
            decreases keys.len() - i,
        {
            let (key, pressed) = &keys[i];
            self.apply_key(key, *pressed);
            proof {
                assert(keys@.take(i + 1).drop_last() =~= keys@.take(i as int));
            }
            i = i + 1;
        }
        proof {
            assert(keys@.take(i as int) =~= keys@);
        }
    }
}

} // verus!
