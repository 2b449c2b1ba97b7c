use bevy_egui::{LogicalKey, ModifierKeysState, Modifiers};

#[test]
fn focus_lost_clears_stuck_modifiers() {
    let mut state = ModifierKeysState::new(false);
    state.write_modifiers_keys_state(
        false,
        &vec![
            (LogicalKey::Shift, true),
            (LogicalKey::Control, true),
            (LogicalKey::Alt, true),
            (LogicalKey::Super, true),
        ],
    );
    assert!(state.shift && state.ctrl && state.alt && state.win);
    state.write_modifiers_keys_state(true, &vec![]);
    assert!(!state.shift && !state.ctrl && !state.alt && !state.win);
}

#[test]
fn key_events_toggle_their_flags() {
    let mut state = ModifierKeysState::new(false);
    state.write_modifiers_keys_state(
        false,
        &vec![
            (LogicalKey::Control, true),
            (LogicalKey::Character("a".to_string()), true),
            (LogicalKey::Meta, true),
            (LogicalKey::Control, false),
        ],
    );
    assert!(!state.ctrl && state.win && !state.shift && !state.alt);
}

#[test]
fn focus_lost_then_key_down_in_the_same_frame() {
    let mut state = ModifierKeysState::new(false);
    state.apply_key(&LogicalKey::Alt, true);
    state.write_modifiers_keys_state(true, &vec![(LogicalKey::Shift, true)]);
    assert!(state.shift && !state.alt);
}

#[test]
fn command_is_ctrl_off_apple_and_meta_on_apple() {
    let mut other = ModifierKeysState::new(false);
    other.ctrl = true;
    assert_eq!(
        other.to_egui_modifiers(),
        Modifiers { alt: false, ctrl: true, shift: false, mac_cmd: false, command: true }
    );
    let mut apple = ModifierKeysState::new(true);
    apple.ctrl = true;
    assert_eq!(
        apple.to_egui_modifiers(),
        Modifiers { alt: false, ctrl: true, shift: false, mac_cmd: false, command: false }
    );
    apple.win = true;
    assert_eq!(
        apple.to_egui_modifiers(),
        Modifiers { alt: false, ctrl: true, shift: false, mac_cmd: true, command: true }
    );
}

#[test]
fn text_input_gating() {
    let mut s = ModifierKeysState::new(false);
    assert!(s.text_input_is_allowed());
    s.shift = true;
    assert!(s.text_input_is_allowed());
    s.ctrl = true;
    assert!(!s.text_input_is_allowed());
    s.alt = true;
    assert!(s.text_input_is_allowed());
    s.win = true;
    assert!(!s.text_input_is_allowed());
    let mut m = ModifierKeysState::new(true);
    m.win = true;
    assert!(!m.text_input_is_allowed());
}
