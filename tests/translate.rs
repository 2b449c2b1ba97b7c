use bevy_egui::{
    needs_clipboard, pointer_button, write_ime_events, write_keyboard_input_events,
    write_mouse_wheel_events, write_non_window_pointer_moved_events, write_non_window_touch_events,
    write_pointer_button_events, write_touch_event, write_window_pointer_moved_events,
    write_window_touch_events, ClipboardShortcut, ContextTable, EguiContextImeState,
    EguiContextPointerPosition, EguiContextPointerTouchId, EguiContextSettings, EguiContextState,
    EguiEvent, EguiInputEvent, EguiInputSystemSettings, FocusedNonWindowEguiContext,
    HoveredNonWindowEguiContext, ImeEvent, KeyboardInput, LogicalKey, ModifierKeysState, Modifiers,
    MouseButton, MouseButtonInput, MouseWheel, MouseWheelUnit, PointerButton, TouchInput,
    TouchPhase,
};

type P = (i32, i32);
type Ev = EguiInputEvent<P, u32, u8>;

fn no_mods() -> Modifiers {
    Modifiers { alt: false, ctrl: false, shift: false, mac_cmd: false, command: false }
}

fn record(id: u64) -> EguiContextState<P> {
    EguiContextState {
        id,
        settings: EguiContextSettings {
            run_manually: false,
            input_system_settings: EguiInputSystemSettings::all_enabled(),
        },
        pointer_position: EguiContextPointerPosition { position: (0, 0) },
        pointer_touch_id: EguiContextPointerTouchId { pointer_touch_id: None },
        ime_state: EguiContextImeState { has_sent_ime_enabled: false, is_ime_allowed: false },
    }
}

fn touch(id: u64, phase: TouchPhase, position: P) -> TouchInput<P, u8> {
    TouchInput { window: 1, id, phase, position, force: None }
}

fn is_moved(e: &Ev, p: P) -> bool {
    matches!(e.event, EguiEvent::PointerMoved(q) if q == p)
}

fn is_primary(e: &Ev, p: P, down: bool) -> bool {
    matches!(e.event, EguiEvent::PointerButton { pos, button: PointerButton::Primary, pressed, .. } if pos == p && pressed == down)
}

fn pointer_only(out: &[Ev]) -> Vec<&Ev> {
    out.iter().filter(|e| !matches!(e.event, EguiEvent::Touch { .. })).collect()
}

#[test]
fn touch_start_then_end_emulates_a_click() {
    let mut out: Vec<Ev> = Vec::new();
    let mut active = EguiContextPointerTouchId { pointer_touch_id: None };
    write_touch_event(&mut out, &touch(4, TouchPhase::Start, (5, 6)), 9, (5, 6), no_mods(), &mut active);
    assert_eq!(active.pointer_touch_id, Some(4));
    write_touch_event(&mut out, &touch(4, TouchPhase::End, (5, 6)), 9, (5, 6), no_mods(), &mut active);
    assert_eq!(active.pointer_touch_id, None);
    let p = pointer_only(&out);
    assert_eq!(p.len(), 4);
    assert!(is_moved(p[0], (5, 6)));
    assert!(is_primary(p[1], (5, 6), true));
    assert!(is_primary(p[2], (5, 6), false));
    assert!(matches!(p[3].event, EguiEvent::PointerGone));
    assert_eq!(out.len(), 6);
    assert!(out.iter().all(|e| e.context == 9));
}

#[test]
fn touch_start_then_cancel_leaves_without_release() {
    let mut out: Vec<Ev> = Vec::new();
    let mut active = EguiContextPointerTouchId { pointer_touch_id: None };
    write_touch_event(&mut out, &touch(4, TouchPhase::Start, (1, 2)), 9, (1, 2), no_mods(), &mut active);
    write_touch_event(&mut out, &touch(4, TouchPhase::Cancel, (1, 2)), 9, (1, 2), no_mods(), &mut active);
    let p = pointer_only(&out);
    assert_eq!(p.len(), 3);
    assert!(is_moved(p[0], (1, 2)));
    assert!(is_primary(p[1], (1, 2), true));
    assert!(matches!(p[2].event, EguiEvent::PointerGone));
    assert_eq!(active.pointer_touch_id, None);
}

#[test]
fn a_second_touch_only_passes_through() {
    let mut out: Vec<Ev> = Vec::new();
    let mut active = EguiContextPointerTouchId { pointer_touch_id: Some(1) };
    write_touch_event(&mut out, &touch(2, TouchPhase::Start, (3, 3)), 9, (3, 3), no_mods(), &mut active);
    assert_eq!(out.len(), 1);
    assert!(matches!(out[0].event, EguiEvent::Touch { id: 2, phase: TouchPhase::Start, pos: (3, 3), .. }));
    assert_eq!(active.pointer_touch_id, Some(1));
}

#[test]
fn window_touch_start_moves_focus_to_the_hovered_context() {
    let mut table = ContextTable { records: vec![record(10)] };
    let mut focused = None;
    let mut out: Vec<Ev> = Vec::new();
    let pairs = vec![(10u64, touch(1, TouchPhase::Start, (2, 2)))];
    write_window_touch_events(&mut table, &mut focused, Some(HoveredNonWindowEguiContext(77)), true, no_mods(), &pairs, &mut out);
    assert_eq!(focused, Some(FocusedNonWindowEguiContext(77)));
    assert!(out.is_empty());

    let mut focused = Some(FocusedNonWindowEguiContext(77));
    write_window_touch_events(&mut table, &mut focused, None, true, no_mods(), &pairs, &mut out);
    assert_eq!(focused, None);
    assert_eq!(out.len(), 3);
    assert_eq!(table.records[0].pointer_position.position, (2, 2));
    assert_eq!(table.records[0].pointer_touch_id.pointer_touch_id, Some(1));
}

#[test]
fn non_window_touch_goes_to_the_focused_context_at_its_pointer() {
    let mut rec = record(5);
    rec.pointer_position.position = (8, 9);
    let mut table = ContextTable { records: vec![rec] };
    let mut out: Vec<Ev> = Vec::new();
    let touches = vec![touch(3, TouchPhase::Start, (100, 100))];
    write_non_window_touch_events(&mut table, Some(FocusedNonWindowEguiContext(5)), no_mods(), &touches, &mut out);
    assert_eq!(out.len(), 3);
    assert!(is_moved(&out[1], (8, 9)));
    write_non_window_touch_events(&mut table, None, no_mods(), &touches, &mut out);
    assert_eq!(out.len(), 3);
}

#[test]
fn pointer_moves_update_the_context_and_skip_unknown_ones() {
    let mut table = ContextTable { records: vec![record(1), record(2)] };
    let mut out: Vec<Ev> = Vec::new();
    write_window_pointer_moved_events(&mut table, &vec![(2, (4, 4)), (3, (5, 5)), (1, (6, 7))], &mut out);
    assert_eq!(out.len(), 2);
    assert!(out[0].context == 2 && is_moved(&out[0], (4, 4)));
    assert!(out[1].context == 1 && is_moved(&out[1], (6, 7)));
    assert_eq!(table.records[0].pointer_position.position, (6, 7));
    assert_eq!(table.records[1].pointer_position.position, (4, 4));
}

#[test]
fn disabled_translator_writes_nothing() {
    let mut rec = record(1);
    rec.settings.input_system_settings.run_write_window_pointer_moved_events_system = false;
    let mut table = ContextTable { records: vec![rec] };
    let mut out: Vec<Ev> = Vec::new();
    write_window_pointer_moved_events(&mut table, &vec![(1, (4, 4))], &mut out);
    assert!(out.is_empty());
    assert_eq!(table.records[0].pointer_position.position, (0, 0));
}

#[test]
fn buttons_map_and_primary_press_moves_focus() {
    assert_eq!(pointer_button(MouseButton::Left), Some(PointerButton::Primary));
    assert_eq!(pointer_button(MouseButton::Right), Some(PointerButton::Secondary));
    assert_eq!(pointer_button(MouseButton::Middle), Some(PointerButton::Middle));
    assert_eq!(pointer_button(MouseButton::Back), Some(PointerButton::Extra1));
    assert_eq!(pointer_button(MouseButton::Forward), Some(PointerButton::Extra2));
    assert_eq!(pointer_button(MouseButton::Other(9)), None);

    let mut rec = record(1);
    rec.pointer_position.position = (3, 4);
    let table = ContextTable { records: vec![rec] };
    let mut focused = Some(FocusedNonWindowEguiContext(8));
    let mut out: Vec<Ev> = Vec::new();
    let right = MouseButtonInput { window: 1, button: MouseButton::Right, pressed: true };
    write_pointer_button_events(&table, &mut focused, None, true, no_mods(), &vec![(1, right)], &mut out);
    assert_eq!(focused, Some(FocusedNonWindowEguiContext(8)));
    let left = MouseButtonInput { window: 1, button: MouseButton::Left, pressed: true };
    write_pointer_button_events(&table, &mut focused, Some(HoveredNonWindowEguiContext(2)), true, no_mods(), &vec![(1, left)], &mut out);
    assert_eq!(focused, Some(FocusedNonWindowEguiContext(2)));
    write_pointer_button_events(&table, &mut focused, None, true, no_mods(), &vec![(1, left)], &mut out);
    assert_eq!(focused, None);
    assert_eq!(out.len(), 3);
    assert!(is_primary(&out[1], (3, 4), true));
}

#[test]
fn non_window_pointer_move_needs_a_move_and_a_hovered_context() {
    let mut rec = record(4);
    rec.pointer_position.position = (1, 1);
    let table = ContextTable { records: vec![rec] };
    let mut out: Vec<Ev> = Vec::new();
    write_non_window_pointer_moved_events(&table, Some(HoveredNonWindowEguiContext(4)), false, &mut out);
    assert!(out.is_empty());
    write_non_window_pointer_moved_events(&table, None, true, &mut out);
    assert!(out.is_empty());
    write_non_window_pointer_moved_events(&table, Some(HoveredNonWindowEguiContext(4)), true, &mut out);
    assert_eq!(out.len(), 1);
    assert!(is_moved(&out[0], (1, 1)));
}

#[test]
fn wheel_events_carry_unit_delta_and_modifiers() {
    let table = ContextTable { records: vec![record(1)] };
    let mut out: Vec<Ev> = Vec::new();
    let wheel = MouseWheel { window: 1, unit: MouseWheelUnit::Line, delta: (0, -3) };
    let mods = Modifiers { alt: false, ctrl: true, shift: false, mac_cmd: false, command: true };
    write_mouse_wheel_events(&table, mods, &vec![(1, wheel), (2, wheel)], &mut out);
    assert_eq!(out.len(), 1);
    assert!(matches!(out[0].event, EguiEvent::MouseWheel { unit: MouseWheelUnit::Line, delta: (0, -3), modifiers } if modifiers == mods));
}

fn key(logical: LogicalKey, k: Option<u32>, shortcut: ClipboardShortcut, pressed: bool) -> KeyboardInput<u32> {
    KeyboardInput { window: 1, logical_key: logical, key: k, physical_key: None, shortcut, pressed }
}

fn text_of(e: &Ev) -> Option<String> {
    match &e.event {
        EguiEvent::Text(s) => Some(s.clone()),
        _ => None,
    }
}

#[test]
fn keyboard_text_and_keys() {
    let table = ContextTable { records: vec![record(1)] };
    let state = ModifierKeysState::new(false);
    let mut out: Vec<Ev> = Vec::new();
    let pairs = vec![
        (1u64, key(LogicalKey::Character("é".to_string()), Some(30), ClipboardShortcut::NotAShortcut, true)),
        (1u64, key(LogicalKey::Space, Some(31), ClipboardShortcut::NotAShortcut, true)),
        (1u64, key(LogicalKey::Character("\u{7}".to_string()), None, ClipboardShortcut::NotAShortcut, true)),
        (1u64, key(LogicalKey::Character("x".to_string()), Some(32), ClipboardShortcut::NotAShortcut, false)),
    ];
    write_keyboard_input_events(&table, &state, &None, &pairs, &mut out);
    assert_eq!(out.len(), 5);
    assert_eq!(text_of(&out[0]), Some("é".to_string()));
    assert!(matches!(out[1].event, EguiEvent::Key { key: 30, pressed: true, repeat: false, .. }));
    assert_eq!(text_of(&out[2]), Some(" ".to_string()));
    assert!(matches!(out[3].event, EguiEvent::Key { key: 31, .. }));
    assert!(matches!(out[4].event, EguiEvent::Key { key: 32, pressed: false, .. }));
}

#[test]
fn keyboard_physical_key_is_the_fallback() {
    let table = ContextTable { records: vec![record(1)] };
    let state = ModifierKeysState::new(false);
    let mut out: Vec<Ev> = Vec::new();
    let input = KeyboardInput { window: 1, logical_key: LogicalKey::Other, key: None, physical_key: Some(12), shortcut: ClipboardShortcut::NotAShortcut, pressed: true };
    write_keyboard_input_events(&table, &state, &None, &vec![(1, input)], &mut out);
    assert_eq!(out.len(), 1);
    assert!(matches!(out[0].event, EguiEvent::Key { key: 12, physical_key: Some(12), .. }));
}

#[test]
fn keyboard_clipboard_shortcuts_with_command() {
    let table = ContextTable { records: vec![record(1)] };
    let mut state = ModifierKeysState::new(false);
    state.ctrl = true;
    let pairs = vec![
        (1u64, key(LogicalKey::Character("c".to_string()), Some(1), ClipboardShortcut::Copy, true)),
        (1u64, key(LogicalKey::Character("x".to_string()), Some(2), ClipboardShortcut::Cut, true)),
        (1u64, key(LogicalKey::Character("v".to_string()), Some(3), ClipboardShortcut::Paste, true)),
    ];
    assert!(needs_clipboard(&state, &pairs));
    let mut out: Vec<Ev> = Vec::new();
    write_keyboard_input_events(&table, &state, &Some("pasted".to_string()), &pairs, &mut out);
    assert_eq!(out.len(), 6);
    assert!(matches!(out[1].event, EguiEvent::Copy));
    assert!(matches!(out[3].event, EguiEvent::Cut));
    assert_eq!(text_of(&out[5]), Some("pasted".to_string()));
    let plain = ModifierKeysState::new(false);
    assert!(!needs_clipboard(&plain, &pairs));
}

#[test]
fn ime_enable_preedit_commit_disable() {
    let mut table = ContextTable { records: vec![record(1)] };
    let mut out: Vec<Ev> = Vec::new();
    let pairs = vec![
        (1u64, ImeEvent::Enabled),
        (1u64, ImeEvent::Enabled),
        (1u64, ImeEvent::Preedit("ka".to_string())),
        (1u64, ImeEvent::Commit("か".to_string())),
        (1u64, ImeEvent::Disabled),
    ];
    write_ime_events(&mut table, pairs, &mut out);
    let kinds: Vec<&ImeEvent> = out.iter().map(|e| match &e.event { EguiEvent::Ime(i) => i, _ => panic!("not an ime event") }).collect();
    assert_eq!(kinds, vec![&ImeEvent::Enabled, &ImeEvent::Preedit("ka".to_string()), &ImeEvent::Commit("か".to_string()), &ImeEvent::Disabled]);
    assert!(!table.records[0].ime_state.has_sent_ime_enabled);
}
