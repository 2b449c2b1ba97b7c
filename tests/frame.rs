use bevy_egui::{
    egui_wants_any_input, egui_wants_any_keyboard_input, egui_wants_any_pointer_input, plan_passes,
    write_egui_input, write_file_dnd_events, ContextPass, ContextTable, ContextWantsInput,
    DuplicateSchedule, EguiContextImeState, EguiContextPointerPosition, EguiContextPointerTouchId,
    EguiContextSettings, EguiContextState, EguiEvent, EguiFileDragAndDropEvent, EguiInput,
    EguiInputEvent, EguiInputSystemSettings, EguiMultipassSchedule, EguiUserTextures,
    EguiWantsInput, FileDragAndDrop, FocusedNonWindowEguiContext, Modifiers, PassContext,
    PassPhase, PassStep, TextureId, WindowFocus, WindowToEguiContextMap,
};

const PRIMARY: EguiMultipassSchedule = EguiMultipassSchedule(0);

fn ctx(context: u64, schedule: Option<u64>, primary: bool) -> PassContext {
    PassContext { context, run_manually: false, schedule: schedule.map(EguiMultipassSchedule), primary }
}

#[test]
fn shared_schedule_is_refused_before_any_pass() {
    let r = plan_passes(&vec![ctx(1, Some(5), false), ctx(2, Some(5), false)], PRIMARY);
    assert_eq!(r, Err(DuplicateSchedule { schedule: EguiMultipassSchedule(5), first: 1, second: 2 }));
}

#[test]
fn distinct_schedules_each_run_once_without_fallback() {
    let r = plan_passes(&vec![ctx(1, Some(5), true), ctx(2, Some(6), false)], PRIMARY);
    assert_eq!(
        r,
        Ok(vec![
            PassStep::RunContext { context: 1, schedule: EguiMultipassSchedule(5) },
            PassStep::RunContext { context: 2, schedule: EguiMultipassSchedule(6) },
        ])
    );
}

#[test]
fn fallback_runs_once_with_a_primary_context() {
    let r = plan_passes(&vec![ctx(1, None, true)], PRIMARY);
    assert_eq!(r, Ok(vec![PassStep::RunUnaddressed { schedule: PRIMARY }]));
}

#[test]
fn no_context_no_fallback() {
    assert_eq!(plan_passes(&vec![], PRIMARY), Ok(vec![]));
    assert_eq!(plan_passes(&vec![ctx(3, None, false)], PRIMARY), Ok(vec![]));
}

#[test]
fn manual_contexts_are_never_driven() {
    let mut manual = ctx(1, Some(5), false);
    manual.run_manually = true;
    let r = plan_passes(&vec![manual, ctx(2, Some(5), false)], PRIMARY);
    assert_eq!(r, Ok(vec![PassStep::RunContext { context: 2, schedule: EguiMultipassSchedule(5) }]));
}

#[test]
fn texture_ids_are_recycled() {
    let mut t = EguiUserTextures::new();
    let a = 100;
    let b = 200;
    assert_eq!(t.add_image(a), TextureId::User(0));
    assert_eq!(t.remove_image(a), Some(TextureId::User(0)));
    assert_eq!(t.add_image(b), TextureId::User(0));
    let first = t.add_image(a);
    let second = t.add_image(a);
    assert_eq!(first, TextureId::User(1));
    assert_eq!(first, second);
    assert_eq!(t.add_image(300), TextureId::User(2));
    assert_eq!(t.image_id(a), Some(TextureId::User(1)));
    assert_eq!(t.image_id(999), None);
    assert_eq!(t.remove_image(999), None);
}

type Input = EguiInput<(i32, i32), u32, u8, String>;

fn ev(context: u64, x: i32) -> EguiInputEvent<(i32, i32), u32, u8> {
    EguiInputEvent { context, event: EguiEvent::PointerMoved((x, x)) }
}

fn moved(e: &EguiEvent<(i32, i32), u32, u8>) -> i32 {
    match e {
        EguiEvent::PointerMoved((x, _)) => *x,
        _ => panic!("not a move"),
    }
}

#[test]
fn events_reach_their_buffers_in_order_and_focus_is_stamped() {
    let mut inputs: Vec<Input> = vec![EguiInput::new(1), EguiInput::new(2), EguiInput::new(3)];
    let mut map = WindowToEguiContextMap::new();
    map.add_context(10, 1);
    map.add_context(20, 2);
    let windows = vec![WindowFocus { window: 10, focused: true }, WindowFocus { window: 20, focused: false }];
    let mods = Modifiers { alt: true, ctrl: false, shift: false, mac_cmd: false, command: false };
    write_egui_input(&mut inputs, vec![ev(2, 1), ev(1, 2), ev(9, 3), ev(2, 4)], vec![], None, &map, &windows, mods);
    assert_eq!(inputs[0].events.iter().map(moved).collect::<Vec<_>>(), vec![2]);
    assert_eq!(inputs[1].events.iter().map(moved).collect::<Vec<_>>(), vec![1, 4]);
    assert!(inputs[2].events.is_empty());
    assert!(inputs[0].focused && !inputs[1].focused && !inputs[2].focused);
    assert!(inputs.iter().all(|i| i.modifiers == mods));

    write_egui_input(&mut inputs, vec![], vec![], Some(FocusedNonWindowEguiContext(3)), &map, &windows, mods);
    assert!(!inputs[0].focused && !inputs[1].focused && inputs[2].focused);
}

#[test]
fn drops_and_cancels_clear_the_hovered_files() {
    let mut inputs: Vec<Input> = vec![EguiInput::new(1)];
    let map = WindowToEguiContextMap::new();
    let dnd = |event| EguiFileDragAndDropEvent { context: 1, event };
    write_egui_input(
        &mut inputs,
        vec![],
        vec![
            dnd(FileDragAndDrop::HoveredFile { window: 1, path: "a".to_string() }),
            dnd(FileDragAndDrop::HoveredFile { window: 1, path: "b".to_string() }),
        ],
        None,
        &map,
        &vec![],
        Modifiers { alt: false, ctrl: false, shift: false, mac_cmd: false, command: false },
    );
    assert_eq!(inputs[0].hovered_files, vec!["a".to_string(), "b".to_string()]);
    write_egui_input(
        &mut inputs,
        vec![],
        vec![dnd(FileDragAndDrop::DroppedFile { window: 1, path: "b".to_string() })],
        None,
        &map,
        &vec![],
        Modifiers { alt: false, ctrl: false, shift: false, mac_cmd: false, command: false },
    );
    assert!(inputs[0].hovered_files.is_empty());
    assert_eq!(inputs[0].dropped_files, vec!["b".to_string()]);
    write_egui_input(
        &mut inputs,
        vec![],
        vec![
            dnd(FileDragAndDrop::HoveredFile { window: 1, path: "c".to_string() }),
            dnd(FileDragAndDrop::HoveredFileCanceled { window: 1 }),
        ],
        None,
        &map,
        &vec![],
        Modifiers { alt: false, ctrl: false, shift: false, mac_cmd: false, command: false },
    );
    assert!(inputs[0].hovered_files.is_empty());
    assert_eq!(inputs[0].dropped_files.len(), 1);
}

#[test]
fn file_events_are_addressed_to_live_contexts() {
    let rec = EguiContextState {
        id: 1,
        settings: EguiContextSettings { run_manually: false, input_system_settings: EguiInputSystemSettings::all_enabled() },
        pointer_position: EguiContextPointerPosition { position: (0, 0) },
        pointer_touch_id: EguiContextPointerTouchId { pointer_touch_id: None },
        ime_state: EguiContextImeState { has_sent_ime_enabled: false, is_ime_allowed: false },
    };
    let table = ContextTable { records: vec![rec] };
    let mut out: Vec<EguiFileDragAndDropEvent<String>> = Vec::new();
    write_file_dnd_events(
        &table,
        vec![(1, FileDragAndDrop::HoveredFileCanceled { window: 4 }), (2, FileDragAndDrop::HoveredFileCanceled { window: 4 })],
        &mut out,
    );
    assert_eq!(out.len(), 1);
    assert_eq!(out[0].context, 1);
    assert_eq!(out[0].event.window(), 4);
}

#[test]
fn a_pass_drains_its_input_once() {
    let mut input: Input = EguiInput::new(1);
    input.events.push(EguiEvent::PointerGone);
    let mut pass: ContextPass<u32> = ContextPass::new();
    input.dropped_files.push("f".to_string());
    input.hovered_files.push("h".to_string());
    let (events, dropped) = pass.begin(&mut input);
    assert_eq!(events.len(), 1);
    assert_eq!(dropped, vec!["f".to_string()]);
    assert!(input.events.is_empty() && input.dropped_files.is_empty());
    assert_eq!(input.hovered_files, vec!["h".to_string()]);
    assert!(pass.ran(true, 3));
    assert!(pass.ran(true, 3));
    assert!(!pass.ran(true, 3));
    assert_eq!(pass.phase, PassPhase::Ran);
    pass.end(42);
    assert_eq!(pass.phase, PassPhase::Ended);
    assert_eq!(pass.take_output(), Some(42));
    assert_eq!(pass.phase, PassPhase::Idle);
    let (events, dropped) = pass.begin(&mut input);
    assert!(events.is_empty() && dropped.is_empty());
    assert!(!pass.ran(false, 3));
}

#[test]
fn wants_input_is_or_reduced_over_contexts() {
    let mut w = EguiWantsInput::new();
    assert!(!egui_wants_any_input(&w));
    let none = ContextWantsInput { is_pointer_over_area: false, wants_pointer_input: false, is_using_pointer: false, wants_keyboard_input: false, is_popup_open: false };
    let mut kb = none;
    kb.wants_keyboard_input = true;
    w.write_egui_wants_input(&vec![none, kb]);
    assert!(w.wants_keyboard_input() && !w.wants_pointer_input() && !w.is_pointer_over_area());
    assert!(egui_wants_any_keyboard_input(&w));
    assert!(!egui_wants_any_pointer_input(&w));
    assert!(egui_wants_any_input(&w));
    let mut popup = none;
    popup.is_popup_open = true;
    w.write_egui_wants_input(&vec![popup]);
    assert!(w.is_popup_open() && w.is_context_menu_open());
    assert!(w.wants_any_pointer_input() && w.wants_any_keyboard_input());
    assert!(!w.wants_keyboard_input());
    w.write_egui_wants_input(&vec![]);
    assert!(!w.wants_any_input());
}
