use bevy_egui::{
    primary_context, primary_context_camera, ContextTable, EguiContextImeState,
    EguiContextPointerPosition, EguiContextPointerTouchId, EguiContextSettings, EguiContextState,
    EguiInputSystemSettings, EguiMultipassSchedule, PassContext, QuerySingleError,
};

fn pc(context: u64, primary: bool) -> PassContext {
    PassContext { context, run_manually: false, schedule: Some(EguiMultipassSchedule(context)), primary }
}

fn record(id: u64) -> EguiContextState<u8> {
    EguiContextState {
        id,
        settings: EguiContextSettings { run_manually: false, input_system_settings: EguiInputSystemSettings::all_enabled() },
        pointer_position: EguiContextPointerPosition { position: 0 },
        pointer_touch_id: EguiContextPointerTouchId { pointer_touch_id: None },
        ime_state: EguiContextImeState { has_sent_ime_enabled: false, is_ime_allowed: false },
    }
}

#[test]
fn primary_context_must_be_unique() {
    assert_eq!(primary_context(&vec![]), Err(QuerySingleError::NoEntities));
    assert_eq!(primary_context(&vec![pc(1, false)]), Err(QuerySingleError::NoEntities));
    assert_eq!(primary_context(&vec![pc(1, false), pc(2, true)]), Ok(2));
    assert_eq!(primary_context(&vec![pc(1, true), pc(2, true)]), Err(QuerySingleError::MultipleEntities));
}

#[test]
fn first_new_camera_gets_the_primary_context() {
    assert_eq!(primary_context_camera(&vec![(5, false), (6, false)], false), (Some(5), true));
    assert_eq!(primary_context_camera(&vec![(5, true), (6, false)], false), (None, true));
    assert_eq!(primary_context_camera(&vec![(5, false)], true), (None, true));
    assert_eq!(primary_context_camera(&vec![], false), (None, false));
}

#[test]
fn context_table_lifecycle() {
    let mut t: ContextTable<u8> = ContextTable::new();
    assert!(t.insert(record(1)));
    assert!(t.insert(record(2)));
    assert!(!t.insert(record(1)));
    assert_eq!(t.records.len(), 2);
    assert_eq!(t.find(2), Some(1));
    assert_eq!(t.remove(1).map(|r| r.id), Some(1));
    assert_eq!(t.find(1), None);
    assert_eq!(t.find(2), Some(0));
    assert!(t.remove(1).is_none());
}

#[test]
fn default_settings() {
    let g = bevy_egui::EguiGlobalSettings::new();
    assert!(g.auto_create_primary_context && g.enable_focused_non_window_context_updates);
    assert!(!g.enable_absorb_bevy_input_system && g.enable_cursor_icon_updates);
    assert_eq!(g.input_system_settings, EguiInputSystemSettings::all_enabled());
    let c = EguiContextSettings::new();
    assert!(!c.run_manually);
    assert!(c.input_system_settings.run_write_ime_events_system);
}
