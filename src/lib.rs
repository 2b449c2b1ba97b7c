//! Routing of host input events to immediate-mode UI contexts, and the
//! per-frame pass scheduling of those contexts.
mod platform_map;
mod index;
mod modifiers;
mod events;
mod routing;
mod context;
mod touch;
mod pointer;
mod keyboard;
mod ime;
mod egui_input;
mod schedule;
mod textures;
mod wants_input;

pub use platform_map::{IdMap, IdSetMap};
pub use index::{ContextRemoval, WindowToEguiContextMap};
pub use modifiers::{LogicalKey, ModifierKeysState, Modifiers};
pub use events::{
    EguiEvent, EguiFileDragAndDropEvent, EguiInputEvent, FileDragAndDrop, ImeEvent, MouseButton,
    MouseWheelUnit, PointerButton, TouchPhase,
};
pub use routing::{
    fan_out, EguiContextEventReader, FocusedNonWindowEguiContext, HoveredNonWindowEguiContext,
};
pub use context::{
    ContextTable, EguiContextImeState, EguiContextPointerPosition, EguiContextPointerTouchId,
    EguiContextSettings, EguiContextState, EguiGlobalSettings, EguiInputSystemSettings,
};
pub use touch::{
    write_non_window_touch_events, write_touch_event, write_window_touch_events, TouchInput,
};
pub use pointer::{
    pointer_button, write_mouse_wheel_events, write_non_window_pointer_moved_events,
    write_pointer_button_events, write_window_pointer_moved_events, MouseButtonInput, MouseWheel,
};
pub use keyboard::{
    char_is_control, has_no_control_chars, needs_clipboard, write_key_event,
    write_keyboard_input_events, ClipboardShortcut, KeyboardInput,
};
pub use ime::{write_ime_event, write_ime_events};
pub use egui_input::{
    deliver_events, deliver_file_events, find_buffer, stamp_inputs, window_focused,
    write_egui_input, write_file_dnd_events, EguiInput, WindowFocus,
};
pub use schedule::{
    plan_passes, primary_context, primary_context_camera, ContextPass, DuplicateSchedule,
    EguiMultipassSchedule, PassContext, PassPhase, PassStep, QuerySingleError,
};
pub use textures::{EguiUserTextures, TextureId};
pub use wants_input::{
    egui_wants_any_input, egui_wants_any_keyboard_input, egui_wants_any_pointer_input,
    ContextWantsInput, EguiWantsInput,
};
