//! The normalized input events that UI contexts receive, and the raw events
//! they are made from. Geometry (`P`), keys (`K`), touch forces (`F`) and file
//! paths (`D`) are carried as they come, never read.
use vstd::prelude::*;

use crate::modifiers::Modifiers;

verus! {

/// A pointer button, as a UI context knows it.
#[derive(Clone, Copy, Debug, PartialEq, Eq, Structural)]
pub enum PointerButton {
    Primary,
    Secondary,
    Middle,
    Extra1,
    Extra2,
}

/// A mouse button, as the host reports it.
#[derive(Clone, Copy, Debug, PartialEq, Eq, Structural)]
pub enum MouseButton {
    Left,
    Right,
    Middle,
    Back,
    Forward,
    Other(u16),
}

/// The unit of a wheel delta.
#[derive(Clone, Copy, Debug, PartialEq, Eq, Structural)]
pub enum MouseWheelUnit {
    Line,
    Point,
}

/// The phase of a touch.
#[derive(Clone, Copy, Debug, PartialEq, Eq, Structural)]
pub enum TouchPhase {
    Start,
    Move,
    End,
    Cancel,
}

/// An input-method event.
#[derive(Clone, Debug, PartialEq, Eq)]
pub enum ImeEvent {
    Enabled,
    Preedit(String),
    Commit(String),
    Disabled,
}

/// A normalized input event.
#[derive(Clone, Debug)]
pub enum EguiEvent<P, K, F> {
    PointerMoved(P),
    PointerButton { pos: P, button: PointerButton, pressed: bool, modifiers: Modifiers },
    /// The pointer left the surface.
    PointerGone,
    MouseWheel { unit: MouseWheelUnit, delta: P, modifiers: Modifiers },
    Text(String),
    Key { key: K, physical_key: Option<K>, pressed: bool, repeat: bool, modifiers: Modifiers },
    Copy,
    Cut,
    Ime(ImeEvent),
    Touch { device_id: u64, id: u64, phase: TouchPhase, pos: P, force: Option<F> },
}

/// A normalized event addressed to a context.
#[derive(Clone, Debug)]
pub struct EguiInputEvent<P, K, F> {
    /// The context the event goes to.
    pub context: u64,
    pub event: EguiEvent<P, K, F>,
}

/// A file drag-and-drop event of a window.
#[derive(Clone, Debug)]
pub enum FileDragAndDrop<D> {
    DroppedFile { window: u64, path: D },
    HoveredFile { window: u64, path: D },
    HoveredFileCanceled { window: u64 },
}

/// A drag-and-drop event addressed to a context.
#[derive(Clone, Debug)]
pub struct EguiFileDragAndDropEvent<D> {
    /// The context the event goes to.
    pub context: u64,
    pub event: FileDragAndDrop<D>,
}

/// The window a drag-and-drop event comes from.
pub open spec fn dnd_window<D>(e: FileDragAndDrop<D>) -> u64 {
    match e {
        FileDragAndDrop::DroppedFile { window, .. } => window,
        FileDragAndDrop::HoveredFile { window, .. } => window,
        FileDragAndDrop::HoveredFileCanceled { window } => window,
    }
}

impl<D> FileDragAndDrop<D> {
    /// The window the event comes from.
    pub fn window(&self) -> (r: u64)
        ensures
            r == dnd_window(*self),
    {
        match self {
            FileDragAndDrop::DroppedFile { window, .. } => *window,
            FileDragAndDrop::HoveredFile { window, .. } => *window,
            FileDragAndDrop::HoveredFileCanceled { window } => *window,
        }
    }
}

} // verus!
