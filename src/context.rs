//! The per-context state that routing and translation read and write.
use vstd::prelude::*;

verus! {

/// Which input translators run for a context.
#[derive(Clone, Copy, Debug, PartialEq, Eq, Structural)]
pub struct EguiInputSystemSettings {
    pub run_write_modifiers_keys_state_system: bool,
    pub run_write_window_pointer_moved_events_system: bool,
    pub run_write_pointer_button_events_system: bool,
    pub run_write_window_touch_events_system: bool,
    pub run_write_non_window_pointer_moved_events_system: bool,
    pub run_write_mouse_wheel_events_system: bool,
    pub run_write_non_window_touch_events_system: bool,
    pub run_write_keyboard_input_events_system: bool,
    pub run_write_ime_events_system: bool,
    pub run_write_file_dnd_events_system: bool,
}

impl EguiInputSystemSettings {
    /// Every translator enabled.
    pub open spec fn all_enabled_spec() -> EguiInputSystemSettings {
        EguiInputSystemSettings {
            run_write_modifiers_keys_state_system: true,
            run_write_window_pointer_moved_events_system: true,
            run_write_pointer_button_events_system: true,
            run_write_window_touch_events_system: true,
            run_write_non_window_pointer_moved_events_system: true,
            run_write_mouse_wheel_events_system: true,
            run_write_non_window_touch_events_system: true,
            run_write_keyboard_input_events_system: true,
            run_write_ime_events_system: true,
            run_write_file_dnd_events_system: true,
        }
    }

    /// Every translator enabled.
    pub fn all_enabled() -> (r: EguiInputSystemSettings)
        ensures
            r == EguiInputSystemSettings::all_enabled_spec(),
    {
        EguiInputSystemSettings {
            run_write_modifiers_keys_state_system: true,
            run_write_window_pointer_moved_events_system: true,
            run_write_pointer_button_events_system: true,
            run_write_window_touch_events_system: true,
            run_write_non_window_pointer_moved_events_system: true,
            run_write_mouse_wheel_events_system: true,
            run_write_non_window_touch_events_system: true,
            run_write_keyboard_input_events_system: true,
            run_write_ime_events_system: true,
            run_write_file_dnd_events_system: true,
        }
    }
}

/// The settings of a context that this library reads. The scale factor is
/// applied to positions before they reach the library.
#[derive(Clone, Copy, Debug, PartialEq, Eq, Structural)]
pub struct EguiContextSettings {
    /// The context's passes are driven by its user, never by the scheduler.
    pub run_manually: bool,
    pub input_system_settings: EguiInputSystemSettings,
}

impl EguiContextSettings {
    /// Driven by the scheduler, with every translator enabled.
    pub fn new() -> (r: EguiContextSettings)
        ensures
            !r.run_manually,
            r.input_system_settings == EguiInputSystemSettings::all_enabled_spec(),
    {
        EguiContextSettings { run_manually: false, input_system_settings: EguiInputSystemSettings::all_enabled() }
    }
}

/// Settings that hold for all contexts.
#[derive(Clone, Copy, Debug, PartialEq, Eq, Structural)]
pub struct EguiGlobalSettings {
    /// A context is created for the first camera.
    pub auto_create_primary_context: bool,
    /// Presses and touch starts move the focused non-window context.
    pub enable_focused_non_window_context_updates: bool,
    /// Which translators run at all.
    pub input_system_settings: EguiInputSystemSettings,
    /// Host input is cleared where a context wants it.
    pub enable_absorb_bevy_input_system: bool,
    pub enable_cursor_icon_updates: bool,
}

impl EguiGlobalSettings {
    /// Everything on but clearing host input.
    pub fn new() -> (r: EguiGlobalSettings)
        ensures
            r.auto_create_primary_context,
            r.enable_focused_non_window_context_updates,
            r.input_system_settings == EguiInputSystemSettings::all_enabled_spec(),
            !r.enable_absorb_bevy_input_system,
            r.enable_cursor_icon_updates,
    {
        EguiGlobalSettings {
            auto_create_primary_context: true,
            enable_focused_non_window_context_updates: true,
            input_system_settings: EguiInputSystemSettings::all_enabled(),
            enable_absorb_bevy_input_system: false,
            enable_cursor_icon_updates: true,
        }
    }
}

/// The touch that a context turns into pointer events, if any.
#[derive(Clone, Copy, Debug, PartialEq, Eq, Structural)]
pub struct EguiContextPointerTouchId {
    pub pointer_touch_id: Option<u64>,
}

/// Whether input-method enabling was sent, to avoid sending it twice.
#[derive(Clone, Copy, Debug, PartialEq, Eq, Structural)]
pub struct EguiContextImeState {
    pub has_sent_ime_enabled: bool,
    /// Whether the virtual keyboard is shown.
    pub is_ime_allowed: bool,
}

/// The last pointer position of a context.
#[derive(Clone, Copy, Debug)]
pub struct EguiContextPointerPosition<P> {
    pub position: P,
}

/// A live context and its input state.
#[derive(Clone, Copy, Debug)]
pub struct EguiContextState<P> {
    pub id: u64,
    pub settings: EguiContextSettings,
    pub pointer_position: EguiContextPointerPosition<P>,
    pub pointer_touch_id: EguiContextPointerTouchId,
    pub ime_state: EguiContextImeState,
}

/// The live contexts, each id once.
pub struct ContextTable<P> {
    pub records: Vec<EguiContextState<P>>,
}

/// Where context `id` stands in `s`, if it is there.
pub open spec fn position_of<P>(s: Seq<EguiContextState<P>>, id: u64) -> Option<int> {
    if exists|i: int| 0 <= i < s.len() && s[i].id == id {
        Some(choose|i: int| 0 <= i < s.len() && s[i].id == id)
    } else {
        None
    }
}

/// No id stands twice in `s`.
pub open spec fn ids_unique<P>(s: Seq<EguiContextState<P>>) -> bool {
    forall|i: int, j: int| 0 <= i < s.len() && 0 <= j < s.len() && #[trigger] s[i].id == #[trigger] s[j].id ==> i == j
}

impl<P> ContextTable<P> {
    pub open spec fn wf(&self) -> bool {
        ids_unique(self.records@)
    }

    /// An empty table.
    pub fn new() -> (r: ContextTable<P>)
        ensures
            r.wf(),
            r.records@.len() == 0,
    {
        ContextTable { records: Vec::new() }
    }

    /// Adds a context that is not there yet; returns whether it was added.
    pub fn insert(&mut self, record: EguiContextState<P>) -> (r: bool)
        requires
            old(self).wf(),
        ensures
            final(self).wf(),
            r == (position_of(old(self).records@, record.id) is None),
            final(self).records@ == (if r { old(self).records@.push(record) } else { old(self).records@ }),
    {
        if self.find(record.id).is_some() {
            return false;
        }
        let ghost before = self.records@;
        self.records.push(record);
        proof {
            assert forall|i: int, j: int|
                0 <= i < self.records@.len() && 0 <= j < self.records@.len() && #[trigger] self.records@[i].id
                    == #[trigger] self.records@[j].id implies i == j by {
                if i < before.len() && j == before.len() {
                    assert(before[i].id == record.id);
                }
                if j < before.len() && i == before.len() {
                    assert(before[j].id == record.id);
                }
            }
        }
        true
    }

    /// Removes context `id`, where it is there, and returns its record.
    pub fn remove(&mut self, id: u64) -> (r: Option<EguiContextState<P>>)
        requires
            old(self).wf(),
        ensures
            final(self).wf(),
            position_of(final(self).records@, id) is None,
            match position_of(old(self).records@, id) {
                Some(i) => r == Some(old(self).records@[i]) && final(self).records@ == old(self).records@.remove(i),
                None => r is None && final(self).records@ == old(self).records@,
            },
    {
        match self.find(id) {
            Some(i) => {
                let ghost before = self.records@;
                let record = self.records.remove(i);
                proof {
                    let after = self.records@;
                    assert forall|a: int, b: int|
                        0 <= a < after.len() && 0 <= b < after.len() && #[trigger] after[a].id == #[trigger] after[b].id
                            implies a == b by {
                        let a0 = if a < i { a } else { a + 1 };
                        let b0 = if b < i { b } else { b + 1 };
                        assert(after[a] == before[a0] && after[b] == before[b0]);
                    }
                    assert forall|k: int| 0 <= k < after.len() implies after[k].id != id by {
                        let k0 = if k < i { k } else { k + 1 };
                        assert(after[k] == before[k0]);
                        assert(before[i as int].id == id);
                    }
                }
                Some(record)
            },
            None => None,
        }
    }

    /// Where context `id` stands.
    pub fn find(&self, id: u64) -> (r: Option<usize>)
        ensures
            match r {
                Some(i) => i < self.records@.len() && self.records@[i as int].id == id,
                None => position_of(self.records@, id) is None,
            },
            self.wf() ==> r == match position_of(self.records@, id) {
                Some(i) => Some(i as usize),
                None => None::<usize>,
            },
    {
        let mut i: usize = 0;
        while i < self.records.len()
            invariant
                i <= self.records@.len(),
                forall|k: int| 0 <= k < i ==> self.records@[k].id != id,
            decreases self.records.len() - i,
        {
            if self.records[i].id == id {
                proof {
                    if self.wf() {
                        let j = choose|j: int| 0 <= j < self.records@.len() && self.records@[j].id == id;
                        assert(self.records@[j].id == self.records@[i as int].id);
                    }
                }
                return Some(i);
            }
            i = i + 1;
        }
        None
    }
}

/// An update of one record that keeps its id keeps the ids unique.
pub proof fn lemma_update_keeps_ids<P>(s: Seq<EguiContextState<P>>, i: int, r: EguiContextState<P>)
    requires
        ids_unique(s),
        0 <= i < s.len(),
        r.id == s[i].id,
    ensures
        ids_unique(s.update(i, r)),
        forall|id: u64| position_of(s.update(i, r), id) == position_of(s, id),
{
    let u = s.update(i, r);
    assert forall|a: int, b: int|
        0 <= a < u.len() && 0 <= b < u.len() && #[trigger] u[a].id == #[trigger] u[b].id implies a == b by {
        assert(s[a].id == u[a].id && s[b].id == u[b].id);
    }
    assert forall|id: u64| position_of(u, id) == position_of(s, id) by {
        if exists|k: int| 0 <= k < s.len() && s[k].id == id {
            let k = choose|k: int| 0 <= k < s.len() && s[k].id == id;
            assert(u[k].id == id);
            let ku = choose|k: int| 0 <= k < u.len() && u[k].id == id;
            assert(s[ku].id == u[ku].id);
        } else {
            assert forall|k: int| 0 <= k < u.len() implies u[k].id != id by {
                assert(s[k].id == u[k].id);
            }
        }
    }
}

} // verus!
