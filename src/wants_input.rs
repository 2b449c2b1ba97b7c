//! Whether any context wants the pointer or the keyboard, reduced over all
//! live contexts once their passes have ended.
use vstd::prelude::*;

verus! {

/// What one context reports about its input after its pass.
#[derive(Clone, Copy, Debug, PartialEq, Eq, Structural)]
pub struct ContextWantsInput {
    pub is_pointer_over_area: bool,
    pub wants_pointer_input: bool,
    pub is_using_pointer: bool,
    pub wants_keyboard_input: bool,
    pub is_popup_open: bool,
}

/// Whether any context wants the pointer or the keyboard.
#[derive(Clone, Copy, Debug, PartialEq, Eq, Structural)]
pub struct EguiWantsInput {
    is_pointer_over_area: bool,
    wants_pointer_input: bool,
    is_using_pointer: bool,
    wants_keyboard_input: bool,
    is_popup_open: bool,
}

/// Whether some report of `s` has the flag that `f` reads.
pub open spec fn any_of(s: Seq<ContextWantsInput>, f: spec_fn(ContextWantsInput) -> bool) -> bool {
    exists|i: int| 0 <= i < s.len() && f(#[trigger] s[i])
}

impl EguiWantsInput {
    pub closed spec fn pointer_over_area(&self) -> bool {
        self.is_pointer_over_area
    }

    pub closed spec fn pointer_wanted(&self) -> bool {
        self.wants_pointer_input
    }

    pub closed spec fn pointer_used(&self) -> bool {
        self.is_using_pointer
    }

    pub closed spec fn keyboard_wanted(&self) -> bool {
        self.wants_keyboard_input
    }

    pub closed spec fn popup_open(&self) -> bool {
        self.is_popup_open
    }

    /// No context wants anything.
    pub fn new() -> (r: EguiWantsInput)
        ensures
            !r.pointer_over_area() && !r.pointer_wanted() && !r.pointer_used() && !r.keyboard_wanted()
                && !r.popup_open(),
    {
        EguiWantsInput {
            is_pointer_over_area: false,
            wants_pointer_input: false,
            is_using_pointer: false,
            wants_keyboard_input: false,
            is_popup_open: false,
        }
    }

    /// Whether the pointer is over an area of any context.
    pub fn is_pointer_over_area(&self) -> (r: bool)
        ensures
            r == self.pointer_over_area(),
    {
        self.is_pointer_over_area
    }

    /// Whether any context is interested in the pointer.
    pub fn wants_pointer_input(&self) -> (r: bool)
        ensures
            r == self.pointer_wanted(),
    {
        self.wants_pointer_input
    }

    /// Whether any context is using the pointer (dragging, for one).
    pub fn is_using_pointer(&self) -> (r: bool)
        ensures
            r == self.pointer_used(),
    {
        self.is_using_pointer
    }

    /// Whether any context listens for text input.
    pub fn wants_keyboard_input(&self) -> (r: bool)
        ensures
            r == self.keyboard_wanted(),
    {
        self.wants_keyboard_input
    }

    /// Whether any context has a popup open.
    pub fn is_context_menu_open(&self) -> (r: bool)
        ensures
            r == self.popup_open(),
    {
        self.is_popup_open
    }

    /// Whether any context has a popup open.
    pub fn is_popup_open(&self) -> (r: bool)
        ensures
            r == self.popup_open(),
    {
        self.is_popup_open
    }

    /// Whether the pointer is over an area, wanted, used, or a popup is open.
    pub fn wants_any_pointer_input(&self) -> (r: bool)
        ensures
            r == (self.pointer_over_area() || self.pointer_wanted() || self.pointer_used() || self.popup_open()),
    {
        self.is_pointer_over_area || self.wants_pointer_input || self.is_using_pointer || self.is_popup_open
    }

    /// Whether the keyboard is wanted or a popup is open.
    pub fn wants_any_keyboard_input(&self) -> (r: bool)
        ensures
            r == (self.keyboard_wanted() || self.popup_open()),
    {
        self.wants_keyboard_input || self.is_popup_open
    }

    /// Whether any pointer or keyboard input is wanted.
    pub fn wants_any_input(&self) -> (r: bool)
        ensures
            r == (self.pointer_over_area() || self.pointer_wanted() || self.pointer_used() || self.popup_open()
                || self.keyboard_wanted()),
    {
        self.wants_any_pointer_input() || self.wants_any_keyboard_input()
    }

    /// Clears every flag.
    pub fn reset(&mut self)
        ensures
            *final(self) == EguiWantsInput::spec_cleared(),
    {
        self.is_pointer_over_area = false;
        self.wants_pointer_input = false;
        self.is_using_pointer = false;
        self.wants_keyboard_input = false;
        self.is_popup_open = false;
    }

    pub closed spec fn spec_cleared() -> EguiWantsInput {
        EguiWantsInput {
            is_pointer_over_area: false,
            wants_pointer_input: false,
            is_using_pointer: false,
            wants_keyboard_input: false,
            is_popup_open: false,
        }
    }

    /// Sets each flag to whether any context of `reports` has it.
    pub fn write_egui_wants_input(&mut self, reports: &Vec<ContextWantsInput>)
        ensures
            final(self).pointer_over_area() == any_of(reports@, |w: ContextWantsInput| w.is_pointer_over_area),
            final(self).pointer_wanted() == any_of(reports@, |w: ContextWantsInput| w.wants_pointer_input),
            final(self).pointer_used() == any_of(reports@, |w: ContextWantsInput| w.is_using_pointer),
            final(self).keyboard_wanted() == any_of(reports@, |w: ContextWantsInput| w.wants_keyboard_input),
            final(self).popup_open() == any_of(reports@, |w: ContextWantsInput| w.is_popup_open),
    {
        self.reset();
        let mut i: usize = 0;
        while i < reports.len()
            invariant
                i <= reports@.len(),
                self.is_pointer_over_area == exists|k: int| 0 <= k < i && #[trigger] reports@[k].is_pointer_over_area,
                self.wants_pointer_input == exists|k: int| 0 <= k < i && #[trigger] reports@[k].wants_pointer_input,
                self.is_using_pointer == exists|k: int| 0 <= k < i && #[trigger] reports@[k].is_using_pointer,
                self.wants_keyboard_input == exists|k: int| 0 <= k < i && #[trigger] reports@[k].wants_keyboard_input,
                self.is_popup_open == exists|k: int| 0 <= k < i && #[trigger] reports@[k].is_popup_open,
            decreases reports.len() - i,
        {
            let w = reports[i];
            self.is_pointer_over_area = self.is_pointer_over_area || w.is_pointer_over_area;
            self.wants_pointer_input = self.wants_pointer_input || w.wants_pointer_input;
            self.is_using_pointer = self.is_using_pointer || w.is_using_pointer;
            self.wants_keyboard_input = self.wants_keyboard_input || w.wants_keyboard_input;
            self.is_popup_open = self.is_popup_open || w.is_popup_open;
            i = i + 1;
        }
    }
}

/// Whether any pointer input is wanted, as a run condition.
pub fn egui_wants_any_pointer_input(w: &EguiWantsInput) -> (r: bool)
    ensures
        r == (w.pointer_over_area() || w.pointer_wanted() || w.pointer_used() || w.popup_open()),
{
    w.wants_any_pointer_input()
}

/// Whether any keyboard input is wanted, as a run condition.
pub fn egui_wants_any_keyboard_input(w: &EguiWantsInput) -> (r: bool)
    ensures
        r == (w.keyboard_wanted() || w.popup_open()),
{
    w.wants_any_keyboard_input()
}

/// Whether any input is wanted, as a run condition.
pub fn egui_wants_any_input(w: &EguiWantsInput) -> (r: bool)
    ensures
        r == (w.pointer_over_area() || w.pointer_wanted() || w.pointer_used() || w.popup_open()
            || w.keyboard_wanted()),
{
    w.wants_any_input()
}

} // verus!
