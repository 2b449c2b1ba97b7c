//! Pointer, button and wheel input.
use vstd::prelude::*;

use crate::context::{
    lemma_update_keeps_ids, position_of, ContextTable, EguiContextPointerPosition, EguiContextState,
};
use crate::events::{EguiEvent, EguiInputEvent, MouseButton, MouseWheelUnit, PointerButton};
use crate::modifiers::Modifiers;
use crate::routing::{focus_from_hover, FocusedNonWindowEguiContext, HoveredNonWindowEguiContext};

verus! {

/// A mouse button press or release of a window.
#[derive(Clone, Copy, Debug, PartialEq, Eq, Structural)]
pub struct MouseButtonInput {
    pub window: u64,
    pub button: MouseButton,
    pub pressed: bool,
}

/// A wheel event of a window; `delta` is carried as it comes.
#[derive(Clone, Copy, Debug)]
pub struct MouseWheel<P> {
    pub window: u64,
    pub unit: MouseWheelUnit,
    pub delta: P,
}

/// The pointer button of a mouse button; other buttons have none.
pub open spec fn button_of(b: MouseButton) -> Option<PointerButton> {
    match b {
        MouseButton::Left => Some(PointerButton::Primary),
        MouseButton::Right => Some(PointerButton::Secondary),
        MouseButton::Middle => Some(PointerButton::Middle),
        MouseButton::Back => Some(PointerButton::Extra1),
        MouseButton::Forward => Some(PointerButton::Extra2),
        MouseButton::Other(_) => None,
    }
}

/// The pointer button of a mouse button; other buttons have none.
pub fn pointer_button(b: MouseButton) -> (r: Option<PointerButton>)
    ensures
        r == button_of(b),
{
    match b {
        MouseButton::Left => Some(PointerButton::Primary),
        MouseButton::Right => Some(PointerButton::Secondary),
        MouseButton::Middle => Some(PointerButton::Middle),
        MouseButton::Back => Some(PointerButton::Extra1),
        MouseButton::Forward => Some(PointerButton::Extra2),
        MouseButton::Other(_) => None,
    }
}

/// The events and contexts after the routed pointer moves of `pairs`: each
/// move for a live context that runs this translator sets the context's
/// pointer and gives a pointer-move event.
pub open spec fn pointer_moves<P, K, F>(
    out: Seq<EguiInputEvent<P, K, F>>,
    recs: Seq<EguiContextState<P>>,
    pairs: Seq<(u64, P)>,
) -> (Seq<EguiInputEvent<P, K, F>>, Seq<EguiContextState<P>>)
    decreases pairs.len(),
{
    if pairs.len() == 0 {
        (out, recs)
    } else {
        let (o, r) = pointer_moves(out, recs, pairs.drop_last());
        let (c, pos) = pairs.last();
        match position_of(r, c) {
            Some(i) => if r[i].settings.input_system_settings.run_write_window_pointer_moved_events_system {
                (
                    o.push(EguiInputEvent { context: c, event: EguiEvent::PointerMoved(pos) }),
                    r.update(i, EguiContextState { pointer_position: EguiContextPointerPosition { position: pos }, ..r[i] }),
                )
            } else {
                (o, r)
            },
            None => (o, r),
        }
    }
}

/// Writes the routed pointer moves of a frame: `pairs` holds each move with
/// the context it goes to, its position in that context's units.
pub fn write_window_pointer_moved_events<P: Copy, K, F>(
    contexts: &mut ContextTable<P>,
    pairs: &Vec<(u64, P)>,
    out: &mut Vec<EguiInputEvent<P, K, F>>,
)
    requires
        old(contexts).wf(),
    ensures
        final(contexts).wf(),
        (final(out)@, final(contexts).records@) == pointer_moves::<P, K, F>(old(out)@, old(contexts).records@, pairs@),
{
    let ghost out0 = out@;
    let ghost recs0 = contexts.records@;
    let mut n: usize = 0;
    while n < pairs.len()
        invariant
            n <= pairs@.len(),
            contexts.wf(),
            (out@, contexts.records@) == pointer_moves::<P, K, F>(out0, recs0, pairs@.take(n as int)),
        decreases pairs.len() - n,
    {
        let (context, pos) = pairs[n];
        proof {
            assert(pairs@.take(n + 1).drop_last() =~= pairs@.take(n as int));
        }
        if let Some(i) = contexts.find(context) {
            let mut record = contexts.records[i];
            if record.settings.input_system_settings.run_write_window_pointer_moved_events_system {
                record.pointer_position = EguiContextPointerPosition { position: pos };
                proof {
                    lemma_update_keeps_ids(contexts.records@, i as int, record);
                }
                contexts.records.set(i, record);
                out.push(EguiInputEvent { context, event: EguiEvent::PointerMoved(pos) });
            }
        }
        n = n + 1;
    }
    proof {
        assert(pairs@.take(n as int) =~= pairs@);
    }
}

/// The events and focused slot after the routed button events of `pairs`.
/// Each event for a live context that runs this translator, of a button that
/// a context knows, gives a button event at the context's pointer; a press
/// of the primary button, where focus updates are on, focuses the hovered
/// context or clears the focus.
pub open spec fn button_presses<P, K, F>(
    out: Seq<EguiInputEvent<P, K, F>>,
    focus: Option<FocusedNonWindowEguiContext>,
    recs: Seq<EguiContextState<P>>,
    pairs: Seq<(u64, MouseButtonInput)>,
    hovered: Option<HoveredNonWindowEguiContext>,
    focus_updates: bool,
    modifiers: Modifiers,
) -> (Seq<EguiInputEvent<P, K, F>>, Option<FocusedNonWindowEguiContext>)
    decreases pairs.len(),
{
    if pairs.len() == 0 {
        (out, focus)
    } else {
        let (o, f) = button_presses(out, focus, recs, pairs.drop_last(), hovered, focus_updates, modifiers);
        let (c, b) = pairs.last();
        match position_of(recs, c) {
            Some(i) => if recs[i].settings.input_system_settings.run_write_pointer_button_events_system
                && button_of(b.button) is Some {
                let button = button_of(b.button)->0;
                (
                    o.push(EguiInputEvent {
                        context: c,
                        event: EguiEvent::PointerButton {
                            pos: recs[i].pointer_position.position,
                            button,
                            pressed: b.pressed,
                            modifiers,
                        },
                    }),
                    if focus_updates && b.pressed && button == PointerButton::Primary {
                        focus_from_hover(hovered)
                    } else {
                        f
                    },
                )
            } else {
                (o, f)
            },
            None => (o, f),
        }
    }
}

/// Writes the routed button events of a frame, and moves the focus on a
/// primary press.
pub fn write_pointer_button_events<P: Copy, K, F>(
    contexts: &ContextTable<P>,
    focused: &mut Option<FocusedNonWindowEguiContext>,
    hovered: Option<HoveredNonWindowEguiContext>,
    focus_updates: bool,
    modifiers: Modifiers,
    pairs: &Vec<(u64, MouseButtonInput)>,
    out: &mut Vec<EguiInputEvent<P, K, F>>,
)
    requires
        contexts.wf(),
    ensures
        (final(out)@, *final(focused)) == button_presses::<P, K, F>(
            old(out)@,
            *old(focused),
            contexts.records@,
            pairs@,
            hovered,
            focus_updates,
            modifiers,
        ),
{
    let ghost out0 = out@;
    let ghost focus0 = *focused;
    let mut n: usize = 0;
    while n < pairs.len()
        invariant
            n <= pairs@.len(),
            contexts.wf(),
            (out@, *focused) == button_presses::<P, K, F>(
                out0,
                focus0,
                contexts.records@,
                pairs@.take(n as int),
                hovered,
                focus_updates,
                modifiers,
            ),
        decreases pairs.len() - n,
    {
        let (context, input) = pairs[n];
        proof {
            assert(pairs@.take(n + 1).drop_last() =~= pairs@.take(n as int));
        }
        if let Some(i) = contexts.find(context) {
            let record = &contexts.records[i];
            if record.settings.input_system_settings.run_write_pointer_button_events_system {
                if let Some(button) = pointer_button(input.button) {
                    out.push(
                        EguiInputEvent {
                            context,
                            event: EguiEvent::PointerButton {
                                pos: record.pointer_position.position,
                                button,
                                pressed: input.pressed,
                                modifiers,
                            },
                        },
                    );
                    if focus_updates && input.pressed && button == PointerButton::Primary {
                        *focused = match hovered {
                            Some(h) => Some(FocusedNonWindowEguiContext(h.0)),
                            None => None,
                        };
                    }
                }
            }
        }
        n = n + 1;
    }
    proof {
        assert(pairs@.take(n as int) =~= pairs@);
    }
}

/// Gives the hovered non-window context one pointer-move event at its own
/// pointer where the frame had any pointer move at all, the context is live,
/// and it runs this translator.
pub fn write_non_window_pointer_moved_events<P: Copy, K, F>(
    contexts: &ContextTable<P>,
    hovered: Option<HoveredNonWindowEguiContext>,
    any_pointer_moved: bool,
    out: &mut Vec<EguiInputEvent<P, K, F>>,
)
    requires
        contexts.wf(),
    ensures
        final(out)@ == old(out)@ + match (any_pointer_moved, hovered) {
            (true, Some(h)) => match position_of(contexts.records@, h.0) {
                Some(i) => if contexts.records@[i].settings.input_system_settings.run_write_non_window_pointer_moved_events_system {
                    seq![EguiInputEvent { context: h.0, event: EguiEvent::<P, K, F>::PointerMoved(contexts.records@[i].pointer_position.position) }]
                } else {
                    Seq::empty()
                },
                None => Seq::empty(),
            },
            _ => Seq::empty(),
        },
{
    if !any_pointer_moved {
        proof {
            assert(out@ =~= old(out)@ + Seq::empty());
        }
        return;
    }
    let Some(h) = hovered else {
        proof {
            assert(out@ =~= old(out)@ + Seq::empty());
        }
        return;
    };
    let Some(i) = contexts.find(h.0) else {
        proof {
            assert(out@ =~= old(out)@ + Seq::empty());
        }
        return;
    };
    let record = &contexts.records[i];
    if !record.settings.input_system_settings.run_write_non_window_pointer_moved_events_system {
        proof {
            assert(out@ =~= old(out)@ + Seq::empty());
        }
        return;
    }
    out.push(EguiInputEvent { context: h.0, event: EguiEvent::PointerMoved(record.pointer_position.position) });
    proof {
        assert(out@ =~= old(out)@ + seq![EguiInputEvent { context: h.0, event: EguiEvent::<P, K, F>::PointerMoved(contexts.records@[i as int].pointer_position.position) }]);
    }
}

/// The events after the routed wheel events of `pairs`: each one for a live
/// context that runs this translator gives a wheel event.
pub open spec fn wheel_events<P, K, F>(
    out: Seq<EguiInputEvent<P, K, F>>,
    recs: Seq<EguiContextState<P>>,
    pairs: Seq<(u64, MouseWheel<P>)>,
    modifiers: Modifiers,
) -> Seq<EguiInputEvent<P, K, F>>
    decreases pairs.len(),
{
    if pairs.len() == 0 {
        out
    } else {
        let o = wheel_events(out, recs, pairs.drop_last(), modifiers);
        let (c, w) = pairs.last();
        match position_of(recs, c) {
            Some(i) => if recs[i].settings.input_system_settings.run_write_mouse_wheel_events_system {
                o.push(EguiInputEvent { context: c, event: EguiEvent::MouseWheel { unit: w.unit, delta: w.delta, modifiers } })
            } else {
                o
            },
            None => o,
        }
    }
}

/// Writes the routed wheel events of a frame.
pub fn write_mouse_wheel_events<P: Copy, K, F>(
    contexts: &ContextTable<P>,
    modifiers: Modifiers,
    pairs: &Vec<(u64, MouseWheel<P>)>,
    out: &mut Vec<EguiInputEvent<P, K, F>>,
)
    requires
        contexts.wf(),
    ensures
        final(out)@ == wheel_events::<P, K, F>(old(out)@, contexts.records@, pairs@, modifiers),
{
    let ghost out0 = out@;
    let mut n: usize = 0;
    while n < pairs.len()
        invariant
            n <= pairs@.len(),
            contexts.wf(),
            out@ == wheel_events::<P, K, F>(out0, contexts.records@, pairs@.take(n as int), modifiers),
        decreases pairs.len() - n,
    {
        let (context, wheel) = pairs[n];
        proof {
            assert(pairs@.take(n + 1).drop_last() =~= pairs@.take(n as int));
        }
        if let Some(i) = contexts.find(context) {
            if contexts.records[i].settings.input_system_settings.run_write_mouse_wheel_events_system {
                out.push(
                    EguiInputEvent {
                        context,
                        event: EguiEvent::MouseWheel { unit: wheel.unit, delta: wheel.delta, modifiers },
                    },
                );
            }
        }
        n = n + 1;
    }
    proof {
        assert(pairs@.take(n as int) =~= pairs@);
    }
}

} // verus!
