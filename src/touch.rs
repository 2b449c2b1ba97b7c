//! Touch input: each touch passes through as a touch event, and one touch at
//! a time per context also drives the pointer.
use vstd::prelude::*;

use crate::context::{
    lemma_update_keeps_ids, position_of, ContextTable, EguiContextPointerPosition,
    EguiContextPointerTouchId, EguiContextState,
};
use crate::events::{EguiEvent, EguiInputEvent, PointerButton, TouchPhase};
use crate::modifiers::Modifiers;
use crate::routing::{focus_from_hover, FocusedNonWindowEguiContext, HoveredNonWindowEguiContext};

verus! {

/// A touch event of a window. `position` is already in the context's own
/// units; `force` is already normalized to `[0, 1]`.
#[derive(Clone, Copy, Debug)]
pub struct TouchInput<P, F> {
    pub window: u64,
    pub id: u64,
    pub phase: TouchPhase,
    pub position: P,
    pub force: Option<F>,
}

/// The events one touch gives for `context` at `pos`, and the context's
/// active touch afterwards. The touch itself always passes through; where
/// the context has no active touch or this one is it, the touch also drives
/// the pointer: a start adopts it, moves the pointer there and presses the
/// primary button; a move moves the pointer; an end releases the button and
/// lets the pointer leave; a cancel lets the pointer leave without a release.
pub open spec fn touch_emulation<P, K, F>(
    context: u64,
    t: TouchInput<P, F>,
    pos: P,
    modifiers: Modifiers,
    active: Option<u64>,
) -> (Seq<EguiInputEvent<P, K, F>>, Option<u64>) {
    let raw = EguiInputEvent {
        context,
        event: EguiEvent::Touch { device_id: t.window, id: t.id, phase: t.phase, pos, force: t.force },
    };
    let moved = EguiInputEvent { context, event: EguiEvent::PointerMoved(pos) };
    let press = EguiInputEvent {
        context,
        event: EguiEvent::PointerButton { pos, button: PointerButton::Primary, pressed: true, modifiers },
    };
    let release = EguiInputEvent {
        context,
        event: EguiEvent::PointerButton { pos, button: PointerButton::Primary, pressed: false, modifiers },
    };
    let gone = EguiInputEvent { context, event: EguiEvent::PointerGone };
    if active is None || active == Some(t.id) {
        match t.phase {
            TouchPhase::Start => (seq![raw, moved, press], Some(t.id)),
            TouchPhase::Move => (seq![raw, moved], active),
            TouchPhase::End => (seq![raw, release, gone], None),
            TouchPhase::Cancel => (seq![raw, gone], None),
        }
    } else {
        (seq![raw], active)
    }
}

/// Writes the events of one touch for `context` at `pos`, and updates the
/// context's active touch.
pub fn write_touch_event<P: Copy, K, F: Copy>(
    out: &mut Vec<EguiInputEvent<P, K, F>>,
    touch: &TouchInput<P, F>,
    context: u64,
    pos: P,
    modifiers: Modifiers,
    touch_id: &mut EguiContextPointerTouchId,
)
    ensures
        final(out)@ == old(out)@ + touch_emulation::<P, K, F>(
            context,
            *touch,
            pos,
            modifiers,
            old(touch_id).pointer_touch_id,
        ).0,
        final(touch_id).pointer_touch_id == touch_emulation::<P, K, F>(
            context,
            *touch,
            pos,
            modifiers,
            old(touch_id).pointer_touch_id,
        ).1,
{
    let ghost expected = touch_emulation::<P, K, F>(context, *touch, pos, modifiers, touch_id.pointer_touch_id);
    out.push(
        EguiInputEvent {
            context,
            event: EguiEvent::Touch {
                device_id: touch.window,
                id: touch.id,
                phase: touch.phase,
                pos,
                force: touch.force,
            },
        },
    );
    let drives_pointer = match touch_id.pointer_touch_id {
        None => true,
        Some(active) => active == touch.id,
    };
    if drives_pointer {
        match touch.phase {
            TouchPhase::Start => {
                touch_id.pointer_touch_id = Some(touch.id);
                out.push(EguiInputEvent { context, event: EguiEvent::PointerMoved(pos) });
                out.push(
                    EguiInputEvent {
                        context,
                        event: EguiEvent::PointerButton {
                            pos,
                            button: PointerButton::Primary,
                            pressed: true,
                            modifiers,
                        },
                    },
                );
            },
            TouchPhase::Move => {
                out.push(EguiInputEvent { context, event: EguiEvent::PointerMoved(pos) });
            },
            TouchPhase::End => {
                touch_id.pointer_touch_id = None;
                out.push(
                    EguiInputEvent {
                        context,
                        event: EguiEvent::PointerButton {
                            pos,
                            button: PointerButton::Primary,
                            pressed: false,
                            modifiers,
                        },
                    },
                );
                out.push(EguiInputEvent { context, event: EguiEvent::PointerGone });
            },
            TouchPhase::Cancel => {
                touch_id.pointer_touch_id = None;
                out.push(EguiInputEvent { context, event: EguiEvent::PointerGone });
            },
        }
    }
    proof {
        assert(out@ =~= old(out)@ + expected.0);
    }
}

/// What the window touch translator has written and changed so far: the
/// events, the contexts, and the focused slot.
pub type TouchFrame<P, K, F> = (
    Seq<EguiInputEvent<P, K, F>>,
    Seq<EguiContextState<P>>,
    Option<FocusedNonWindowEguiContext>,
);

/// The context record with the pointer at `pos` and active touch `active`.
pub open spec fn with_pointer<P>(r: EguiContextState<P>, pos: P, active: Option<u64>) -> EguiContextState<P> {
    EguiContextState {
        pointer_position: EguiContextPointerPosition { position: pos },
        pointer_touch_id: EguiContextPointerTouchId { pointer_touch_id: active },
        ..r
    }
}

/// One routed window touch. An event for a context that is gone is skipped.
/// Where focus updates are on, a touch start focuses the hovered context
/// and goes no further, or clears the focus where nothing is hovered. Where
/// the context runs this translator, its pointer moves to the touch and the
/// touch is emulated.
pub open spec fn window_touch_step<P, K, F>(
    s: TouchFrame<P, K, F>,
    pair: (u64, TouchInput<P, F>),
    hovered: Option<HoveredNonWindowEguiContext>,
    focus_updates: bool,
    modifiers: Modifiers,
) -> TouchFrame<P, K, F> {
    let (out, recs, focus) = s;
    let (c, t) = pair;
    match position_of(recs, c) {
        None => s,
        Some(i) => {
            let start = focus_updates && t.phase == TouchPhase::Start;
            if start && hovered is Some {
                (out, recs, focus_from_hover(hovered))
            } else {
                let focus2 = if start { None } else { focus };
                if !recs[i].settings.input_system_settings.run_write_window_touch_events_system {
                    (out, recs, focus2)
                } else {
                    let e = touch_emulation::<P, K, F>(
                        c,
                        t,
                        t.position,
                        modifiers,
                        recs[i].pointer_touch_id.pointer_touch_id,
                    );
                    (out + e.0, recs.update(i, with_pointer(recs[i], t.position, e.1)), focus2)
                }
            }
        },
    }
}

/// The routed window touches of `pairs`, in order.
pub open spec fn window_touch_frame<P, K, F>(
    s: TouchFrame<P, K, F>,
    pairs: Seq<(u64, TouchInput<P, F>)>,
    hovered: Option<HoveredNonWindowEguiContext>,
    focus_updates: bool,
    modifiers: Modifiers,
) -> TouchFrame<P, K, F>
    decreases pairs.len(),
{
    if pairs.len() == 0 {
        s
    } else {
        window_touch_step(
            window_touch_frame(s, pairs.drop_last(), hovered, focus_updates, modifiers),
            pairs.last(),
            hovered,
            focus_updates,
            modifiers,
        )
    }
}

/// Writes the routed window touches of a frame: `pairs` holds each touch with
/// the context it goes to, its position in that context's units.
pub fn write_window_touch_events<P: Copy, K, F: Copy>(
    contexts: &mut ContextTable<P>,
    focused: &mut Option<FocusedNonWindowEguiContext>,
    hovered: Option<HoveredNonWindowEguiContext>,
    focus_updates: bool,
    modifiers: Modifiers,
    pairs: &Vec<(u64, TouchInput<P, F>)>,
    out: &mut Vec<EguiInputEvent<P, K, F>>,
)
    requires
        old(contexts).wf(),
    ensures
        final(contexts).wf(),
        (final(out)@, final(contexts).records@, *final(focused)) == window_touch_frame::<P, K, F>(
            (old(out)@, old(contexts).records@, *old(focused)),
            pairs@,
            hovered,
            focus_updates,
            modifiers,
        ),
{
    let ghost s0: TouchFrame<P, K, F> = (out@, contexts.records@, *focused);
    let mut n: usize = 0;
    while n < pairs.len()
        invariant
            n <= pairs@.len(),
            contexts.wf(),
            (out@, contexts.records@, *focused) == window_touch_frame::<P, K, F>(
                s0,
                pairs@.take(n as int),
                hovered,
                focus_updates,
                modifiers,
            ),
        decreases pairs.len() - n,
    {
        let (context, touch) = &pairs[n];
        proof {
            assert(pairs@.take(n + 1).drop_last() =~= pairs@.take(n as int));
            assert(pairs@.take(n + 1).last() == pairs@[n as int]);
        }
        match contexts.find(*context) {
            None => {},
            Some(i) => {
                let start = focus_updates && touch.phase == TouchPhase::Start;
                if start && hovered.is_some() {
                    *focused = match hovered {
                        Some(h) => Some(FocusedNonWindowEguiContext(h.0)),
                        None => None,
                    };
                } else {
                    if start {
                        *focused = None;
                    }
                    let mut record = contexts.records[i];
                    if record.settings.input_system_settings.run_write_window_touch_events_system {
                        record.pointer_position = EguiContextPointerPosition { position: touch.position };
                        write_touch_event(out, touch, *context, touch.position, modifiers, &mut record.pointer_touch_id);
                        proof {
                            lemma_update_keeps_ids(contexts.records@, i as int, record);
                        }
                        contexts.records.set(i, record);
                    }
                }
            },
        }
        n = n + 1;
    }
    proof {
        assert(pairs@.take(n as int) =~= pairs@);
    }
}

/// The events and contexts after the touches of `touches` reach the focused
/// non-window context: each one, where that context is live and runs this
/// translator, is emulated at the context's own pointer.
pub open spec fn non_window_touches<P, K, F>(
    out: Seq<EguiInputEvent<P, K, F>>,
    recs: Seq<EguiContextState<P>>,
    touches: Seq<TouchInput<P, F>>,
    focused: Option<FocusedNonWindowEguiContext>,
    modifiers: Modifiers,
) -> (Seq<EguiInputEvent<P, K, F>>, Seq<EguiContextState<P>>)
    decreases touches.len(),
{
    if touches.len() == 0 {
        (out, recs)
    } else {
        let (o, r) = non_window_touches(out, recs, touches.drop_last(), focused, modifiers);
        match focused {
            None => (o, r),
            Some(f) => match position_of(r, f.0) {
                None => (o, r),
                Some(i) => if r[i].settings.input_system_settings.run_write_non_window_touch_events_system {
                    let pos = r[i].pointer_position.position;
                    let e = touch_emulation::<P, K, F>(f.0, touches.last(), pos, modifiers, r[i].pointer_touch_id.pointer_touch_id);
                    (o + e.0, r.update(i, with_pointer(r[i], pos, e.1)))
                } else {
                    (o, r)
                },
            },
        }
    }
}

/// Writes the touches of a frame for the focused non-window context.
pub fn write_non_window_touch_events<P: Copy, K, F: Copy>(
    contexts: &mut ContextTable<P>,
    focused: Option<FocusedNonWindowEguiContext>,
    modifiers: Modifiers,
    touches: &Vec<TouchInput<P, F>>,
    out: &mut Vec<EguiInputEvent<P, K, F>>,
)
    requires
        old(contexts).wf(),
    ensures
        final(contexts).wf(),
        (final(out)@, final(contexts).records@) == non_window_touches::<P, K, F>(
            old(out)@,
            old(contexts).records@,
            touches@,
            focused,
            modifiers,
        ),
{
    let ghost out0 = out@;
    let ghost recs0 = contexts.records@;
    let mut n: usize = 0;
    while n < touches.len()
        invariant
            n <= touches@.len(),
            contexts.wf(),
            (out@, contexts.records@) == non_window_touches::<P, K, F>(
                out0,
                recs0,
                touches@.take(n as int),
                focused,
                modifiers,
            ),
        decreases touches.len() - n,
    {
        let touch = &touches[n];
        proof {
            assert(touches@.take(n + 1).drop_last() =~= touches@.take(n as int));
        }
        if let Some(f) = focused {
            if let Some(i) = contexts.find(f.0) {
                let mut record = contexts.records[i];
                if record.settings.input_system_settings.run_write_non_window_touch_events_system {
                    let pos = record.pointer_position.position;
                    write_touch_event(out, touch, f.0, pos, modifiers, &mut record.pointer_touch_id);
                    proof {
                        lemma_update_keeps_ids(contexts.records@, i as int, record);
                    }
                    contexts.records.set(i, record);
                }
            }
        }
        n = n + 1;
    }
    proof {
        assert(touches@.take(n as int) =~= touches@);
    }
}

/// Touch-start then touch-end of the same touch at the same place, on a
/// context with no active touch: the pointer moves there, the primary button
/// goes down, then up, then the pointer leaves, and no touch is active after.
pub proof fn touch_tap_emulates_click<P, K, F>(
    context: u64,
    start: TouchInput<P, F>,
    end: TouchInput<P, F>,
    modifiers: Modifiers,
)
    requires
        start.phase == TouchPhase::Start,
        end.phase == TouchPhase::End,
        start.id == end.id,
        start.position == end.position,
    ensures
        ({
            let first = touch_emulation::<P, K, F>(context, start, start.position, modifiers, None);
            let second = touch_emulation::<P, K, F>(context, end, end.position, modifiers, first.1);
            let p = start.position;
            &&& second.1 is None
            &&& (first.0 + second.0).len() == 6
            &&& (first.0 + second.0)[1].event == EguiEvent::<P, K, F>::PointerMoved(p)
            &&& (first.0 + second.0)[2].event == EguiEvent::<P, K, F>::PointerButton {
                pos: p, button: PointerButton::Primary, pressed: true, modifiers }
            &&& (first.0 + second.0)[4].event == EguiEvent::<P, K, F>::PointerButton {
                pos: p, button: PointerButton::Primary, pressed: false, modifiers }
            &&& (first.0 + second.0)[5].event == EguiEvent::<P, K, F>::PointerGone
            &&& (first.0 + second.0)[0].event is Touch && (first.0 + second.0)[3].event is Touch
        }),
{
}

/// Touch-start then touch-cancel of the same touch, on a context with no
/// active touch: the pointer moves there, the primary button goes down, and
/// the pointer leaves with no release.
pub proof fn touch_cancel_leaves_without_release<P, K, F>(
    context: u64,
    start: TouchInput<P, F>,
    cancel: TouchInput<P, F>,
    modifiers: Modifiers,
)
    requires
        start.phase == TouchPhase::Start,
        cancel.phase == TouchPhase::Cancel,
        start.id == cancel.id,
    ensures
        ({
            let first = touch_emulation::<P, K, F>(context, start, start.position, modifiers, None);
            let second = touch_emulation::<P, K, F>(context, cancel, cancel.position, modifiers, first.1);
            let p = start.position;
            &&& second.1 is None
            &&& (first.0 + second.0).len() == 5
            &&& (first.0 + second.0)[1].event == EguiEvent::<P, K, F>::PointerMoved(p)
            &&& (first.0 + second.0)[2].event == EguiEvent::<P, K, F>::PointerButton {
                pos: p, button: PointerButton::Primary, pressed: true, modifiers }
            &&& (first.0 + second.0)[4].event == EguiEvent::<P, K, F>::PointerGone
            &&& (first.0 + second.0)[0].event is Touch && (first.0 + second.0)[3].event is Touch
        }),
{
}

} // verus!
