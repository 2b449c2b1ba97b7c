//! The per-context input buffers: routed events go in, in arrival order,
//! and each buffer is stamped with focus and modifiers once a frame.
use vstd::prelude::*;

use crate::context::{position_of, ContextTable, EguiContextState};
use crate::events::{EguiEvent, EguiFileDragAndDropEvent, EguiInputEvent, FileDragAndDrop};
use crate::index::WindowToEguiContextMap;
use crate::modifiers::Modifiers;
use crate::routing::FocusedNonWindowEguiContext;

verus! {

/// The input a context takes at the start of its next pass.
pub struct EguiInput<P, K, F, D> {
    /// The context the buffer belongs to.
    pub context: u64,
    pub events: Vec<EguiEvent<P, K, F>>,
    /// Files dragged over the context and not dropped yet.
    pub hovered_files: Vec<D>,
    pub dropped_files: Vec<D>,
    pub focused: bool,
    pub modifiers: Modifiers,
}

/// The OS focus flag of a window.
#[derive(Clone, Copy, Debug, PartialEq, Eq, Structural)]
pub struct WindowFocus {
    pub window: u64,
    pub focused: bool,
}

impl<P, K, F, D> EguiInput<P, K, F, D> {
    /// An empty buffer for context `context`.
    pub fn new(context: u64) -> (r: EguiInput<P, K, F, D>)
        ensures
            r.context == context,
            r.events@.len() == 0,
            r.hovered_files@.len() == 0,
            r.dropped_files@.len() == 0,
            !r.focused,
            r.modifiers == (Modifiers { alt: false, ctrl: false, shift: false, mac_cmd: false, command: false }),
    {
        EguiInput {
            context,
            events: Vec::new(),
            hovered_files: Vec::new(),
            dropped_files: Vec::new(),
            focused: false,
            modifiers: Modifiers { alt: false, ctrl: false, shift: false, mac_cmd: false, command: false },
        }
    }

    /// Moves the pending events and dropped files out, leaving none: what
    /// a pass begins with. Hovered files stay until a drop or a cancel.
    pub fn take(&mut self) -> (r: (Vec<EguiEvent<P, K, F>>, Vec<D>))
        ensures
            r.0@ == old(self).events@,
            r.1@ == old(self).dropped_files@,
            final(self).events@.len() == 0,
            final(self).dropped_files@.len() == 0,
            final(self).context == old(self).context,
            final(self).hovered_files@ == old(self).hovered_files@,
            final(self).focused == old(self).focused,
            final(self).modifiers == old(self).modifiers,
    {
        let mut events: Vec<EguiEvent<P, K, F>> = Vec::new();
        std::mem::swap(&mut events, &mut self.events);
        let mut dropped: Vec<D> = Vec::new();
        std::mem::swap(&mut dropped, &mut self.dropped_files);
        (events, dropped)
    }
}

/// No context has two buffers.
pub open spec fn buffers_unique<P, K, F, D>(s: Seq<EguiInput<P, K, F, D>>) -> bool {
    forall|i: int, j: int|
        0 <= i < s.len() && 0 <= j < s.len() && #[trigger] s[i].context == #[trigger] s[j].context ==> i == j
}

/// The events of `evs` that go to context `c`, in order.
pub open spec fn events_for<P, K, F>(evs: Seq<EguiInputEvent<P, K, F>>, c: u64) -> Seq<EguiEvent<P, K, F>>
    decreases evs.len(),
{
    if evs.len() == 0 {
        Seq::empty()
    } else if evs.last().context == c {
        events_for(evs.drop_last(), c).push(evs.last().event)
    } else {
        events_for(evs.drop_last(), c)
    }
}

/// Where the buffer of context `c` stands.
pub fn find_buffer<P, K, F, D>(inputs: &Vec<EguiInput<P, K, F, D>>, c: u64) -> (r: Option<usize>)
    ensures
        match r {
            Some(i) => i < inputs@.len() && inputs@[i as int].context == c,
            None => forall|i: int| 0 <= i < inputs@.len() ==> inputs@[i].context != c,
        },
{
    let mut i: usize = 0;
    while i < inputs.len()
        invariant
            i <= inputs@.len(),
            forall|k: int| 0 <= k < i ==> inputs@[k].context != c,
        decreases inputs.len() - i,
    {
        if inputs[i].context == c {
            return Some(i);
        }
        i = i + 1;
    }
    None
}

/// Puts each routed event into its context's buffer, in arrival order; an
/// event for a context without a buffer is dropped.
pub fn deliver_events<P, K, F, D>(inputs: &mut Vec<EguiInput<P, K, F, D>>, events: Vec<EguiInputEvent<P, K, F>>)
    requires
        buffers_unique(old(inputs)@),
    ensures
        final(inputs)@.len() == old(inputs)@.len(),
        forall|i: int|
            #![trigger final(inputs)@[i]]
            0 <= i < old(inputs)@.len() ==> {
                &&& final(inputs)@[i].context == old(inputs)@[i].context
                &&& final(inputs)@[i].events@ == old(inputs)@[i].events@ + events_for(events@, old(inputs)@[i].context)
                &&& final(inputs)@[i].hovered_files@ == old(inputs)@[i].hovered_files@
                &&& final(inputs)@[i].dropped_files@ == old(inputs)@[i].dropped_files@
                &&& final(inputs)@[i].focused == old(inputs)@[i].focused
                &&& final(inputs)@[i].modifiers == old(inputs)@[i].modifiers
            },
{
    let ghost start = inputs@;
    let ghost all = events@;
    let total: usize = events.len();
    let mut events = events;
    let mut n: usize = 0;
    while events.len() > 0
        invariant
            n + events@.len() == all.len(),
            all.len() == total,
            events@ == all.skip(n as int),
            inputs@.len() == start.len(),
            buffers_unique(start),
            forall|i: int|
                #![trigger inputs@[i]]
                0 <= i < start.len() ==> {
                    &&& inputs@[i].context == start[i].context
                    &&& inputs@[i].events@ == start[i].events@ + events_for(all.take(n as int), start[i].context)
                    &&& inputs@[i].hovered_files@ == start[i].hovered_files@
                    &&& inputs@[i].dropped_files@ == start[i].dropped_files@
                    &&& inputs@[i].focused == start[i].focused
                    &&& inputs@[i].modifiers == start[i].modifiers
                },
        decreases events.len(),
    {
        let e = events.remove(0);
        proof {
            assert(all.take(n + 1).drop_last() =~= all.take(n as int));
            assert(all[n as int] == e);
            assert(events@ =~= all.skip(n + 1));
        }
        let ghost before = inputs@;
        let target = find_buffer(inputs, e.context);
        if let Some(j) = target {
            let mut buffer = inputs.remove(j);
            buffer.events.push(e.event);
            inputs.insert(j, buffer);
            proof {
                assert(inputs@ =~= before.update(j as int, buffer));
            }
        }
        proof {
            assert forall|i: int|
                #![trigger inputs@[i]]
                0 <= i < start.len() implies {
                    &&& inputs@[i].context == start[i].context
                    &&& inputs@[i].events@ == start[i].events@ + events_for(all.take(n + 1), start[i].context)
                    &&& inputs@[i].hovered_files@ == start[i].hovered_files@
                    &&& inputs@[i].dropped_files@ == start[i].dropped_files@
                    &&& inputs@[i].focused == start[i].focused
                    &&& inputs@[i].modifiers == start[i].modifiers
                } by {
                assert(before[i].context == start[i].context);
                let ts = all.take(n + 1);
                assert(ts.last() == e);
                if start[i].context == e.context {
                    assert(before[i].context == e.context);
                    let j = target->0;
                    assert(before[j as int].context == e.context);
                    assert(start[j as int].context == start[i].context);
                    assert(j == i);
                    assert(inputs@[i].events@ =~= start[i].events@ + events_for(ts, start[i].context));
                } else if let Some(j) = target {
                    assert(j != i);
                }
            }
        }
        n = n + 1;
    }
    proof {
        assert(all.take(n as int) =~= all);
    }
}

/// The hovered and dropped files of context `c` after the drag-and-drop
/// events of `evs`: a hovered file joins the hovered list; a drop ends the
/// hover and joins the dropped list; a cancel ends the hover.
pub open spec fn files_for<D>(
    hovered: Seq<D>,
    dropped: Seq<D>,
    evs: Seq<EguiFileDragAndDropEvent<D>>,
    c: u64,
) -> (Seq<D>, Seq<D>)
    decreases evs.len(),
{
    if evs.len() == 0 {
        (hovered, dropped)
    } else {
        let (h, d) = files_for(hovered, dropped, evs.drop_last(), c);
        if evs.last().context != c {
            (h, d)
        } else {
            match evs.last().event {
                FileDragAndDrop::DroppedFile { path, .. } => (Seq::empty(), d.push(path)),
                FileDragAndDrop::HoveredFile { path, .. } => (h.push(path), d),
                FileDragAndDrop::HoveredFileCanceled { .. } => (Seq::empty(), d),
            }
        }
    }
}

/// Applies each routed drag-and-drop event to its context's buffer, in
/// arrival order; an event for a context without a buffer is dropped.
pub fn deliver_file_events<P, K, F, D>(inputs: &mut Vec<EguiInput<P, K, F, D>>, events: Vec<EguiFileDragAndDropEvent<D>>)
    requires
        buffers_unique(old(inputs)@),
    ensures
        final(inputs)@.len() == old(inputs)@.len(),
        forall|i: int|
            #![trigger final(inputs)@[i]]
            0 <= i < old(inputs)@.len() ==> {
                &&& final(inputs)@[i].context == old(inputs)@[i].context
                &&& final(inputs)@[i].events@ == old(inputs)@[i].events@
                &&& (final(inputs)@[i].hovered_files@, final(inputs)@[i].dropped_files@) == files_for(
                    old(inputs)@[i].hovered_files@,
                    old(inputs)@[i].dropped_files@,
                    events@,
                    old(inputs)@[i].context,
                )
                &&& final(inputs)@[i].focused == old(inputs)@[i].focused
                &&& final(inputs)@[i].modifiers == old(inputs)@[i].modifiers
            },
{
    let ghost start = inputs@;
    let ghost all = events@;
    let total: usize = events.len();
    let mut events = events;
    let mut n: usize = 0;
    while events.len() > 0
        invariant
            n + events@.len() == all.len(),
            all.len() == total,
            events@ == all.skip(n as int),
            inputs@.len() == start.len(),
            buffers_unique(start),
            forall|i: int|
                #![trigger inputs@[i]]
                0 <= i < start.len() ==> {
                    &&& inputs@[i].context == start[i].context
                    &&& inputs@[i].events@ == start[i].events@
                    &&& (inputs@[i].hovered_files@, inputs@[i].dropped_files@) == files_for(
                        start[i].hovered_files@,
                        start[i].dropped_files@,
                        all.take(n as int),
                        start[i].context,
                    )
                    &&& inputs@[i].focused == start[i].focused
                    &&& inputs@[i].modifiers == start[i].modifiers
                },
        decreases events.len(),
    {
        let e = events.remove(0);
        proof {
            assert(all.take(n + 1).drop_last() =~= all.take(n as int));
            assert(all[n as int] == e);
            assert(events@ =~= all.skip(n + 1));
        }
        let ghost before = inputs@;
        let target = find_buffer(inputs, e.context);
        if let Some(j) = target {
            let mut buffer = inputs.remove(j);
            match e.event {
                FileDragAndDrop::DroppedFile { path, .. } => {
                    buffer.hovered_files.clear();
                    buffer.dropped_files.push(path);
                },
                FileDragAndDrop::HoveredFile { path, .. } => {
                    buffer.hovered_files.push(path);
                },
                FileDragAndDrop::HoveredFileCanceled { .. } => {
                    buffer.hovered_files.clear();
                },
            }
            inputs.insert(j, buffer);
            proof {
                assert(inputs@ =~= before.update(j as int, buffer));
            }
        }
        proof {
            assert forall|i: int|
                #![trigger inputs@[i]]
                0 <= i < start.len() implies {
                    &&& inputs@[i].context == start[i].context
                    &&& inputs@[i].events@ == start[i].events@
                    &&& (inputs@[i].hovered_files@, inputs@[i].dropped_files@) == files_for(
                        start[i].hovered_files@,
                        start[i].dropped_files@,
                        all.take(n + 1),
                        start[i].context,
                    )
                    &&& inputs@[i].focused == start[i].focused
                    &&& inputs@[i].modifiers == start[i].modifiers
                } by {
                assert(before[i].context == start[i].context);
                let ts = all.take(n + 1);
                assert(ts.last() == e);
                if start[i].context == e.context {
                    let j = target->0;
                    assert(before[j as int].context == e.context);
                    assert(start[j as int].context == start[i].context);
                    assert(j == i);
                    assert(inputs@[i].hovered_files@ =~= files_for(
                        start[i].hovered_files@,
                        start[i].dropped_files@,
                        ts,
                        start[i].context,
                    ).0);
                    assert(inputs@[i].dropped_files@ =~= files_for(
                        start[i].hovered_files@,
                        start[i].dropped_files@,
                        ts,
                        start[i].context,
                    ).1);
                } else if let Some(j) = target {
                    assert(j != i);
                }
            }
        }
        n = n + 1;
    }
    proof {
        assert(all.take(n as int) =~= all);
    }
}

/// Whether window `w` reports OS focus: the flag of its first entry in
/// `windows`, and not where it has none.
pub open spec fn window_has_focus(windows: Seq<WindowFocus>, w: u64) -> bool {
    exists|k: int|
        0 <= k < windows.len() && windows[k].window == w && #[trigger] windows[k].focused && forall|j: int|
            0 <= j < k ==> #[trigger] windows[j].window != w
}

/// Whether context `c` has focus: it is the focused non-window context, or,
/// where no context holds that slot, its window reports OS focus.
pub open spec fn context_has_focus(
    focused: Option<FocusedNonWindowEguiContext>,
    map: WindowToEguiContextMap,
    windows: Seq<WindowFocus>,
    c: u64,
) -> bool {
    match focused {
        Some(f) => f.0 == c,
        None => match map.window_of(c) {
            Some(w) => window_has_focus(windows, w),
            None => false,
        },
    }
}

/// Whether window `w` reports OS focus.
pub fn window_focused(windows: &Vec<WindowFocus>, w: u64) -> (r: bool)
    ensures
        r == window_has_focus(windows@, w),
{
    let mut k: usize = 0;
    while k < windows.len()
        invariant
            k <= windows@.len(),
            forall|j: int| 0 <= j < k ==> #[trigger] windows@[j].window != w,
        decreases windows.len() - k,
    {
        if windows[k].window == w {
            proof {
                if !windows@[k as int].focused {
                    assert forall|kk: int|
                        !(0 <= kk < windows@.len() && windows@[kk].window == w && #[trigger] windows@[kk].focused
                            && forall|j: int| 0 <= j < kk ==> #[trigger] windows@[j].window != w) by {
                        if 0 <= kk < windows@.len() && windows@[kk].window == w && windows@[kk].focused {
                            if kk > k {
                                assert(windows@[k as int].window == w);
                            }
                        }
                    }
                }
            }
            return windows[k].focused;
        }
        k = k + 1;
    }
    false
}

/// Stamps each buffer with its context's focus and the frame's modifiers.
pub fn stamp_inputs<P, K, F, D>(
    inputs: &mut Vec<EguiInput<P, K, F, D>>,
    focused: Option<FocusedNonWindowEguiContext>,
    map: &WindowToEguiContextMap,
    windows: &Vec<WindowFocus>,
    modifiers: Modifiers,
)
    ensures
        final(inputs)@.len() == old(inputs)@.len(),
        forall|i: int|
            #![trigger final(inputs)@[i]]
            0 <= i < old(inputs)@.len() ==> {
                &&& final(inputs)@[i].context == old(inputs)@[i].context
                &&& final(inputs)@[i].events@ == old(inputs)@[i].events@
                &&& final(inputs)@[i].hovered_files@ == old(inputs)@[i].hovered_files@
                &&& final(inputs)@[i].dropped_files@ == old(inputs)@[i].dropped_files@
                &&& final(inputs)@[i].focused == context_has_focus(focused, *map, windows@, old(inputs)@[i].context)
                &&& final(inputs)@[i].modifiers == modifiers
            },
{
    let ghost start = inputs@;
    let mut n: usize = 0;
    while n < inputs.len()
        invariant
            n <= inputs@.len(),
            inputs@.len() == start.len(),
            forall|i: int|
                #![trigger inputs@[i]]
                0 <= i < start.len() ==> {
                    &&& inputs@[i].context == start[i].context
                    &&& inputs@[i].events@ == start[i].events@
                    &&& inputs@[i].hovered_files@ == start[i].hovered_files@
                    &&& inputs@[i].dropped_files@ == start[i].dropped_files@
                    &&& i < n ==> inputs@[i].focused == context_has_focus(focused, *map, windows@, start[i].context)
                    &&& i < n ==> inputs@[i].modifiers == modifiers
                    &&& i >= n ==> inputs@[i].focused == start[i].focused
                    &&& i >= n ==> inputs@[i].modifiers == start[i].modifiers
                },
        decreases inputs.len() - n,
    {
        let ghost before = inputs@;
        let mut buffer = inputs.remove(n);
        let has_focus = match focused {
            Some(f) => f.0 == buffer.context,
            None => match map.window(buffer.context) {
                Some(w) => window_focused(windows, w),
                None => false,
            },
        };
        buffer.focused = has_focus;
        buffer.modifiers = modifiers;
        inputs.insert(n, buffer);
        proof {
            assert(inputs@ =~= before.update(n as int, buffer));
        }
        n = n + 1;
    }
}

/// Fills the buffers for a frame: the routed events and drag-and-drop events
/// in arrival order, then focus and modifiers.
pub fn write_egui_input<P, K, F, D>(
    inputs: &mut Vec<EguiInput<P, K, F, D>>,
    events: Vec<EguiInputEvent<P, K, F>>,
    file_events: Vec<EguiFileDragAndDropEvent<D>>,
    focused: Option<FocusedNonWindowEguiContext>,
    map: &WindowToEguiContextMap,
    windows: &Vec<WindowFocus>,
    modifiers: Modifiers,
)
    requires
        buffers_unique(old(inputs)@),
    ensures
        final(inputs)@.len() == old(inputs)@.len(),
        forall|i: int|
            #![trigger final(inputs)@[i]]
            0 <= i < old(inputs)@.len() ==> {
                &&& final(inputs)@[i].context == old(inputs)@[i].context
                &&& final(inputs)@[i].events@ == old(inputs)@[i].events@ + events_for(events@, old(inputs)@[i].context)
                &&& (final(inputs)@[i].hovered_files@, final(inputs)@[i].dropped_files@) == files_for(
                    old(inputs)@[i].hovered_files@,
                    old(inputs)@[i].dropped_files@,
                    file_events@,
                    old(inputs)@[i].context,
                )
                &&& final(inputs)@[i].focused == context_has_focus(focused, *map, windows@, old(inputs)@[i].context)
                &&& final(inputs)@[i].modifiers == modifiers
            },
{
    let ghost start = inputs@;
    let ghost evs = events@;
    let ghost fevs = file_events@;
    deliver_events(inputs, events);
    let ghost mid = inputs@;
    proof {
        assert forall|i: int, j: int|
            0 <= i < mid.len() && 0 <= j < mid.len() && #[trigger] mid[i].context == #[trigger] mid[j].context implies i == j by {
            assert(mid[i].context == start[i].context);
            assert(mid[j].context == start[j].context);
        }
    }
    deliver_file_events(inputs, file_events);
    let ghost mid2 = inputs@;
    stamp_inputs(inputs, focused, map, windows, modifiers);
    proof {
        assert forall|i: int|
            #![trigger inputs@[i]]
            0 <= i < start.len() implies {
                &&& inputs@[i].context == start[i].context
                &&& inputs@[i].events@ == start[i].events@ + events_for(evs, start[i].context)
                &&& (inputs@[i].hovered_files@, inputs@[i].dropped_files@) == files_for(
                    start[i].hovered_files@,
                    start[i].dropped_files@,
                    fevs,
                    start[i].context,
                )
                &&& inputs@[i].focused == context_has_focus(focused, *map, windows@, start[i].context)
                &&& inputs@[i].modifiers == modifiers
            } by {
            assert(mid[i].context == start[i].context);
            assert(mid2[i].context == mid[i].context);
        }
    }
}

/// The drag-and-drop events after the routed ones of `pairs`: each one for a
/// live context that runs this translator is addressed to it.
pub open spec fn file_events_for<P, D>(
    out: Seq<EguiFileDragAndDropEvent<D>>,
    recs: Seq<EguiContextState<P>>,
    pairs: Seq<(u64, FileDragAndDrop<D>)>,
) -> Seq<EguiFileDragAndDropEvent<D>>
    decreases pairs.len(),
{
    if pairs.len() == 0 {
        out
    } else {
        let o = file_events_for(out, recs, pairs.drop_last());
        let (c, e) = pairs.last();
        match position_of(recs, c) {
            Some(i) => if recs[i].settings.input_system_settings.run_write_file_dnd_events_system {
                o.push(EguiFileDragAndDropEvent { context: c, event: e })
            } else {
                o
            },
            None => o,
        }
    }
}

/// Addresses the routed drag-and-drop events of a frame, taking them in
/// order.
pub fn write_file_dnd_events<P, D>(
    contexts: &ContextTable<P>,
    pairs: Vec<(u64, FileDragAndDrop<D>)>,
    out: &mut Vec<EguiFileDragAndDropEvent<D>>,
)
    requires
        contexts.wf(),
    ensures
        final(out)@ == file_events_for(old(out)@, contexts.records@, pairs@),
{
    let ghost out0 = out@;
    let ghost all = pairs@;
    let total: usize = pairs.len();
    let mut pairs = pairs;
    let mut n: usize = 0;
    while pairs.len() > 0
        invariant
            n + pairs@.len() == all.len(),
            all.len() == total,
            pairs@ == all.skip(n as int),
            contexts.wf(),
            out@ == file_events_for(out0, contexts.records@, all.take(n as int)),
        decreases pairs.len(),
    {
        let (context, event) = pairs.remove(0);
        proof {
            assert(all.take(n + 1).drop_last() =~= all.take(n as int));
            assert(all[n as int] == (context, event));
            assert(pairs@ =~= all.skip(n + 1));
        }
        if let Some(i) = contexts.find(context) {
            if contexts.records[i].settings.input_system_settings.run_write_file_dnd_events_system {
                out.push(EguiFileDragAndDropEvent { context, event });
            }
        }
        n = n + 1;
    }
    proof {
        assert(all.take(n as int) =~= all);
    }
}

} // verus!
