//! Which contexts an event goes to: by its window through the index, or to
//! the single context that a redirection slot names.
use vstd::prelude::*;

use crate::index::WindowToEguiContextMap;

verus! {

/// The non-window context that the pointer hovers, as set by a hit test
/// outside this library.
#[derive(Clone, Copy, Debug, PartialEq, Eq, Structural)]
pub struct HoveredNonWindowEguiContext(pub u64);

/// The non-window context that keyboard input goes to.
#[derive(Clone, Copy, Debug, PartialEq, Eq, Structural)]
pub struct FocusedNonWindowEguiContext(pub u64);

/// The focused slot that a press or touch start leaves: the hovered context,
/// or none.
pub open spec fn focus_from_hover(hovered: Option<HoveredNonWindowEguiContext>) -> Option<
    FocusedNonWindowEguiContext,
> {
    match hovered {
        Some(h) => Some(FocusedNonWindowEguiContext(h.0)),
        None => None,
    }
}

/// What `pairs` must be for events from `windows`: with a redirect target,
/// each event once, paired with the target; without one, each event paired
/// with each context of its window once, events kept in order.
pub open spec fn is_fan_out(
    map: WindowToEguiContextMap,
    windows: Seq<u64>,
    redirect: Option<u64>,
    pairs: Seq<(usize, u64)>,
) -> bool {
    match redirect {
        Some(t) => pairs.len() == windows.len() && forall|k: int|
            0 <= k < pairs.len() ==> #[trigger] pairs[k] == (k as usize, t),
        None => {
            &&& pairs.no_duplicates()
            &&& forall|k: int|
                0 <= k < pairs.len() ==> {
                    &&& (#[trigger] pairs[k]).0 < windows.len()
                    &&& map.contexts_of(windows[pairs[k].0 as int]).contains(pairs[k].1)
                }
            &&& forall|k: int, l: int| 0 <= k < l < pairs.len() ==> #[trigger] pairs[k].0 <= #[trigger] pairs[l].0
            &&& forall|e: int, c: u64|
                0 <= e < windows.len() && #[trigger] map.contexts_of(windows[e]).contains(c)
                    ==> pairs.contains((e as usize, c))
        },
    }
}

/// Pairs each event of `windows` (given by its window) with the contexts it
/// goes to. A redirect target takes every event and bypasses the index; an
/// event whose window has no context yields no pair.
pub fn fan_out(map: &WindowToEguiContextMap, windows: &Vec<u64>, redirect: Option<u64>) -> (r: Vec<
    (usize, u64),
>)
    ensures
        is_fan_out(*map, windows@, redirect, r@),
{
    let mut pairs: Vec<(usize, u64)> = Vec::new();
    if let Some(target) = redirect {
        let mut i: usize = 0;
        while i < windows.len()
            invariant
                i <= windows.len(),
                pairs@.len() == i,
                forall|k: int| 0 <= k < i ==> #[trigger] pairs@[k] == (k as usize, target),
            decreases windows.len() - i,
        {
            pairs.push((i, target));
            i = i + 1;
        }
        return pairs;
    }
    let mut i: usize = 0;
    while i < windows.len()
        invariant
            i <= windows.len(),
            pairs@.no_duplicates(),
            forall|k: int|
                0 <= k < pairs@.len() ==> {
                    &&& (#[trigger] pairs@[k]).0 < i
                    &&& map.contexts_of(windows@[pairs@[k].0 as int]).contains(pairs@[k].1)
                },
            forall|k: int, l: int|
                0 <= k < l < pairs@.len() ==> #[trigger] pairs@[k].0 <= #[trigger] pairs@[l].0,
            forall|e: int, c: u64|
                0 <= e < i && #[trigger] map.contexts_of(windows@[e]).contains(c) ==> pairs@.contains(
                    (e as usize, c),
                ),
        decreases windows.len() - i,
    {
        let contexts = map.contexts(windows[i]);
        let ghost start = pairs@;
        let mut j: usize = 0;
        while j < contexts.len()
            invariant
                i < windows.len(),
                j <= contexts.len(),
                contexts@.no_duplicates(),
                contexts@.to_set() == map.contexts_of(windows@[i as int]),
                start.no_duplicates(),
                forall|k: int| 0 <= k < start.len() ==> (#[trigger] start[k]).0 < i,
                pairs@.len() == start.len() + j,
                forall|k: int| 0 <= k < start.len() ==> #[trigger] pairs@[k] == start[k],
                forall|m: int| 0 <= m < j ==> #[trigger] pairs@[start.len() + m] == (i, contexts@[m]),
            decreases contexts.len() - j,
        {
            pairs.push((i, contexts[j]));
            j = j + 1;
        }
        proof {
            assert forall|k: int| 0 <= k < pairs@.len() implies {
                &&& (#[trigger] pairs@[k]).0 < i + 1
                &&& map.contexts_of(windows@[pairs@[k].0 as int]).contains(pairs@[k].1)
            } by {
                if k >= start.len() {
                    let m = k - start.len();
                    assert(pairs@[start.len() + m] == (i, contexts@[m]));
                    assert(contexts@.to_set().contains(contexts@[m]));
                } else {
                    assert(pairs@[k] == start[k]);
                }
            }
            assert forall|k: int, l: int|
                0 <= k < l < pairs@.len() implies #[trigger] pairs@[k].0 <= #[trigger] pairs@[l].0 by {
                if l >= start.len() {
                    assert(pairs@[start.len() + (l - start.len())] == (i, contexts@[l - start.len()]));
                    if k >= start.len() {
                        assert(pairs@[start.len() + (k - start.len())] == (i, contexts@[k - start.len()]));
                    } else {
                        assert(pairs@[k] == start[k]);
                    }
                } else {
                    assert(pairs@[k] == start[k]);
                    assert(pairs@[l] == start[l]);
                }
            }
            assert forall|k: int, l: int|
                0 <= k < l < pairs@.len() implies pairs@[k] != pairs@[l] by {
                if l >= start.len() {
                    assert(pairs@[start.len() + (l - start.len())] == (i, contexts@[l - start.len()]));
                    if k >= start.len() {
                        assert(pairs@[start.len() + (k - start.len())] == (i, contexts@[k - start.len()]));
                    } else {
                        assert(pairs@[k] == start[k]);
                    }
                } else {
                    assert(pairs@[k] == start[k]);
                    assert(pairs@[l] == start[l]);
                }
            }
            assert forall|e: int, c: u64|
                0 <= e < i + 1 && #[trigger] map.contexts_of(windows@[e]).contains(c)
                    implies pairs@.contains((e as usize, c)) by {
                if e == i {
                    assert(contexts@.to_set().contains(c));
                    let m = choose|m: int| 0 <= m < contexts@.len() && contexts@[m] == c;
                    assert(pairs@[start.len() + m] == (i, c));
                } else {
                    assert(start.contains((e as usize, c)));
                    let k = choose|k: int| 0 <= k < start.len() && start[k] == (e as usize, c);
                    assert(pairs@[k] == start[k]);
                }
            }
        }
        i = i + 1;
    }
    pairs
}

/// Reads events with the index and the two redirection slots of a frame.
pub struct EguiContextEventReader {
    pub hovered_non_window_egui_context: Option<HoveredNonWindowEguiContext>,
    pub focused_non_window_egui_context: Option<FocusedNonWindowEguiContext>,
}

/// The context that a hovered slot names.
pub open spec fn hovered_target(s: Option<HoveredNonWindowEguiContext>) -> Option<u64> {
    match s {
        Some(h) => Some(h.0),
        None => None,
    }
}

/// The context that a focused slot names.
pub open spec fn focused_target(s: Option<FocusedNonWindowEguiContext>) -> Option<u64> {
    match s {
        Some(f) => Some(f.0),
        None => None,
    }
}

impl EguiContextEventReader {
    /// Pairs events with the contexts of their windows only.
    pub fn read(&self, map: &WindowToEguiContextMap, windows: &Vec<u64>) -> (r: Vec<(usize, u64)>)
        ensures
            is_fan_out(*map, windows@, None, r@),
    {
        fan_out(map, windows, None)
    }

    /// Pairs events with the hovered non-window context where there is one,
    /// else with the contexts of their windows.
    pub fn read_with_non_window_hovered(
        &self,
        map: &WindowToEguiContextMap,
        windows: &Vec<u64>,
    ) -> (r: Vec<(usize, u64)>)
        ensures
            is_fan_out(*map, windows@, hovered_target(self.hovered_non_window_egui_context), r@),
    {
        let target = match self.hovered_non_window_egui_context {
            Some(h) => Some(h.0),
            None => None,
        };
        fan_out(map, windows, target)
    }

    /// Pairs events with the focused non-window context where there is one,
    /// else with the contexts of their windows.
    pub fn read_with_non_window_focused(
        &self,
        map: &WindowToEguiContextMap,
        windows: &Vec<u64>,
    ) -> (r: Vec<(usize, u64)>)
        ensures
            is_fan_out(*map, windows@, focused_target(self.focused_non_window_egui_context), r@),
    {
        let target = match self.focused_non_window_egui_context {
            Some(f) => Some(f.0),
            None => None,
        };
        fan_out(map, windows, target)
    }
}

/// Without a redirect target, an event whose window holds `n` contexts
/// yields exactly `n` pairs, one per context.
pub proof fn fan_out_yields_each_context_once(
    map: WindowToEguiContextMap,
    window: u64,
    pairs: Seq<(usize, u64)>,
)
    requires
        is_fan_out(map, seq![window], None, pairs),
    ensures
        pairs.len() == map.contexts_of(window).len(),
        pairs.map_values(|p: (usize, u64)| p.1).to_set() == map.contexts_of(window),
        pairs.map_values(|p: (usize, u64)| p.1).no_duplicates(),
{
    let cs = pairs.map_values(|p: (usize, u64)| p.1);
    let windows = seq![window];
    assert forall|k: int| 0 <= k < pairs.len() implies #[trigger] pairs[k].0 == 0 by {
        assert(pairs[k].0 < windows.len());
    }
    assert forall|k: int, l: int| 0 <= k < l < cs.len() implies cs[k] != cs[l] by {
        assert(pairs[k].0 == 0 && pairs[l].0 == 0);
        assert(pairs[k] != pairs[l]);
    }
    assert forall|c: u64| cs.to_set().contains(c) <==> map.contexts_of(window).contains(c) by {
        if cs.to_set().contains(c) {
            let k = choose|k: int| 0 <= k < cs.len() && cs[k] == c;
            assert(pairs[k].0 < windows.len());
            assert(map.contexts_of(windows[pairs[k].0 as int]).contains(pairs[k].1));
        }
        if map.contexts_of(window).contains(c) {
            assert(map.contexts_of(windows[0]).contains(c));
            assert(pairs.contains((0usize, c)));
            let k = choose|k: int| 0 <= k < pairs.len() && pairs[k] == (0usize, c);
            assert(cs[k] == c);
        }
    }
    assert(cs.to_set() =~= map.contexts_of(window));
    cs.unique_seq_to_set();
}

/// With a redirect target, every event yields exactly one pair, with the
/// target, whatever the index holds.
pub proof fn redirect_takes_every_event(
    map: WindowToEguiContextMap,
    windows: Seq<u64>,
    target: u64,
    pairs: Seq<(usize, u64)>,
)
    requires
        is_fan_out(map, windows, Some(target), pairs),
        windows.len() <= usize::MAX,
    ensures
        pairs.len() == windows.len(),
        forall|k: int| 0 <= k < pairs.len() ==> (#[trigger] pairs[k]).1 == target && pairs[k].0 == k,
{
    assert forall|k: int| 0 <= k < pairs.len() implies (#[trigger] pairs[k]).1 == target && pairs[k].0 == k by {
        assert(pairs[k] == (k as usize, target));
    }
}

} // verus!
