//! Keyboard input: text, keys, and the clipboard shortcuts.
use vstd::prelude::*;
use vstd::string::{StrSliceExecFns, StringExecFns};

use crate::context::{position_of, ContextTable, EguiContextState};
use crate::events::{EguiEvent, EguiInputEvent};
use crate::modifiers::{LogicalKey, ModifierKeysState};

verus! {

/// Which clipboard shortcut a key is, once pressed with the command modifier.
#[derive(Clone, Copy, Debug, PartialEq, Eq, Structural)]
pub enum ClipboardShortcut {
    Copy,
    Cut,
    Paste,
    NotAShortcut,
}

/// A key press or release of a window. `key` is the logical key and
/// `physical_key` the key at that place of a reference layout, as a context
/// names keys; `shortcut` tells which clipboard shortcut the key is (the
/// logical key, or the physical one where there is no logical one).
#[derive(Clone, Debug)]
pub struct KeyboardInput<K> {
    pub window: u64,
    pub logical_key: LogicalKey,
    pub key: Option<K>,
    pub physical_key: Option<K>,
    pub shortcut: ClipboardShortcut,
    pub pressed: bool,
}

/// Whether `c` is a control character (general category Cc).
pub open spec fn is_control(c: char) -> bool {
    (c as u32) <= 0x1f || (0x7f <= (c as u32) && (c as u32) <= 0x9f)
}

/// Whether `c` is a control character (general category Cc).
pub fn char_is_control(c: char) -> (r: bool)
    ensures
        r == is_control(c),
{
    let v = c as u32;
    v <= 0x1f || (0x7f <= v && v <= 0x9f)
}

/// Whether no character of `s` is a control character.
pub fn has_no_control_chars(s: &String) -> (r: bool)
    ensures
        r == forall|i: int| 0 <= i < s@.len() ==> !is_control(#[trigger] s@[i]),
{
    let n = s.as_str().unicode_len();
    let mut i: usize = 0;
    while i < n
        invariant
            n == s@.len(),
            i <= n,
            forall|k: int| 0 <= k < i ==> !is_control(#[trigger] s@[k]),
        decreases n - i,
    {
        let c = s.as_str().get_char(i);
        if char_is_control(c) {
            return false;
        }
        i = i + 1;
    }
    true
}

/// The text that a key event types, if any: none while modifiers hold text
/// back or on a release; the characters of a character key that holds no
/// control character; a space for the space bar.
pub open spec fn typed_text(state: ModifierKeysState, input_key: LogicalKey, pressed: bool) -> Option<Seq<char>> {
    if !(!state.win && (!state.ctrl || state.alt)) || !pressed {
        None
    } else {
        match input_key {
            LogicalKey::Character(s) => if forall|i: int| 0 <= i < s@.len() ==> !is_control(#[trigger] s@[i]) {
                Some(s@)
            } else {
                None
            },
            LogicalKey::Space => Some(seq![' ']),
            _ => None,
        }
    }
}

/// Whether `e` is a text event for `c` that holds `t`.
pub open spec fn is_text_for<P, K, F>(e: EguiInputEvent<P, K, F>, c: u64, t: Seq<char>) -> bool {
    e.context == c && match e.event {
        EguiEvent::Text(s) => s@ == t,
        _ => false,
    }
}

/// The key a context gets: the logical one, else the physical one.
pub open spec fn resolved_key<K>(input: KeyboardInput<K>) -> Option<K> {
    match input.key {
        Some(k) => Some(k),
        None => input.physical_key,
    }
}

/// Whether `chunk` is what one key event gives for context `c`: the typed
/// text, if any; then, where there is a key, the key event; then, on a press
/// with the command modifier, copy or cut, or the clipboard's text for a
/// paste where the clipboard had text.
pub open spec fn key_chunk_ok<P, K, F>(
    c: u64,
    input: KeyboardInput<K>,
    state: ModifierKeysState,
    clipboard: Option<String>,
    chunk: Seq<EguiInputEvent<P, K, F>>,
) -> bool {
    let text = typed_text(state, input.logical_key, input.pressed);
    let t: int = if text is Some { 1 } else { 0 };
    let modifiers = state.bundle();
    &&& text is Some ==> is_text_for(chunk[0], c, text->0)
    &&& match resolved_key(input) {
        None => chunk.len() == t,
        Some(k) => {
            &&& chunk[t] == EguiInputEvent::<P, K, F> {
                context: c,
                event: EguiEvent::Key {
                    key: k,
                    physical_key: input.physical_key,
                    pressed: input.pressed,
                    repeat: false,
                    modifiers,
                },
            }
            &&& if modifiers.command && input.pressed {
                match input.shortcut {
                    ClipboardShortcut::Copy => chunk.len() == t + 2 && chunk[t + 1] == EguiInputEvent::<P, K, F> { context: c, event: EguiEvent::Copy },
                    ClipboardShortcut::Cut => chunk.len() == t + 2 && chunk[t + 1] == EguiInputEvent::<P, K, F> { context: c, event: EguiEvent::Cut },
                    ClipboardShortcut::Paste => match clipboard {
                        Some(s) => chunk.len() == t + 2 && chunk[t + 1] == EguiInputEvent::<P, K, F> { context: c, event: EguiEvent::Text(s) },
                        None => chunk.len() == t + 1,
                    },
                    ClipboardShortcut::NotAShortcut => chunk.len() == t + 1,
                }
            } else {
                chunk.len() == t + 1
            }
        },
    }
}

/// Appends what one key event gives for context `c`.
pub fn write_key_event<P, K: Copy, F>(
    out: &mut Vec<EguiInputEvent<P, K, F>>,
    c: u64,
    input: &KeyboardInput<K>,
    state: &ModifierKeysState,
    clipboard: &Option<String>,
)
    ensures
        final(out)@.take(old(out)@.len() as int) == old(out)@,
        final(out)@.len() >= old(out)@.len(),
        key_chunk_ok(c, *input, *state, *clipboard, final(out)@.skip(old(out)@.len() as int)),
{
    let ghost start = out@.len();
    let modifiers = state.to_egui_modifiers();
    if state.text_input_is_allowed() && input.pressed {
        match &input.logical_key {
            LogicalKey::Character(s) => {
                if has_no_control_chars(s) {
                    out.push(EguiInputEvent { context: c, event: EguiEvent::Text(s.clone()) });
                }
            },
            LogicalKey::Space => {
                let space = <String as StringExecFns>::from_str(" ");
                proof {
                    reveal_strlit(" ");
                    assert(space@ =~= seq![' ']);
                }
                out.push(EguiInputEvent { context: c, event: EguiEvent::Text(space) });
            },
            _ => {},
        }
    }
    let ghost t = out@.len() - start;
    let key = match input.key {
        Some(k) => Some(k),
        None => input.physical_key,
    };
    if let Some(k) = key {
        out.push(
            EguiInputEvent {
                context: c,
                event: EguiEvent::Key {
                    key: k,
                    physical_key: input.physical_key,
                    pressed: input.pressed,
                    repeat: false,
                    modifiers,
                },
            },
        );
        if modifiers.command && input.pressed {
            match input.shortcut {
                ClipboardShortcut::Copy => out.push(EguiInputEvent { context: c, event: EguiEvent::Copy }),
                ClipboardShortcut::Cut => out.push(EguiInputEvent { context: c, event: EguiEvent::Cut }),
                ClipboardShortcut::Paste => {
                    if let Some(text) = clipboard {
                        out.push(EguiInputEvent { context: c, event: EguiEvent::Text(text.clone()) });
                    }
                },
                ClipboardShortcut::NotAShortcut => {},
            }
        }
    }
    proof {
        assert(out@.take(start as int) =~= old(out)@);
        let chunk = out@.skip(start as int);
        assert(chunk.len() == out@.len() - start);
        assert(modifiers == state.bundle());
        assert(t == if typed_text(*state, input.logical_key, input.pressed) is Some { 1int } else { 0int });
        if typed_text(*state, input.logical_key, input.pressed) is Some {
            assert(chunk[0] == out@[start as int]);
        }
        if key is Some {
            assert(chunk[t] == out@[start + t]);
            if chunk.len() > t + 1 {
                assert(chunk[t + 1] == out@[start + t + 1]);
            }
        }
    }
}

/// Whether the key event `pair` goes to a live context that runs the
/// keyboard translator.
pub open spec fn key_reaches<P, K>(recs: Seq<EguiContextState<P>>, pair: (u64, KeyboardInput<K>)) -> bool {
    match position_of(recs, pair.0) {
        Some(i) => recs[i].settings.input_system_settings.run_write_keyboard_input_events_system,
        None => false,
    }
}

/// Whether `out` is `start` followed by what the routed key events of
/// `pairs` give, the events of `pairs[i]` standing from `cuts[i]` to
/// `cuts[i + 1]`: for an event that reaches its context, those of
/// `key_chunk_ok`; for another, none.
pub open spec fn key_events_cut<P, K, F>(
    start: Seq<EguiInputEvent<P, K, F>>,
    recs: Seq<EguiContextState<P>>,
    pairs: Seq<(u64, KeyboardInput<K>)>,
    state: ModifierKeysState,
    clipboard: Option<String>,
    out: Seq<EguiInputEvent<P, K, F>>,
    cuts: Seq<int>,
) -> bool {
    &&& cuts.len() == pairs.len() + 1
    &&& cuts[0] == start.len()
    &&& cuts[pairs.len() as int] == out.len()
    &&& start.len() <= out.len()
    &&& out.take(start.len() as int) == start
    &&& forall|i: int| 0 <= i <= pairs.len() ==> start.len() <= #[trigger] cuts[i] <= out.len()
    &&& forall|i: int|
        0 <= i < pairs.len() ==> cuts[i] <= #[trigger] cuts[i + 1] && if key_reaches(recs, pairs[i]) {
            key_chunk_ok(pairs[i].0, pairs[i].1, state, clipboard, out.subrange(cuts[i], cuts[i + 1]))
        } else {
            cuts[i] == cuts[i + 1]
        }
}

/// Writes the routed key events of a frame. `clipboard` is the clipboard's
/// text, read where `needs_clipboard` said a paste may come.
pub fn write_keyboard_input_events<P, K: Copy, F>(
    contexts: &ContextTable<P>,
    state: &ModifierKeysState,
    clipboard: &Option<String>,
    pairs: &Vec<(u64, KeyboardInput<K>)>,
    out: &mut Vec<EguiInputEvent<P, K, F>>,
)
    requires
        contexts.wf(),
    ensures
        exists|cuts: Seq<int>|
            key_events_cut(old(out)@, contexts.records@, pairs@, *state, *clipboard, final(out)@, cuts),
{
    let ghost out0 = out@;
    let ghost mut cuts: Seq<int> = seq![out@.len() as int];
    proof {
        assert(out@.take(out@.len() as int) =~= out@);
    }
    let mut n: usize = 0;
    while n < pairs.len()
        invariant
            n <= pairs@.len(),
            contexts.wf(),
            key_events_cut(out0, contexts.records@, pairs@.take(n as int), *state, *clipboard, out@, cuts),
        decreases pairs.len() - n,
    {
        let (context, input) = &pairs[n];
        let ghost before = out@;
        let live = match contexts.find(*context) {
            Some(i) => contexts.records[i].settings.input_system_settings.run_write_keyboard_input_events_system,
            None => false,
        };
        if live {
            write_key_event(out, *context, input, state, clipboard);
        } else {
            proof {
                assert(out@.take(before.len() as int) =~= before);
            }
        }
        proof {
            let old_cuts = cuts;
            cuts = cuts.push(out@.len() as int);
            let ps = pairs@.take(n + 1);
            assert(live == key_reaches(contexts.records@, pairs@[n as int]));
            assert forall|i: int|
                0 <= i < ps.len() implies cuts[i] <= #[trigger] cuts[i + 1] && if key_reaches(contexts.records@, ps[i]) {
                    key_chunk_ok(ps[i].0, ps[i].1, *state, *clipboard, out@.subrange(cuts[i], cuts[i + 1]))
                } else {
                    cuts[i] == cuts[i + 1]
                } by {
                assert(out@.take(before.len() as int) == before);
                if i < n {
                    assert(ps[i] == pairs@.take(n as int)[i]);
                    assert(old_cuts[i] <= before.len() && old_cuts[i + 1] <= before.len());
                    assert(old_cuts[i + 1] == cuts[i + 1]);
                    assert(out@.subrange(cuts[i], cuts[i + 1]) =~= before.subrange(cuts[i], cuts[i + 1]));
                } else {
                    assert(ps[i] == pairs@[n as int]);
                    assert(out@.subrange(cuts[i], cuts[i + 1]) =~= out@.skip(before.len() as int));
                }
            }
            assert(out@.take(out0.len() as int) =~= out0) by {
                assert(out@.take(before.len() as int) == before);
                assert(before.take(out0.len() as int) == out0);
            }
            assert forall|i: int| 0 <= i <= ps.len() implies out0.len() <= #[trigger] cuts[i] <= out@.len() by {
                if i < ps.len() {
                    assert(old_cuts[i] <= before.len());
                }
            }
        }
        n = n + 1;
    }
    proof {
        assert(pairs@.take(n as int) =~= pairs@);
    }
}

/// Whether a routed key event of `pairs` is a paste: a press of the paste
/// shortcut with the command modifier, with a key to report.
pub fn needs_clipboard<K>(state: &ModifierKeysState, pairs: &Vec<(u64, KeyboardInput<K>)>) -> (r: bool)
    ensures
        r == (state.bundle().command && exists|i: int|
            0 <= i < pairs@.len() && #[trigger] pairs@[i].1.pressed && pairs@[i].1.shortcut == ClipboardShortcut::Paste
                && resolved_key(pairs@[i].1) is Some),
{
    let modifiers = state.to_egui_modifiers();
    if !modifiers.command {
        return false;
    }
    let mut n: usize = 0;
    while n < pairs.len()
        invariant
            n <= pairs@.len(),
            modifiers == state.bundle(),
            modifiers.command,
            forall|i: int|
                0 <= i < n ==> !(#[trigger] pairs@[i].1.pressed && pairs@[i].1.shortcut == ClipboardShortcut::Paste
                    && resolved_key(pairs@[i].1) is Some),
        decreases pairs.len() - n,
    {
        let input = &pairs[n].1;
        let has_key = input.key.is_some() || input.physical_key.is_some();
        if input.pressed && input.shortcut == ClipboardShortcut::Paste && has_key {
            proof {
                assert(resolved_key(pairs@[n as int].1) is Some);
                assert(pairs@[n as int].1.pressed);
            }
            return true;
        }
        n = n + 1;
    }
    false
}

} // verus!
