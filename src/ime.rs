//! Input-method events.
use vstd::prelude::*;

use crate::context::{
    lemma_update_keeps_ids, position_of, ContextTable, EguiContextImeState, EguiContextState,
};
use crate::events::{EguiEvent, EguiInputEvent, ImeEvent};

verus! {

/// The events one input-method event gives for context `c`, and whether
/// enabling stands sent afterwards. Enabling is sent once until disabled;
/// a preedit enables first; a commit disables after it; disabling is sent
/// only where enabling was.
pub open spec fn ime_events<P, K, F>(c: u64, e: ImeEvent, sent: bool) -> (Seq<EguiInputEvent<P, K, F>>, bool) {
    let enable: Seq<EguiInputEvent<P, K, F>> = if sent {
        Seq::empty()
    } else {
        seq![EguiInputEvent { context: c, event: EguiEvent::Ime(ImeEvent::Enabled) }]
    };
    let disable: Seq<EguiInputEvent<P, K, F>> = if sent {
        seq![EguiInputEvent { context: c, event: EguiEvent::Ime(ImeEvent::Disabled) }]
    } else {
        Seq::empty()
    };
    match e {
        ImeEvent::Enabled => (enable, true),
        ImeEvent::Preedit(v) => (
            enable.push(EguiInputEvent { context: c, event: EguiEvent::Ime(ImeEvent::Preedit(v)) }),
            true,
        ),
        ImeEvent::Commit(v) => (
            seq![EguiInputEvent { context: c, event: EguiEvent::Ime(ImeEvent::Commit(v)) }] + disable,
            false,
        ),
        ImeEvent::Disabled => (disable, false),
    }
}

/// The events and contexts after the routed input-method events of `pairs`:
/// each one for a live context that runs this translator.
pub open spec fn ime_frame<P, K, F>(
    out: Seq<EguiInputEvent<P, K, F>>,
    recs: Seq<EguiContextState<P>>,
    pairs: Seq<(u64, ImeEvent)>,
) -> (Seq<EguiInputEvent<P, K, F>>, Seq<EguiContextState<P>>)
    decreases pairs.len(),
{
    if pairs.len() == 0 {
        (out, recs)
    } else {
        let (o, r) = ime_frame(out, recs, pairs.drop_last());
        let (c, e) = pairs.last();
        match position_of(r, c) {
            Some(i) => if r[i].settings.input_system_settings.run_write_ime_events_system {
                let (evs, sent) = ime_events::<P, K, F>(c, e, r[i].ime_state.has_sent_ime_enabled);
                (
                    o + evs,
                    r.update(i, EguiContextState {
                        ime_state: EguiContextImeState { has_sent_ime_enabled: sent, ..r[i].ime_state },
                        ..r[i]
                    }),
                )
            } else {
                (o, r)
            },
            None => (o, r),
        }
    }
}

/// Appends the events of one input-method event for context `c`, and
/// updates whether enabling stands sent.
pub fn write_ime_event<P, K, F>(
    out: &mut Vec<EguiInputEvent<P, K, F>>,
    c: u64,
    e: ImeEvent,
    sent: &mut bool,
)
    ensures
        final(out)@ == old(out)@ + ime_events::<P, K, F>(c, e, *old(sent)).0,
        *final(sent) == ime_events::<P, K, F>(c, e, *old(sent)).1,
{
    let ghost expected = ime_events::<P, K, F>(c, e, *sent);
    match e {
        ImeEvent::Enabled => {
            if !*sent {
                out.push(EguiInputEvent { context: c, event: EguiEvent::Ime(ImeEvent::Enabled) });
            }
            *sent = true;
        },
        ImeEvent::Preedit(v) => {
            if !*sent {
                out.push(EguiInputEvent { context: c, event: EguiEvent::Ime(ImeEvent::Enabled) });
            }
            *sent = true;
            out.push(EguiInputEvent { context: c, event: EguiEvent::Ime(ImeEvent::Preedit(v)) });
        },
        ImeEvent::Commit(v) => {
            out.push(EguiInputEvent { context: c, event: EguiEvent::Ime(ImeEvent::Commit(v)) });
            if *sent {
                out.push(EguiInputEvent { context: c, event: EguiEvent::Ime(ImeEvent::Disabled) });
            }
            *sent = false;
        },
        ImeEvent::Disabled => {
            if *sent {
                out.push(EguiInputEvent { context: c, event: EguiEvent::Ime(ImeEvent::Disabled) });
            }
            *sent = false;
        },
    }
    proof {
        assert(out@ =~= old(out)@ + expected.0);
    }
}

/// Writes the routed input-method events of a frame, taking them in order.
pub fn write_ime_events<P: Copy, K, F>(
    contexts: &mut ContextTable<P>,
    pairs: Vec<(u64, ImeEvent)>,
    out: &mut Vec<EguiInputEvent<P, K, F>>,
)
    requires
        old(contexts).wf(),
    ensures
        final(contexts).wf(),
        (final(out)@, final(contexts).records@) == ime_frame::<P, K, F>(old(out)@, old(contexts).records@, pairs@),
{
    let ghost out0 = out@;
    let ghost recs0 = contexts.records@;
    let ghost all = pairs@;
    let total: usize = pairs.len();
    let mut pairs = pairs;
    let mut n: usize = 0;
    while pairs.len() > 0
        invariant
            n + pairs@.len() == all.len(),
            all.len() == total,
            pairs@ == all.skip(n as int),
            contexts.wf(),
            (out@, contexts.records@) == ime_frame::<P, K, F>(out0, recs0, all.take(n as int)),
        decreases pairs.len(),
    {
        let (context, event) = pairs.remove(0);
        proof {
            assert(all.take(n + 1).drop_last() =~= all.take(n as int));
            assert(all[n as int] == (context, event));
            assert(pairs@ =~= all.skip(n + 1));
        }
        if let Some(i) = contexts.find(context) {
            let mut record = contexts.records[i];
            if record.settings.input_system_settings.run_write_ime_events_system {
                write_ime_event(out, context, event, &mut record.ime_state.has_sent_ime_enabled);
                proof {
                    lemma_update_keeps_ids(contexts.records@, i as int, record);
                }
                contexts.records.set(i, record);
            }
        }
        n = n + 1;
    }
    proof {
        assert(all.take(n as int) =~= all);
    }
}

} // verus!
