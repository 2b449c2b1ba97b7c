//! The index between windows and the UI contexts that render into them.
use vstd::prelude::*;

use crate::platform_map::{IdMap, IdSetMap};

verus! {

/// What removing a context from the index found.
#[derive(Clone, Copy, Debug, PartialEq, Eq, Structural)]
pub enum ContextRemoval {
    /// The context had no window: it renders to something else.
    NotRegistered,
    /// The context was registered to this window and now is not.
    Removed(u64),
    /// The context named this window, which held no entry for it; the
    /// context's own entry is gone.
    WindowEntryMissing(u64),
}

/// A bidirectional map between windows and contexts. A window may hold
/// several contexts; a context belongs to at most one window.
pub struct WindowToEguiContextMap {
    /// Indexes contexts by windows.
    pub window_to_contexts: IdSetMap,
    /// Indexes windows by contexts.
    pub context_to_window: IdMap,
}

impl WindowToEguiContextMap {
    /// Each side is the mirror of the other: a context maps to a window
    /// exactly when the window's set holds the context.
    pub open spec fn wf(&self) -> bool {
        &&& forall|c: u64, w: u64| #[trigger]
            self.contexts_of(w).contains(c) ==> self.window_of(c) == Some(w)
        &&& forall|c: u64| #[trigger]
            self.window_of(c) is Some ==> self.contexts_of(self.window_of(c)->0).contains(c)
    }

    /// The contexts that are registered to window `w`.
    pub open spec fn contexts_of(&self, w: u64) -> Set<u64> {
        if self.window_to_contexts@.contains_key(w) {
            self.window_to_contexts@[w]
        } else {
            Set::empty()
        }
    }

    /// The window of context `c`, if it has one.
    pub open spec fn window_of(&self, c: u64) -> Option<u64> {
        if self.context_to_window@.contains_key(c) {
            Some(self.context_to_window@[c])
        } else {
            None
        }
    }

    /// An empty index.
    pub fn new() -> (r: WindowToEguiContextMap)
        ensures
            r.wf(),
            forall|w: u64| r.contexts_of(w) == Set::<u64>::empty(),
            forall|c: u64| r.window_of(c) == None::<u64>,
    {
        WindowToEguiContextMap { window_to_contexts: IdSetMap::new(), context_to_window: IdMap::new() }
    }

    /// Registers context `context` to window `window`. A context that was
    /// registered to another window leaves that window's set.
    pub fn add_context(&mut self, window: u64, context: u64)
        requires
            old(self).wf(),
        ensures
            final(self).wf(),
            final(self).window_of(context) == Some(window),
            forall|c: u64| c != context ==> final(self).window_of(c) == old(self).window_of(c),
            final(self).contexts_of(window) == old(self).contexts_of(window).insert(context),
            forall|w: u64|
                w != window ==> final(self).contexts_of(w) == old(self).contexts_of(w).remove(context),
    {
        let previous = self.context_to_window.insert(context, window);
        if let Some(previous_window) = previous {
            if previous_window != window {
                self.window_to_contexts.remove(previous_window, context);
            }
        }
        self.window_to_contexts.add(window, context);
        proof {
            assert forall|w: u64|
                w != window implies self.contexts_of(w) == old(self).contexts_of(w).remove(context) by {
                if old(self).contexts_of(w).contains(context) {
                    assert(old(self).window_of(context) == Some(w));
                }
                assert(self.contexts_of(w) =~= old(self).contexts_of(w).remove(context));
            }
            assert(self.contexts_of(window) =~= old(self).contexts_of(window).insert(context));
            assert forall|c: u64, w: u64| #[trigger]
                self.contexts_of(w).contains(c) implies self.window_of(c) == Some(w) by {
                if c != context {
                    assert(old(self).contexts_of(w).contains(c));
                }
            }
            assert forall|c: u64| #[trigger]
                self.window_of(c) is Some implies self.contexts_of(self.window_of(c)->0).contains(c) by {
                if c != context {
                    assert(old(self).window_of(c) is Some);
                    let w = old(self).window_of(c)->0;
                    assert(old(self).contexts_of(w).contains(c));
                }
            }
        }
    }

    /// Removes context `context`: its own entry, and its place in its
    /// window's set. A window side that is already gone is reported, not an
    /// error.
    pub fn remove_context(&mut self, context: u64) -> (r: ContextRemoval)
        requires
            old(self).wf(),
        ensures
            final(self).wf(),
            final(self).window_of(context) == None::<u64>,
            forall|c: u64| c != context ==> final(self).window_of(c) == old(self).window_of(c),
            forall|w: u64| final(self).contexts_of(w) == old(self).contexts_of(w).remove(context),
            r == (match old(self).window_of(context) {
                None => ContextRemoval::NotRegistered,
                Some(w) => ContextRemoval::Removed(w),
            }),
    {
        let Some(window) = self.context_to_window.remove(context) else {
            proof {
                assert(self.context_to_window@ =~= old(self).context_to_window@);
                assert forall|c: u64, w: u64| #[trigger]
                    self.contexts_of(w).contains(c) implies self.window_of(c) == Some(w) by {
                    assert(old(self).contexts_of(w).contains(c));
                }
                assert forall|c: u64| #[trigger]
                    self.window_of(c) is Some implies self.contexts_of(
                        self.window_of(c)->0,
                    ).contains(c) by {
                    assert(old(self).window_of(c) is Some);
                }
                assert forall|w: u64|
                    self.contexts_of(w) == old(self).contexts_of(w).remove(context) by {
                    if old(self).contexts_of(w).contains(context) {
                        assert(old(self).window_of(context) == Some(w));
                    }
                    assert(self.contexts_of(w).remove(context) =~= self.contexts_of(w));
                }
            }
            return ContextRemoval::NotRegistered;
        };
        if !self.window_to_contexts.remove(window, context) {
            proof {
                assert(old(self).contexts_of(window).contains(context));
            }
            return ContextRemoval::WindowEntryMissing(window);
        }
        proof {
            assert forall|w: u64|
                self.contexts_of(w) == old(self).contexts_of(w).remove(context) by {
                if w != window && old(self).contexts_of(w).contains(context) {
                    assert(old(self).window_of(context) == Some(w));
                }
                assert(self.contexts_of(w) =~= old(self).contexts_of(w).remove(context));
            }
            assert forall|c: u64, w: u64| #[trigger]
                self.contexts_of(w).contains(c) implies self.window_of(c) == Some(w) by {
                assert(old(self).contexts_of(w).contains(c));
            }
            assert forall|c: u64| #[trigger]
                self.window_of(c) is Some implies self.contexts_of(self.window_of(c)->0).contains(c) by {
                assert(old(self).window_of(c) is Some);
                let w = old(self).window_of(c)->0;
                assert(old(self).contexts_of(w).contains(c));
            }
        }
        ContextRemoval::Removed(window)
    }

    /// The contexts of window `window`, each once.
    pub fn contexts(&self, window: u64) -> (r: Vec<u64>)
        ensures
            r@.no_duplicates(),
            r@.to_set() == self.contexts_of(window),
    {
        self.window_to_contexts.members(window)
    }

    /// The window of context `context`, if it has one.
    pub fn window(&self, context: u64) -> (r: Option<u64>)
        ensures
            r == self.window_of(context),
    {
        self.context_to_window.get(context)
    }
}

} // verus!
