//! The pass scheduler: which contexts run their pass this frame, under
//! which schedule, and when the primary schedule runs on its own.
use vstd::prelude::*;

use crate::egui_input::EguiInput;
use crate::events::EguiEvent;

verus! {

/// The identifier of a user schedule that a context's pass runs.
#[derive(Clone, Copy, Debug, PartialEq, Eq, Structural)]
pub struct EguiMultipassSchedule(pub u64);

/// A context as the scheduler sees it.
#[derive(Clone, Copy, Debug, PartialEq, Eq, Structural)]
pub struct PassContext {
    pub context: u64,
    /// The context's passes are driven by its user.
    pub run_manually: bool,
    /// The schedule the context's pass runs, where it is scheduled here.
    pub schedule: Option<EguiMultipassSchedule>,
    /// The context is the primary one.
    pub primary: bool,
}

/// One step of a frame's plan.
#[derive(Clone, Copy, Debug, PartialEq, Eq, Structural)]
pub enum PassStep {
    /// Begin the context's pass, run its schedule, end the pass.
    RunContext { context: u64, schedule: EguiMultipassSchedule },
    /// Run the schedule once, addressed to no context.
    RunUnaddressed { schedule: EguiMultipassSchedule },
}

/// Two contexts that would run the same schedule in one frame.
#[derive(Clone, Copy, Debug, PartialEq, Eq, Structural)]
pub struct DuplicateSchedule {
    pub schedule: EguiMultipassSchedule,
    /// The context that came first with the schedule.
    pub first: u64,
    /// The context that came second with it.
    pub second: u64,
}

/// Whether `c` runs its pass from the scheduler.
pub open spec fn eligible(c: PassContext) -> bool {
    !c.run_manually && c.schedule is Some
}

/// Whether `s[j]` is eligible and repeats the schedule of an earlier
/// eligible context.
pub open spec fn repeats_at(s: Seq<PassContext>, j: int) -> bool {
    0 <= j < s.len() && eligible(s[j]) && exists|i: int|
        0 <= i < j && eligible(s[i]) && #[trigger] s[i].schedule == s[j].schedule
}

/// Whether two eligible contexts of `s` share a schedule.
pub open spec fn has_duplicate(s: Seq<PassContext>) -> bool {
    exists|j: int| #[trigger] repeats_at(s, j)
}

/// The context passes of `s`, in order: one per eligible context.
pub open spec fn context_steps(s: Seq<PassContext>) -> Seq<PassStep>
    decreases s.len(),
{
    if s.len() == 0 {
        Seq::empty()
    } else if eligible(s.last()) {
        context_steps(s.drop_last()).push(
            PassStep::RunContext { context: s.last().context, schedule: s.last().schedule->0 },
        )
    } else {
        context_steps(s.drop_last())
    }
}

/// Whether the primary schedule runs on its own: no context is scheduled
/// here and a primary context exists.
pub open spec fn runs_fallback(s: Seq<PassContext>) -> bool {
    (forall|i: int| 0 <= i < s.len() ==> !eligible(#[trigger] s[i])) && exists|i: int|
        0 <= i < s.len() && #[trigger] s[i].primary
}

/// The plan of a frame without duplicates: the context passes, then the
/// primary schedule where it runs on its own.
pub open spec fn planned(s: Seq<PassContext>, primary: EguiMultipassSchedule) -> Seq<PassStep> {
    if runs_fallback(s) {
        context_steps(s).push(PassStep::RunUnaddressed { schedule: primary })
    } else {
        context_steps(s)
    }
}

/// Plans a frame's passes before any of them runs. Two eligible contexts
/// with one schedule are refused, naming the first repetition.
pub fn plan_passes(contexts: &Vec<PassContext>, primary: EguiMultipassSchedule) -> (r: Result<
    Vec<PassStep>,
    DuplicateSchedule,
>)
    ensures
        r is Ok <==> !has_duplicate(contexts@),
        r is Ok ==> r->Ok_0@ == planned(contexts@, primary),
        r is Err ==> exists|j: int|
            #[trigger] repeats_at(contexts@, j) && (forall|k: int| 0 <= k < j ==> !#[trigger] repeats_at(contexts@, k))
                && r->Err_0.second == contexts@[j].context && r->Err_0.schedule == contexts@[j].schedule->0
                && exists|i: int|
                0 <= i < j && eligible(contexts@[i]) && contexts@[i].schedule == contexts@[j].schedule
                    && r->Err_0.first == #[trigger] contexts@[i].context,
{
    let mut steps: Vec<PassStep> = Vec::new();
    let mut seen: Vec<PassContext> = Vec::new();
    let mut any_primary = false;
    let mut j: usize = 0;
    while j < contexts.len()
        invariant
            j <= contexts@.len(),
            steps@ == context_steps(contexts@.take(j as int)),
            forall|k: int| 0 <= k < j ==> !#[trigger] repeats_at(contexts@, k),
            forall|k: int| 0 <= k < seen@.len() ==> eligible(#[trigger] seen@[k]),
            forall|i: int|
                0 <= i < j && eligible(contexts@[i]) ==> #[trigger] seen@.contains(contexts@[i]),
            forall|k: int|
                0 <= k < seen@.len() ==> exists|i: int|
                    0 <= i < j && eligible(contexts@[i]) && #[trigger] seen@[k] == contexts@[i],
            seen@.len() == 0 <==> forall|i: int| 0 <= i < j ==> !eligible(#[trigger] contexts@[i]),
            any_primary <==> exists|i: int| 0 <= i < j && #[trigger] contexts@[i].primary,
        decreases contexts.len() - j,
    {
        let c = contexts[j];
        proof {
            assert(contexts@.take(j + 1).drop_last() =~= contexts@.take(j as int));
        }
        if c.primary {
            any_primary = true;
        }
        if !c.run_manually {
            if let Some(schedule) = c.schedule {
                let mut k: usize = 0;
                while k < seen.len()
                    invariant
                        k <= seen@.len(),
                        j < contexts@.len(),
                        c == contexts@[j as int],
                        eligible(c),
                        forall|k3: int| 0 <= k3 < j ==> !#[trigger] repeats_at(contexts@, k3),
                        forall|k2: int|
                            0 <= k2 < seen@.len() ==> exists|i: int|
                                0 <= i < j && eligible(contexts@[i]) && #[trigger] seen@[k2] == contexts@[i],
                        c.schedule == Some(schedule),
                        forall|m: int| 0 <= m < k ==> #[trigger] seen@[m].schedule != Some(schedule),
                    decreases seen.len() - k,
                {
                    if seen[k].schedule == Some(schedule) {
                        let ghost sk = seen@[k as int];
                        proof {
                            assert(exists|i: int| 0 <= i < j && eligible(contexts@[i]) && seen@[k as int] == contexts@[i]);
                            let i = choose|i: int| 0 <= i < j && eligible(contexts@[i]) && seen@[k as int] == contexts@[i];
                            assert(contexts@[i].schedule == contexts@[j as int].schedule);
                            assert(repeats_at(contexts@, j as int));
                            assert(contexts@[i].context == sk.context);
                            assert(contexts@[j as int].schedule->0 == schedule);
                            assert(0 <= i < j && eligible(contexts@[i]) && contexts@[i].schedule == contexts@[j as int].schedule
                                && sk.context == contexts@[i].context);
                        }
                        return Err(DuplicateSchedule { schedule, first: seen[k].context, second: c.context });
                    }
                    k = k + 1;
                }
                proof {
                    assert forall|i: int| 0 <= i < j && eligible(contexts@[i]) implies contexts@[i].schedule != c.schedule by {
                        assert(seen@.contains(contexts@[i]));
                        let m = choose|m: int| 0 <= m < seen@.len() && seen@[m] == contexts@[i];
                        assert(seen@[m].schedule != Some(schedule));
                    }
                    assert(!repeats_at(contexts@, j as int));
                }
                let ghost seen_old = seen@;
                seen.push(c);
                steps.push(PassStep::RunContext { context: c.context, schedule });
                proof {
                    assert forall|k2: int| 0 <= k2 < seen@.len() implies exists|i: int|
                        0 <= i < j + 1 && eligible(contexts@[i]) && #[trigger] seen@[k2] == contexts@[i] by {
                        if k2 == seen@.len() - 1 {
                            assert(seen@[k2] == contexts@[j as int]);
                        } else {
                            let i = choose|i: int| 0 <= i < j && eligible(contexts@[i]) && seen@[k2] == contexts@[i];
                            assert(seen@[k2] == contexts@[i]);
                        }
                    }
                    assert forall|i: int| 0 <= i < j + 1 && eligible(contexts@[i]) implies #[trigger] seen@.contains(contexts@[i]) by {
                        if i == j {
                            assert(seen@[seen@.len() - 1] == contexts@[i]);
                        } else {
                            assert(seen_old.contains(contexts@[i]));
                            let m = choose|m: int| 0 <= m < seen_old.len() && seen_old[m] == contexts@[i];
                            assert(seen@[m] == contexts@[i]);
                        }
                    }
                }
            } else {
                proof {
                    assert(!repeats_at(contexts@, j as int));
                }
            }
        } else {
            proof {
                assert(!repeats_at(contexts@, j as int));
            }
        }
        j = j + 1;
    }
    proof {
        assert(contexts@.take(j as int) =~= contexts@);
        assert forall|jj: int| !#[trigger] repeats_at(contexts@, jj) by {
            if 0 <= jj < contexts@.len() {
            }
        }
    }
    if seen.len() == 0 && any_primary {
        steps.push(PassStep::RunUnaddressed { schedule: primary });
    }
    Ok(steps)
}

/// Where a context's pass stands within a frame.
#[derive(Clone, Copy, Debug, PartialEq, Eq, Structural)]
pub enum PassPhase {
    Idle,
    /// The input is handed over; the user schedule runs next.
    Began,
    /// The user schedule has run and asked for no rerun.
    Ran,
    /// The output is collected.
    Ended,
}

/// A context's pass within a frame: Idle, Began, Ran, Ended, and Idle again.
pub struct ContextPass<O> {
    pub phase: PassPhase,
    /// How many times the user schedule ran in this pass.
    pub runs: u64,
    /// The output of the last ended pass, until it is taken.
    pub output: Option<O>,
}

impl<O> ContextPass<O> {
    /// An idle pass with no output.
    pub fn new() -> (r: ContextPass<O>)
        ensures
            r.phase == PassPhase::Idle,
            r.runs == 0,
            r.output is None,
    {
        ContextPass { phase: PassPhase::Idle, runs: 0, output: None }
    }

    /// Begins the pass: moves the pending events and dropped files out of
    /// the buffer, which holds none of them afterwards, and hands them over.
    pub fn begin<P, K, F, D>(&mut self, input: &mut EguiInput<P, K, F, D>) -> (r: (Vec<EguiEvent<P, K, F>>, Vec<D>))
        requires
            old(self).phase == PassPhase::Idle,
        ensures
            final(self).phase == PassPhase::Began,
            final(self).runs == 0,
            final(self).output == old(self).output,
            r.0@ == old(input).events@,
            r.1@ == old(input).dropped_files@,
            final(input).events@.len() == 0,
            final(input).dropped_files@.len() == 0,
            final(input).context == old(input).context,
            final(input).hovered_files@ == old(input).hovered_files@,
    {
        self.phase = PassPhase::Began;
        self.runs = 0;
        input.take()
    }

    /// Records one run of the user schedule. Where the run asked to discard
    /// its result and `runs` is still under `max_runs`, the pass stays begun
    /// and the schedule runs again; otherwise it has run. Returns whether to
    /// run again.
    pub fn ran(&mut self, discard_requested: bool, max_runs: u64) -> (r: bool)
        requires
            old(self).phase == PassPhase::Began,
            old(self).runs < max_runs,
        ensures
            final(self).runs == old(self).runs + 1,
            r == (discard_requested && final(self).runs < max_runs),
            final(self).phase == (if r { PassPhase::Began } else { PassPhase::Ran }),
            final(self).output == old(self).output,
    {
        self.runs = self.runs + 1;
        let again = discard_requested && self.runs < max_runs;
        if !again {
            self.phase = PassPhase::Ran;
        }
        again
    }

    /// Ends the pass: collects its output.
    pub fn end(&mut self, output: O)
        requires
            old(self).phase == PassPhase::Ran,
        ensures
            final(self).phase == PassPhase::Ended,
            final(self).runs == old(self).runs,
            final(self).output == Some(output),
    {
        self.phase = PassPhase::Ended;
        self.output = Some(output);
    }

    /// Takes the collected output; the pass is idle again.
    pub fn take_output(&mut self) -> (r: Option<O>)
        requires
            old(self).phase == PassPhase::Ended,
        ensures
            r == old(self).output,
            final(self).output is None,
            final(self).phase == PassPhase::Idle,
            final(self).runs == 0,
    {
        self.phase = PassPhase::Idle;
        self.runs = 0;
        let mut taken: Option<O> = None;
        std::mem::swap(&mut taken, &mut self.output);
        taken
    }
}

/// Why there is no single primary context.
#[derive(Clone, Copy, Debug, PartialEq, Eq, Structural)]
pub enum QuerySingleError {
    NoEntities,
    MultipleEntities,
}

/// How many contexts of `s` are primary.
pub open spec fn primary_count(s: Seq<PassContext>) -> nat
    decreases s.len(),
{
    if s.len() == 0 {
        0
    } else {
        primary_count(s.drop_last()) + if s.last().primary { 1nat } else { 0nat }
    }
}

/// The primary context, where there is exactly one.
pub fn primary_context(contexts: &Vec<PassContext>) -> (r: Result<u64, QuerySingleError>)
    ensures
        primary_count(contexts@) == 0 <==> r == Err::<u64, QuerySingleError>(QuerySingleError::NoEntities),
        primary_count(contexts@) > 1 <==> r == Err::<u64, QuerySingleError>(QuerySingleError::MultipleEntities),
        r is Ok ==> primary_count(contexts@) == 1 && exists|i: int|
            0 <= i < contexts@.len() && #[trigger] contexts@[i].primary && contexts@[i].context == r->Ok_0,
{
    let mut found: Option<u64> = None;
    let mut i: usize = 0;
    while i < contexts.len()
        invariant
            i <= contexts@.len(),
            primary_count(contexts@.take(i as int)) <= 1,
            found is None <==> primary_count(contexts@.take(i as int)) == 0,
            found matches Some(c) ==> exists|k: int|
                0 <= k < i && #[trigger] contexts@[k].primary && contexts@[k].context == c,
        decreases contexts.len() - i,
    {
        proof {
            assert(contexts@.take(i + 1).drop_last() =~= contexts@.take(i as int));
        }
        if contexts[i].primary {
            if found.is_some() {
                proof {
                    lemma_primary_count_grows(contexts@, i as int + 1);
                }
                return Err(QuerySingleError::MultipleEntities);
            }
            found = Some(contexts[i].context);
        }
        i = i + 1;
    }
    proof {
        assert(contexts@.take(i as int) =~= contexts@);
    }
    match found {
        Some(c) => Ok(c),
        None => Err(QuerySingleError::NoEntities),
    }
}

/// Counting primaries over a longer prefix never gives fewer.
proof fn lemma_primary_count_grows(s: Seq<PassContext>, n: int)
    requires
        0 <= n <= s.len(),
    ensures
        primary_count(s) >= primary_count(s.take(n)),
    decreases s.len() - n,
{
    if n < s.len() {
        lemma_primary_count_grows(s, n + 1);
        assert(s.take(n + 1).drop_last() =~= s.take(n));
    } else {
        assert(s.take(n) =~= s);
    }
}

/// Which new camera gets the primary context: the first of `new_cameras`
/// (each with whether it already has a context), unless a context exists
/// already or a camera before it has one. Returns the camera, if any, and
/// whether a context exists afterwards.
pub fn primary_context_camera(new_cameras: &Vec<(u64, bool)>, context_exists: bool) -> (r: (Option<u64>, bool))
    ensures
        r.0 == (if !context_exists && new_cameras@.len() > 0 && !new_cameras@[0].1 {
            Some(new_cameras@[0].0)
        } else {
            None::<u64>
        }),
        r.1 == (context_exists || new_cameras@.len() > 0),
{
    if new_cameras.len() == 0 {
        return (None, context_exists);
    }
    let (camera, has_context) = new_cameras[0];
    if has_context || context_exists {
        return (None, true);
    }
    (Some(camera), true)
}

/// Two eligible contexts bound to one schedule make the frame fatal.
pub proof fn shared_schedule_is_fatal(s: Seq<PassContext>, i: int, j: int)
    requires
        0 <= i < j < s.len(),
        eligible(s[i]),
        eligible(s[j]),
        s[i].schedule == s[j].schedule,
    ensures
        has_duplicate(s),
{
    assert(repeats_at(s, j));
}

/// Two eligible contexts bound to two schedules, and nothing else: each
/// runs exactly once, in order, and the primary schedule does not run on its
/// own.
pub proof fn distinct_schedules_run_once_each(a: PassContext, b: PassContext, primary: EguiMultipassSchedule)
    requires
        eligible(a),
        eligible(b),
        a.schedule != b.schedule,
    ensures
        !has_duplicate(seq![a, b]),
        planned(seq![a, b], primary) == seq![
            PassStep::RunContext { context: a.context, schedule: a.schedule->0 },
            PassStep::RunContext { context: b.context, schedule: b.schedule->0 },
        ],
{
    let s = seq![a, b];
    assert forall|j: int| !#[trigger] repeats_at(s, j) by {
        if repeats_at(s, j) {
            let i = choose|i: int| 0 <= i < j && eligible(s[i]) && #[trigger] s[i].schedule == s[j].schedule;
            assert(i == 0 && j == 1);
        }
    }
    assert(s.drop_last() =~= seq![a]);
    assert(seq![a].drop_last() =~= Seq::<PassContext>::empty());
    assert(!runs_fallback(s)) by {
        assert(eligible(s[0]));
    }
    assert(context_steps(seq![a].drop_last()) == Seq::<PassStep>::empty());
    assert(context_steps(seq![a]) =~= seq![PassStep::RunContext { context: a.context, schedule: a.schedule->0 }]);
    assert(context_steps(s) =~= seq![
        PassStep::RunContext { context: a.context, schedule: a.schedule->0 },
        PassStep::RunContext { context: b.context, schedule: b.schedule->0 },
    ]);
}

/// No context scheduled here and a primary context present: the plan is the
/// primary schedule, once, addressed to no context.
pub proof fn fallback_runs_exactly_once(s: Seq<PassContext>, primary: EguiMultipassSchedule)
    requires
        forall|i: int| 0 <= i < s.len() ==> !eligible(#[trigger] s[i]),
        exists|i: int| 0 <= i < s.len() && #[trigger] s[i].primary,
    ensures
        !has_duplicate(s),
        planned(s, primary) == seq![PassStep::RunUnaddressed { schedule: primary }],
{
    lemma_no_steps(s);
    assert(context_steps(s).push(PassStep::RunUnaddressed { schedule: primary }) =~= seq![
        PassStep::RunUnaddressed { schedule: primary },
    ]);
}

/// Without eligible contexts there are no context passes.
proof fn lemma_no_steps(s: Seq<PassContext>)
    requires
        forall|i: int| 0 <= i < s.len() ==> !eligible(#[trigger] s[i]),
    ensures
        context_steps(s) == Seq::<PassStep>::empty(),
    decreases s.len(),
{
    if s.len() > 0 {
        assert(!eligible(s[s.len() - 1]));
        lemma_no_steps(s.drop_last());
    }
}

} // verus!
