use vstd::prelude::*;

verus! {

/// The ghost state of the metrics recorder: how many calls have been
/// dispatched, and the observed duration of each, in nanoseconds and in
/// dispatch order.
#[verifier::ext_equal]
pub ghost struct MetricsView {
    pub calls: nat,
    pub durations: Seq<u64>,
}

/// Process-wide call metrics: a monotonic counter of dispatched calls and
/// the distribution of observed handler durations — one observation per
/// dispatched call. The dispatcher updates them; exporting them in a
/// metrics exposition format is the embedding program's concern.
pub struct Metrics {
    calls: u64,
    durations: Vec<u64>,
}

impl View for Metrics {
    type V = MetricsView;

    closed spec fn view(&self) -> MetricsView {
        MetricsView { calls: self.calls as nat, durations: self.durations@ }
    }
}

/// One successfully dispatched call advances the metrics by one counter
/// tick and one duration observation.
pub open spec fn step_call(m: MetricsView, duration: u64) -> MetricsView {
    MetricsView { calls: m.calls + 1, durations: m.durations.push(duration) }
}

/// The metrics state after a run of successfully dispatched calls with the
/// given observed durations.
pub open spec fn step_calls(m: MetricsView, durations: Seq<u64>) -> MetricsView
    decreases durations.len(),
{
    if durations.len() == 0 {
        m
    } else {
        step_call(step_calls(m, durations.drop_last()), durations.last())
    }
}

impl Metrics {
    /// Fresh metrics: no calls, no observations.
    pub fn new() -> (m: Metrics)
        ensures
            m@.calls == 0,
            m@.durations == Seq::<u64>::empty(),
    {
        Metrics { calls: 0, durations: Vec::new() }
    }

    /// The total number of dispatched calls so far.
    pub fn total_calls(&self) -> (r: u64)
        ensures
            r == self@.calls,
    {
        self.calls
    }

    /// The observed handler durations so far, in dispatch order.
    pub fn observed_durations(&self) -> (r: &Vec<u64>)
        ensures
            r@ == self@.durations,
    {
        &self.durations
    }

    /// Counts one dispatched call; the dispatcher ticks this immediately
    /// before the handler runs.
    pub fn inc_calls(&mut self)
        requires
            old(self)@.calls < u64::MAX,
        ensures
            final(self)@.calls == old(self)@.calls + 1,
            final(self)@.durations == old(self)@.durations,
    {
        self.calls = self.calls + 1;
    }

    /// Records the observed duration of one handler invocation.
    pub fn observe(&mut self, duration_nanos: u64)
        ensures
            final(self)@.calls == old(self)@.calls,
            final(self)@.durations == old(self)@.durations.push(duration_nanos),
    {
        self.durations.push(duration_nanos);
    }
}

/// After a run of successfully dispatched calls, the call counter has grown
/// by exactly the number of calls in the run, and the recorded observations
/// are the earlier ones followed by the run's durations, in order. A call
/// that fails before the handler is invoked contributes no step.
pub proof fn lemma_counter_counts_calls(m: MetricsView, durations: Seq<u64>)
    ensures
        step_calls(m, durations).calls == m.calls + durations.len(),
        step_calls(m, durations).durations == m.durations + durations,
    decreases durations.len(),
{
    if durations.len() == 0 {
        assert(m.durations + durations =~= m.durations);
    } else {
        lemma_counter_counts_calls(m, durations.drop_last());
        assert(m.durations + durations =~= (m.durations + durations.drop_last()).push(
            durations.last(),
        ));
    }
}

} // verus!
