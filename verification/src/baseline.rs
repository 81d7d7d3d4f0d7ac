//! Baseline-deviation detection over a stream of distance samples.
//!
//! The filter keeps a "baseline": the currently believed resting
//! distance.  Samples at or beyond the baseline push it outward — a
//! re-baseline that also clears the run of reports — so the filter
//! tracks a slowly receding background.  A sample strictly more
//! than `trigger_delta_mm` below the baseline is a report: something
//! moved closer.  Samples below the baseline but within the delta fall
//! in the hysteresis dead zone and change nothing.  A run of
//! consecutive reports longer than `max_consecutive_reports` forces a
//! re-baseline to the reported distance, so an object that stays close
//! becomes the new normal instead of reporting forever.
//!
//! The filter is a pure state machine: faults and elapsed time never
//! change its state, and a fixed sample sequence always produces the
//! same events.

use vstd::prelude::*;

verus! {

/// A single ranging attempt that produced no usable distance.
#[derive(Clone, Copy, Debug, PartialEq, Eq, Structural)]
pub enum SensorFault {
    /// The echo line never rose: nothing reflected the pulse back.
    NoEcho,
    /// The echo wait exceeded its bound before the line settled.
    Timeout,
}

/// One valid distance measurement.
#[derive(Clone, Copy, Debug, PartialEq, Eq, Structural)]
pub struct DistanceSample {
    /// Measured distance in whole millimeters.
    pub millimeters: u64,
    /// Monotonic timestamp of the measurement, in microseconds since
    /// boot.  Recorded for telemetry only: the filter's decisions never
    /// depend on it.
    pub measured_at: u64,
}

/// The broker channel an outgoing message is addressed to.
#[derive(Clone, Copy, Debug, PartialEq, Eq, Structural)]
pub enum StaticTopic {
    /// The data channel carrying reported distances.
    Data,
    /// The status channel carrying liveness messages.
    Status,
}

/// A "something moved closer" event, emitted at most once per sample
/// and never for a fault.
#[derive(Clone, Copy, Debug, PartialEq, Eq, Structural)]
pub struct ReportEvent {
    /// The distance that triggered the report, in millimeters.
    pub distance_mm: u64,
    /// The fixed channel such reports go out on.
    pub topic: StaticTopic,
}

/// Tunable constants of the filter, fixed at construction.
#[derive(Clone, Copy, Debug, PartialEq, Eq, Structural)]
pub struct FilterConfig {
    /// Baseline the filter starts from, in millimeters.
    pub initial_baseline_mm: u64,
    /// How far below the baseline a sample must fall, exclusively,
    /// before it counts as a report, in millimeters.
    pub trigger_delta_mm: u64,
    /// Number of consecutive reports after which the next report
    /// forces a re-baseline.
    pub max_consecutive_reports: u8,
}

/// The filter's mutable state.
#[derive(Clone, Copy, Debug, PartialEq, Eq, Structural)]
pub struct BaselineState {
    /// The currently believed resting distance, in millimeters.
    pub baseline_mm: u64,
    /// How many consecutive reports have fired since the last
    /// re-baseline.
    pub consecutive_reports: u8,
}

/// Whether `mm` falls strictly below the baseline by more than the
/// trigger delta: the report condition.
pub open spec fn report_condition(config: FilterConfig, state: BaselineState, mm: u64) -> bool {
    mm + config.trigger_delta_mm < state.baseline_mm
}

/// The filter state after one sample.  The policy, first match wins:
/// a fault changes nothing; a sample at or beyond the baseline becomes
/// the baseline, and that re-baseline puts the consecutive-report
/// counter back to zero; a sample more than the delta below the
/// baseline is a report, which bumps the counter and, once the counter
/// would exceed its ceiling, re-baselines to the sample and clears it;
/// any other sample changes nothing.
pub open spec fn next_state(
    config: FilterConfig,
    state: BaselineState,
    sample: Result<DistanceSample, SensorFault>,
) -> BaselineState {
    match sample {
        Err(_) => state,
        Ok(s) => {
            if s.millimeters >= state.baseline_mm {
                BaselineState { baseline_mm: s.millimeters, consecutive_reports: 0 }
            } else if report_condition(config, state, s.millimeters) {
                if state.consecutive_reports + 1 > config.max_consecutive_reports {
                    BaselineState { baseline_mm: s.millimeters, consecutive_reports: 0 }
                } else {
                    BaselineState {
                        consecutive_reports: (state.consecutive_reports + 1) as u8,
                        ..state
                    }
                }
            } else {
                state
            }
        },
    }
}

/// The event one sample emits: a report for exactly the samples that
/// meet the report condition, carrying the sample's distance on the
/// data channel, and nothing otherwise.
pub open spec fn emitted_event(
    config: FilterConfig,
    state: BaselineState,
    sample: Result<DistanceSample, SensorFault>,
) -> Option<ReportEvent> {
    match sample {
        Err(_) => None,
        Ok(s) => {
            if s.millimeters < state.baseline_mm && report_condition(config, state, s.millimeters) {
                Some(ReportEvent { distance_mm: s.millimeters, topic: StaticTopic::Data })
            } else {
                None
            }
        },
    }
}

/// The baseline-deviation filter: configuration plus current state.
#[derive(Clone, Copy, Debug, PartialEq, Eq, Structural)]
pub struct BaselineFilter {
    pub config: FilterConfig,
    pub state: BaselineState,
}

impl BaselineFilter {
    /// The consecutive-report counter never passes its ceiling.
    pub open spec fn wf(self) -> bool {
        self.state.consecutive_reports <= self.config.max_consecutive_reports
    }

    /// A fresh filter: the configured initial baseline, counter at zero.
    pub fn new(config: FilterConfig) -> (filter: BaselineFilter)
        ensures
            filter.config == config,
            filter.state == (BaselineState {
                baseline_mm: config.initial_baseline_mm,
                consecutive_reports: 0,
            }),
            filter.wf(),
    {
        BaselineFilter {
            config,
            state: BaselineState { baseline_mm: config.initial_baseline_mm, consecutive_reports: 0 },
        }
    }

    /// Feeds one sample (or fault) through the filter and returns the
    /// event it emits, if any.  A fault never changes the state and
    /// never emits.
    pub fn observe(&mut self, sample: Result<DistanceSample, SensorFault>) -> (event: Option<
        ReportEvent,
    >)
        ensures
            final(self).config == old(self).config,
            final(self).state == next_state(old(self).config, old(self).state, sample),
            event == emitted_event(old(self).config, old(self).state, sample),
            sample is Err ==> final(self).state == old(self).state && event is None,
            old(self).wf() ==> final(self).wf(),
    {
        match sample {
            Err(_) => None,
            Ok(s) => {
                if s.millimeters >= self.state.baseline_mm {
                    self.state.baseline_mm = s.millimeters;
                    self.state.consecutive_reports = 0;
                    None
                } else if self.state.baseline_mm - s.millimeters > self.config.trigger_delta_mm {
                    if self.state.consecutive_reports >= self.config.max_consecutive_reports {
                        self.state.baseline_mm = s.millimeters;
                        self.state.consecutive_reports = 0;
                    } else {
                        self.state.consecutive_reports = self.state.consecutive_reports + 1;
                    }
                    Some(ReportEvent { distance_mm: s.millimeters, topic: StaticTopic::Data })
                } else {
                    None
                }
            },
        }
    }
}

/// The filter state after a whole sequence of samples, fed in order.
pub open spec fn run_filter(
    config: FilterConfig,
    state: BaselineState,
    inputs: Seq<Result<DistanceSample, SensorFault>>,
) -> BaselineState
    decreases inputs.len(),
{
    if inputs.len() == 0 {
        state
    } else {
        run_filter(config, next_state(config, state, inputs[0]), inputs.drop_first())
    }
}

/// The events a whole sequence of samples emits, one slot per sample.
pub open spec fn run_events(
    config: FilterConfig,
    state: BaselineState,
    inputs: Seq<Result<DistanceSample, SensorFault>>,
) -> Seq<Option<ReportEvent>>
    decreases inputs.len(),
{
    if inputs.len() == 0 {
        Seq::empty()
    } else {
        seq![emitted_event(config, state, inputs[0])] + run_events(
            config,
            next_state(config, state, inputs[0]),
            inputs.drop_first(),
        )
    }
}

/// A sample stream that opens at or beyond the baseline and then rises
/// strictly: the shape of a receding background.
pub open spec fn rising_from(
    state: BaselineState,
    inputs: Seq<Result<DistanceSample, SensorFault>>,
) -> bool {
    &&& forall|i: int| 0 <= i < inputs.len() ==> inputs[i] is Ok
    &&& inputs.len() > 0 ==> inputs[0]->Ok_0.millimeters >= state.baseline_mm
    &&& forall|i: int|
        0 < i < inputs.len() ==> (#[trigger] inputs[i])->Ok_0.millimeters > inputs[i
            - 1]->Ok_0.millimeters
}

/// Monotonic drift tracking: a stream of valid samples that rises from
/// the baseline emits no event, and after each step the baseline equals
/// the sample just seen; each step is a re-baseline, so the stream
/// leaves the consecutive-report counter at zero.
pub proof fn lemma_drift_tracking(
    config: FilterConfig,
    state: BaselineState,
    inputs: Seq<Result<DistanceSample, SensorFault>>,
)
    requires
        rising_from(state, inputs),
    ensures
        forall|i: int| 0 <= i < inputs.len() ==> run_events(config, state, inputs)[i] is None,
        forall|i: int|
            0 <= i < inputs.len() ==> run_filter(config, state, inputs.take(i + 1)).baseline_mm
                == inputs[i]->Ok_0.millimeters,
        inputs.len() > 0 ==> run_filter(config, state, inputs).consecutive_reports == 0,
{
    lemma_drift_steps(config, state, inputs);
    assert forall|i: int| 0 <= i < inputs.len() implies run_filter(
        config,
        state,
        inputs.take(i + 1),
    ).baseline_mm == inputs[i]->Ok_0.millimeters by {
        let prefix = inputs.take(i + 1);
        assert forall|j: int| 0 <= j < prefix.len() implies prefix[j] is Ok by {
            assert(prefix[j] == inputs[j]);
        }
        assert forall|j: int|
            0 < j < prefix.len() implies (#[trigger] prefix[j])->Ok_0.millimeters > prefix[j
                - 1]->Ok_0.millimeters by {
            assert(prefix[j] == inputs[j]);
            assert(prefix[j - 1] == inputs[j - 1]);
        }
        assert(prefix[0] == inputs[0]);
        lemma_drift_steps(config, state, prefix);
        assert(prefix.last() == inputs[i]);
    }
}

/// Induction workhorse behind [`lemma_drift_tracking`]: over a whole
/// rising stream, no events, final baseline at the last sample, counter
/// cleared.
proof fn lemma_drift_steps(
    config: FilterConfig,
    state: BaselineState,
    inputs: Seq<Result<DistanceSample, SensorFault>>,
)
    requires
        rising_from(state, inputs),
    ensures
        forall|i: int| 0 <= i < inputs.len() ==> run_events(config, state, inputs)[i] is None,
        inputs.len() > 0 ==> run_filter(config, state, inputs).baseline_mm
            == inputs.last()->Ok_0.millimeters,
        inputs.len() > 0 ==> run_filter(config, state, inputs).consecutive_reports == 0,
    decreases inputs.len(),
{
    if inputs.len() > 0 {
        let first = inputs[0];
        let state1 = next_state(config, state, first);
        let rest = inputs.drop_first();
        assert(state1.baseline_mm == first->Ok_0.millimeters);
        assert(state1.consecutive_reports == 0);
        assert(emitted_event(config, state, first) is None);
        assert(rising_from(state1, rest));
        lemma_drift_steps(config, state1, rest);
        lemma_run_events_len(config, state1, rest);
        assert(run_events(config, state, inputs) == seq![emitted_event(config, state, first)]
            + run_events(config, state1, rest));
        assert forall|i: int| 0 <= i < inputs.len() implies run_events(config, state, inputs)[i]
            is None by {
            if i > 0 {
                assert(run_events(config, state1, rest)[i - 1] is None);
                assert((seq![emitted_event(config, state, first)] + run_events(
                    config,
                    state1,
                    rest,
                ))[i] == run_events(config, state1, rest)[i - 1]);
            }
        }
        assert(run_filter(config, state, inputs) == run_filter(config, state1, rest));
        if rest.len() == 0 {
            assert(run_filter(config, state1, rest) == state1);
            assert(inputs.last() == first);
        } else {
            assert(inputs.last() == rest.last());
        }
    }
}

/// The filter is a pure function of the ordinal sample sequence: the
/// timestamp a sample carries never affects the state it produces or
/// the event it emits — two samples of the same distance are
/// indistinguishable to the filter.
pub proof fn lemma_timestamps_ignored(
    config: FilterConfig,
    state: BaselineState,
    first: DistanceSample,
    second: DistanceSample,
)
    requires
        first.millimeters == second.millimeters,
    ensures
        next_state(config, state, Ok(first)) == next_state(config, state, Ok(second)),
        emitted_event(config, state, Ok(first)) == emitted_event(config, state, Ok(second)),
{
}

/// Fault transparency, stated for one sample: a fault leaves the state
/// untouched and emits nothing, whatever the prior state.
pub proof fn lemma_fault_leaves_state(
    config: FilterConfig,
    state: BaselineState,
    fault: SensorFault,
)
    ensures
        next_state(config, state, Err(fault)) == state,
        emitted_event(config, state, Err(fault)) is None,
{
}

/// Fault transparency, stated for a stream: inserting a fault anywhere
/// in a sample sequence leaves the final state unchanged, and the event
/// sequence is the original with one empty slot inserted where the
/// fault went.
pub proof fn lemma_fault_transparent_run(
    config: FilterConfig,
    state: BaselineState,
    inputs: Seq<Result<DistanceSample, SensorFault>>,
    at: int,
    fault: SensorFault,
)
    requires
        0 <= at <= inputs.len(),
    ensures
        run_filter(config, state, inputs.insert(at, Err(fault))) == run_filter(
            config,
            state,
            inputs,
        ),
        run_events(config, state, inputs.insert(at, Err(fault))) == run_events(
            config,
            state,
            inputs,
        ).insert(at, None),
    decreases inputs.len() + at,
{
    let with_fault = inputs.insert(at, Err(fault));
    if at == 0 {
        assert(with_fault[0] == Err::<DistanceSample, SensorFault>(fault));
        assert(with_fault.drop_first() =~= inputs);
        assert(run_events(config, state, with_fault) =~= run_events(
            config,
            state,
            inputs,
        ).insert(0, None));
    } else {
        let state1 = next_state(config, state, inputs[0]);
        let rest = inputs.drop_first();
        let first_event = emitted_event(config, state, inputs[0]);
        assert(with_fault[0] == inputs[0]);
        assert(with_fault.drop_first() =~= rest.insert(at - 1, Err(fault)));
        lemma_fault_transparent_run(config, state1, rest, at - 1, fault);
        lemma_run_events_len(config, state1, rest);
        assert(run_events(config, state, with_fault) == seq![first_event] + run_events(
            config,
            state1,
            rest,
        ).insert(at - 1, None));
        assert(run_events(config, state, inputs) == seq![first_event] + run_events(
            config,
            state1,
            rest,
        ));
        assert(run_events(config, state, with_fault) =~= run_events(
            config,
            state,
            inputs,
        ).insert(at, None));
    }
}

/// A sample sequence emits exactly one event slot per sample.
pub proof fn lemma_run_events_len(
    config: FilterConfig,
    state: BaselineState,
    inputs: Seq<Result<DistanceSample, SensorFault>>,
)
    ensures
        run_events(config, state, inputs).len() == inputs.len(),
    decreases inputs.len(),
{
    if inputs.len() > 0 {
        lemma_run_events_len(config, next_state(config, state, inputs[0]), inputs.drop_first());
    }
}

/// Hysteresis: a sample at exactly the baseline minus the trigger delta
/// does not report — the boundary is exclusive — while any sample
/// strictly below that boundary does, carrying its own distance.
pub proof fn lemma_hysteresis(
    config: FilterConfig,
    state: BaselineState,
    at_boundary: DistanceSample,
    inside: DistanceSample,
)
    requires
        state.baseline_mm >= config.trigger_delta_mm,
        at_boundary.millimeters == state.baseline_mm - config.trigger_delta_mm,
        inside.millimeters < state.baseline_mm - config.trigger_delta_mm,
    ensures
        emitted_event(config, state, Ok(at_boundary)) is None,
        emitted_event(config, state, Ok(inside)) is Some,
        emitted_event(config, state, Ok(inside))->0.distance_mm == inside.millimeters,
{
}

/// Re-baseline ceiling: a constant sample below the report boundary,
/// injected over and over into a filter whose counter starts at zero,
/// reports on every single call; through the first
/// `max_consecutive_reports` calls the baseline stands and the counter
/// climbs in step, and the call after that re-baselines to the sample
/// and puts the counter back to zero.
pub proof fn lemma_rebaseline_ceiling(
    config: FilterConfig,
    state: BaselineState,
    inputs: Seq<Result<DistanceSample, SensorFault>>,
    constant_mm: u64,
)
    requires
        state.consecutive_reports == 0,
        constant_mm + config.trigger_delta_mm < state.baseline_mm,
        inputs.len() == config.max_consecutive_reports + 1,
        forall|i: int|
            0 <= i < inputs.len() ==> inputs[i] is Ok && inputs[i]->Ok_0.millimeters
                == constant_mm,
    ensures
        forall|i: int| 0 <= i < inputs.len() ==> run_events(config, state, inputs)[i] is Some,
        run_filter(config, state, inputs) == (BaselineState {
            baseline_mm: constant_mm,
            consecutive_reports: 0,
        }),
{
    lemma_rebaseline_steps(config, state, inputs, constant_mm, state.baseline_mm);
}

/// Induction workhorse behind [`lemma_rebaseline_ceiling`], generalized
/// over the counter the filter has already reached.
proof fn lemma_rebaseline_steps(
    config: FilterConfig,
    state: BaselineState,
    inputs: Seq<Result<DistanceSample, SensorFault>>,
    constant_mm: u64,
    baseline_mm: u64,
)
    requires
        state.baseline_mm == baseline_mm,
        state.consecutive_reports <= config.max_consecutive_reports,
        state.consecutive_reports + inputs.len() == config.max_consecutive_reports + 1,
        constant_mm + config.trigger_delta_mm < baseline_mm,
        forall|i: int|
            0 <= i < inputs.len() ==> inputs[i] is Ok && inputs[i]->Ok_0.millimeters
                == constant_mm,
    ensures
        forall|i: int| 0 <= i < inputs.len() ==> run_events(config, state, inputs)[i] is Some,
        run_filter(config, state, inputs) == (BaselineState {
            baseline_mm: constant_mm,
            consecutive_reports: 0,
        }),
    decreases inputs.len(),
{
    let first = inputs[0];
    let state1 = next_state(config, state, first);
    let rest = inputs.drop_first();
    assert(emitted_event(config, state, first) is Some);
    if inputs.len() == 1 {
        assert(state.consecutive_reports == config.max_consecutive_reports);
        assert(state1 == BaselineState { baseline_mm: constant_mm, consecutive_reports: 0 });
        assert(run_filter(config, state1, rest) == state1);
    } else {
        assert(state.consecutive_reports < config.max_consecutive_reports);
        assert(state1.baseline_mm == baseline_mm);
        assert(state1.consecutive_reports == state.consecutive_reports + 1);
        lemma_rebaseline_steps(config, state1, rest, constant_mm, baseline_mm);
        lemma_run_events_len(config, state1, rest);
        assert(run_events(config, state, inputs) == seq![emitted_event(config, state, first)]
            + run_events(config, state1, rest));
        assert forall|i: int| 0 <= i < inputs.len() implies run_events(config, state, inputs)[i]
            is Some by {
            if i > 0 {
                assert(run_events(config, state1, rest)[i - 1] is Some);
                assert((seq![emitted_event(config, state, first)] + run_events(
                    config,
                    state1,
                    rest,
                ))[i] == run_events(config, state1, rest)[i - 1]);
            }
        }
    }
}

} // verus!
