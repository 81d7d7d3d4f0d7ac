//! Composition of the sensing loop.
//!
//! One iteration of the device's only loop goes: service the watchdog;
//! take a distance sample (bounded by the sensor's own echo timeout);
//! service the watchdog; feed the sample to the baseline filter; if an
//! event came out, format its payload and run it through the publish
//! pipeline, performing each requested transport action with the
//! watchdog serviced before it; service the watchdog; sleep the
//! inter-sample interval; repeat.  The caller owns the loop, the clock,
//! the watchdog and the transport; this module owns every decision the
//! loop makes.

use crate::baseline::{BaselineFilter, BaselineState, DistanceSample, FilterConfig, ReportEvent, SensorFault};
use crate::baseline::{emitted_event, next_state};
use crate::payload::{decimal_digits, format_u64_decimal};
use crate::pipeline::{PipelineConfig, PublishPipeline};
use vstd::prelude::*;

verus! {

/// Everything tunable about the device, fixed at startup.
#[derive(Clone, Copy, Debug, PartialEq, Eq, Structural)]
pub struct SupervisorConfig {
    /// Constants of the baseline filter.
    pub filter: FilterConfig,
    /// Constants of the publish pipeline.
    pub pipeline: PipelineConfig,
    /// Pause between samples, in milliseconds.
    pub sample_interval_ms: u64,
}

/// The device's whole decision state: the filter, the pipeline, and
/// the sampling cadence.
pub struct Supervisor {
    pub filter: BaselineFilter,
    pub pipeline: PublishPipeline,
    pub sample_interval_ms: u64,
}

impl Supervisor {
    /// Both components stand within their invariants.
    pub open spec fn wf(self) -> bool {
        &&& self.filter.wf()
        &&& self.pipeline.wf()
    }

    /// A fresh supervisor: filter at its initial baseline, pipeline
    /// disconnected.
    pub fn new(config: SupervisorConfig) -> (supervisor: Supervisor)
        requires
            config.pipeline.max_connect_attempts >= 1,
        ensures
            supervisor.wf(),
            supervisor.filter.config == config.filter,
            supervisor.filter.state == (BaselineState {
                baseline_mm: config.filter.initial_baseline_mm,
                consecutive_reports: 0,
            }),
            supervisor.pipeline.config == config.pipeline,
            supervisor.pipeline.conn is Disconnected,
            supervisor.sample_interval_ms == config.sample_interval_ms,
    {
        Supervisor {
            filter: BaselineFilter::new(config.filter),
            pipeline: PublishPipeline::new(config.pipeline),
            sample_interval_ms: config.sample_interval_ms,
        }
    }

    /// Feeds one sample through the baseline filter and hands back the
    /// event to deliver, if the sample produced one.  The pipeline is
    /// untouched: delivery is the caller's next step.
    pub fn on_sample(&mut self, sample: Result<DistanceSample, SensorFault>) -> (event: Option<
        ReportEvent,
    >)
        ensures
            final(self).filter.config == old(self).filter.config,
            final(self).filter.state == next_state(
                old(self).filter.config,
                old(self).filter.state,
                sample,
            ),
            event == emitted_event(old(self).filter.config, old(self).filter.state, sample),
            final(self).pipeline == old(self).pipeline,
            final(self).sample_interval_ms == old(self).sample_interval_ms,
            old(self).wf() ==> final(self).wf(),
    {
        self.filter.observe(sample)
    }
}

/// The over-the-wire payload of a report event: the reported distance
/// in millimeters as plain decimal text.
pub fn event_payload(event: &ReportEvent) -> (payload: Vec<u8>)
    ensures
        payload@ == decimal_digits(event.distance_mm as nat),
{
    format_u64_decimal(event.distance_mm)
}

} // verus!
