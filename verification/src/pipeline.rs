//! Resilient delivery of report events to a remote broker.
//!
//! The pipeline is the decision half of a connect/publish/retry
//! protocol.  The caller owns the transport: it performs each action
//! the pipeline asks for — opening a connection with a timeout, backing
//! off, sending the payload — services the hardware watchdog before
//! every action, and feeds the outcome back as a [`TransportEvent`].
//! The pipeline decides what comes next: connection attempts retry with
//! a fixed backoff up to `max_connect_attempts`; publish attempts retry
//! without backoff up to `max_publish_retries`; exhausting either
//! ceiling is fatal, and the only sane response to a fatal fault on a
//! headless device is a full reset.

use vstd::prelude::*;

verus! {

/// Tunable constants of the pipeline, fixed at construction.
#[derive(Clone, Copy, Debug, PartialEq, Eq, Structural)]
pub struct PipelineConfig {
    /// How many connection attempts may fail before the pipeline gives
    /// up for good.  Must be at least one.
    pub max_connect_attempts: u32,
    /// How many publish attempts may fail, beyond the first, before the
    /// pipeline gives up for good.
    pub max_publish_retries: u32,
    /// Deadline the transport must impose on a single connection
    /// attempt, in milliseconds.
    pub connect_timeout_ms: u64,
    /// Pause between failed connection attempts, in milliseconds.
    pub connect_backoff_ms: u64,
}

/// Where the pipeline stands with its transport connection.
#[derive(Clone, Copy, Debug, PartialEq, Eq, Structural)]
pub enum ConnState {
    /// No connection and no attempt in flight.
    Disconnected,
    /// A connection attempt is in flight; `attempts_failed` attempts
    /// have already failed this delivery.
    Connecting { attempts_failed: u32 },
    /// The transport is connected and may be reused across deliveries.
    Connected,
    /// A retry ceiling was exhausted.  Terminal: the device resets.
    Failed,
}

/// What the transport reports back after performing an action.
#[derive(Clone, Copy, Debug, PartialEq, Eq, Structural)]
pub enum TransportEvent {
    /// The connection attempt in flight succeeded.
    ConnectSucceeded,
    /// The connection attempt in flight failed or timed out.
    ConnectFailed,
    /// The payload was accepted by the broker.
    PublishSucceeded,
    /// The publish attempt failed or was not acknowledged.
    PublishFailed,
}

/// What the caller must do next.  The caller services the watchdog
/// before carrying out each action, so no retry loop can starve it.
#[derive(Clone, Copy, Debug, PartialEq, Eq, Structural)]
pub enum PipelineAction {
    /// Open a connection, bounded by the given timeout.
    Connect { timeout_ms: u64 },
    /// Wait out the backoff, then open a connection bounded by the
    /// given timeout.
    BackoffThenConnect { backoff_ms: u64, timeout_ms: u64 },
    /// Send the event payload over the connected transport.
    Publish,
    /// The delivery is complete; nothing more to do.
    Done,
    /// A retry ceiling was exhausted: reset the whole device.
    FatalReset,
}

/// The delivery fault taxonomy: a transient fault is retried locally;
/// an exhausted retry ceiling is fatal and ends in a device reset.
#[derive(Clone, Copy, Debug, PartialEq, Eq, Structural)]
pub enum DeliveryFault {
    /// One attempt failed; the pipeline retries by itself.
    Transient,
    /// The retry budget is spent; no local recovery is possible.
    Exhausted,
}

/// The publish pipeline: configuration plus connection state and the
/// count of failed publish attempts for the delivery under way.
#[derive(Clone, Copy, Debug, PartialEq, Eq, Structural)]
pub struct PublishPipeline {
    pub config: PipelineConfig,
    pub conn: ConnState,
    pub publish_failures: u32,
}

/// Whether the pipeline is prepared to receive the given transport
/// event: connection outcomes only while connecting, publish outcomes
/// only while connected.
pub open spec fn accepts_event(pipeline: PublishPipeline, event: TransportEvent) -> bool {
    match event {
        TransportEvent::ConnectSucceeded | TransportEvent::ConnectFailed => pipeline.conn
            is Connecting,
        TransportEvent::PublishSucceeded | TransportEvent::PublishFailed => pipeline.conn
            is Connected,
    }
}

/// The transition the pipeline makes on one transport event: the state
/// after the event and the action the caller must perform next.
pub open spec fn step(pipeline: PublishPipeline, event: TransportEvent) -> (PublishPipeline, PipelineAction) {
    let config = pipeline.config;
    match event {
        TransportEvent::ConnectSucceeded => (
            PublishPipeline { conn: ConnState::Connected, ..pipeline },
            PipelineAction::Publish,
        ),
        TransportEvent::ConnectFailed => {
            let failed = pipeline.conn->Connecting_attempts_failed;
            if failed + 1 >= config.max_connect_attempts {
                (PublishPipeline { conn: ConnState::Failed, ..pipeline }, PipelineAction::FatalReset)
            } else {
                (
                    PublishPipeline {
                        conn: ConnState::Connecting { attempts_failed: (failed + 1) as u32 },
                        ..pipeline
                    },
                    PipelineAction::BackoffThenConnect {
                        backoff_ms: config.connect_backoff_ms,
                        timeout_ms: config.connect_timeout_ms,
                    },
                )
            }
        },
        TransportEvent::PublishSucceeded => (
            PublishPipeline { publish_failures: 0, ..pipeline },
            PipelineAction::Done,
        ),
        TransportEvent::PublishFailed => {
            if pipeline.publish_failures + 1 > config.max_publish_retries {
                (PublishPipeline { conn: ConnState::Failed, ..pipeline }, PipelineAction::FatalReset)
            } else {
                (
                    PublishPipeline {
                        publish_failures: (pipeline.publish_failures + 1) as u32,
                        ..pipeline
                    },
                    PipelineAction::Publish,
                )
            }
        },
    }
}

impl PublishPipeline {
    /// The failure counters never pass their ceilings.
    pub open spec fn wf(self) -> bool {
        &&& self.config.max_connect_attempts >= 1
        &&& self.conn is Connecting ==> self.conn->Connecting_attempts_failed
            < self.config.max_connect_attempts
        &&& self.publish_failures <= self.config.max_publish_retries
    }

    /// A fresh pipeline: disconnected, with no failures on record.
    pub fn new(config: PipelineConfig) -> (pipeline: PublishPipeline)
        requires
            config.max_connect_attempts >= 1,
        ensures
            pipeline.config == config,
            pipeline.conn is Disconnected,
            pipeline.publish_failures == 0,
            pipeline.wf(),
    {
        PublishPipeline { config, conn: ConnState::Disconnected, publish_failures: 0 }
    }

    /// Starts delivering one event.  On a live connection the payload
    /// goes straight out; otherwise a fresh connection sequence starts
    /// with its first attempt.  A pipeline that has already failed only
    /// asks for the reset again.
    pub fn begin_delivery(&mut self) -> (action: PipelineAction)
        requires
            old(self).wf(),
            !(old(self).conn is Connecting),
        ensures
            final(self).wf(),
            final(self).config == old(self).config,
            old(self).conn is Connected ==> final(self).conn is Connected
                && final(self).publish_failures == 0 && action == PipelineAction::Publish,
            old(self).conn is Disconnected ==> final(self).conn == (ConnState::Connecting {
                attempts_failed: 0,
            }) && final(self).publish_failures == 0 && action == (PipelineAction::Connect {
                timeout_ms: old(self).config.connect_timeout_ms,
            }),
            old(self).conn is Failed ==> *final(self) == *old(self) && action
                == PipelineAction::FatalReset,
    {
        match self.conn {
            ConnState::Connected => {
                self.publish_failures = 0;
                PipelineAction::Publish
            },
            ConnState::Disconnected => {
                self.conn = ConnState::Connecting { attempts_failed: 0 };
                self.publish_failures = 0;
                PipelineAction::Connect { timeout_ms: self.config.connect_timeout_ms }
            },
            _ => PipelineAction::FatalReset,
        }
    }

    /// Feeds one transport outcome into the pipeline and returns the
    /// next action: retry with backoff while connection attempts
    /// remain, retry a failed publish without backoff while the publish
    /// budget lasts, and ask for a device reset the moment either
    /// ceiling is exhausted.
    pub fn on_transport_event(&mut self, event: TransportEvent) -> (action: PipelineAction)
        requires
            old(self).wf(),
            accepts_event(*old(self), event),
        ensures
            (*final(self), action) == step(*old(self), event),
            final(self).wf() || final(self).conn is Failed,
            final(self).config == old(self).config,
    {
        match event {
            TransportEvent::ConnectSucceeded => {
                self.conn = ConnState::Connected;
                PipelineAction::Publish
            },
            TransportEvent::ConnectFailed => {
                let failed = match self.conn {
                    ConnState::Connecting { attempts_failed } => attempts_failed,
                    _ => 0,
                };
                if failed + 1 >= self.config.max_connect_attempts {
                    self.conn = ConnState::Failed;
                    PipelineAction::FatalReset
                } else {
                    self.conn = ConnState::Connecting { attempts_failed: failed + 1 };
                    PipelineAction::BackoffThenConnect {
                        backoff_ms: self.config.connect_backoff_ms,
                        timeout_ms: self.config.connect_timeout_ms,
                    }
                }
            },
            TransportEvent::PublishSucceeded => {
                self.publish_failures = 0;
                PipelineAction::Done
            },
            TransportEvent::PublishFailed => {
                if self.publish_failures >= self.config.max_publish_retries {
                    self.conn = ConnState::Failed;
                    PipelineAction::FatalReset
                } else {
                    self.publish_failures = self.publish_failures + 1;
                    PipelineAction::Publish
                }
            },
        }
    }

    /// The transport noticed that an established connection silently
    /// died: the pipeline drops back to disconnected and the next
    /// delivery starts a fresh connection sequence.
    pub fn connection_lost(&mut self)
        requires
            old(self).wf(),
            old(self).conn is Connected,
        ensures
            final(self).wf(),
            final(self).config == old(self).config,
            final(self).conn is Disconnected,
            final(self).publish_failures == 0,
    {
        self.conn = ConnState::Disconnected;
        self.publish_failures = 0;
    }

    /// The fault one transport outcome amounts to: a failed attempt is
    /// a transient fault — the pipeline recovers from it by itself — and
    /// a successful one is none at all.
    pub fn event_fault(event: &TransportEvent) -> (fault: Option<DeliveryFault>)
        ensures
            fault == match event {
                TransportEvent::ConnectFailed | TransportEvent::PublishFailed => Some(
                    DeliveryFault::Transient,
                ),
                _ => Option::<DeliveryFault>::None,
            },
    {
        match event {
            TransportEvent::ConnectFailed | TransportEvent::PublishFailed => Some(
                DeliveryFault::Transient,
            ),
            _ => None,
        }
    }

    /// The delivery fault the pipeline's state amounts to: exhausted
    /// once it has failed for good, and nothing otherwise.
    pub fn delivery_fault(&self) -> (fault: Option<DeliveryFault>)
        ensures
            fault == if self.conn is Failed {
                Some(DeliveryFault::Exhausted)
            } else {
                Option::<DeliveryFault>::None
            },
    {
        match self.conn {
            ConnState::Failed => Some(DeliveryFault::Exhausted),
            _ => None,
        }
    }
}

/// The pipeline after `failures` consecutive failed connection
/// attempts, starting from a fresh connection sequence.
pub open spec fn after_connect_failures(pipeline: PublishPipeline, failures: nat) -> PublishPipeline
    decreases failures,
{
    if failures == 0 {
        pipeline
    } else {
        step(after_connect_failures(pipeline, (failures - 1) as nat), TransportEvent::ConnectFailed).0
    }
}

/// Connect-retry bound: against a transport whose connection attempts
/// all fail, a fresh connection sequence retries with backoff on every
/// failure before the configured ceiling, and the failure that reaches
/// the ceiling — exactly the `max_connect_attempts`-th — makes the
/// pipeline fail for good and ask for the device reset: not before, and
/// nothing further after.
pub proof fn lemma_connect_retry_bound(pipeline: PublishPipeline, failures: nat)
    requires
        pipeline.wf(),
        pipeline.conn == (ConnState::Connecting { attempts_failed: 0 }),
        1 <= failures <= pipeline.config.max_connect_attempts,
    ensures
        failures < pipeline.config.max_connect_attempts ==> after_connect_failures(
            pipeline,
            failures,
        ).conn == (ConnState::Connecting { attempts_failed: failures as u32 }) && step(
            after_connect_failures(pipeline, (failures - 1) as nat),
            TransportEvent::ConnectFailed,
        ).1 == (PipelineAction::BackoffThenConnect {
            backoff_ms: pipeline.config.connect_backoff_ms,
            timeout_ms: pipeline.config.connect_timeout_ms,
        }),
        failures == pipeline.config.max_connect_attempts ==> after_connect_failures(
            pipeline,
            failures,
        ).conn is Failed && step(
            after_connect_failures(pipeline, (failures - 1) as nat),
            TransportEvent::ConnectFailed,
        ).1 == PipelineAction::FatalReset,
        after_connect_failures(pipeline, failures).config == pipeline.config,
    decreases failures,
{
    if failures > 1 {
        lemma_connect_retry_bound(pipeline, (failures - 1) as nat);
    }
}

/// The pipeline after `failures` consecutive failed publish attempts on
/// a live connection.
pub open spec fn after_publish_failures(pipeline: PublishPipeline, failures: nat) -> PublishPipeline
    decreases failures,
{
    if failures == 0 {
        pipeline
    } else {
        step(after_publish_failures(pipeline, (failures - 1) as nat), TransportEvent::PublishFailed).0
    }
}

/// Publish-retry bound: on a connection whose publish attempts all
/// fail, the pipeline asks for an immediate retry — no backoff — for
/// every failure up to and including the configured retry budget, and
/// the failure after that fails the pipeline for good and asks for the
/// device reset.
pub proof fn lemma_publish_retry_bound(pipeline: PublishPipeline, failures: nat)
    requires
        pipeline.wf(),
        pipeline.conn is Connected,
        pipeline.publish_failures == 0,
        1 <= failures <= pipeline.config.max_publish_retries + 1,
    ensures
        failures <= pipeline.config.max_publish_retries ==> after_publish_failures(
            pipeline,
            failures,
        ) == (PublishPipeline { publish_failures: failures as u32, ..pipeline }) && step(
            after_publish_failures(pipeline, (failures - 1) as nat),
            TransportEvent::PublishFailed,
        ).1 == PipelineAction::Publish,
        failures == pipeline.config.max_publish_retries + 1 ==> after_publish_failures(
            pipeline,
            failures,
        ).conn is Failed && step(
            after_publish_failures(pipeline, (failures - 1) as nat),
            TransportEvent::PublishFailed,
        ).1 == PipelineAction::FatalReset,
    decreases failures,
{
    if failures > 1 {
        lemma_publish_retry_bound(pipeline, (failures - 1) as nat);
    }
}

} // verus!
