//! Decisions of the render/deliver task that triage runs for each job.
//!
//! The task forwards the raw payload when it is within the raw cap, then has
//! the payload converted under a deadline and forwards the converted artifact
//! when it is within the converted cap. Whoever runs the task performs each
//! action that `Renderer::step` returns and reports the outcome as the next
//! event. Failures end a branch and are recorded; none stops the task.

use vstd::prelude::*;

verus! {

/// Where a render/deliver task stands.
#[derive(Debug, Clone, Copy, PartialEq, Eq, Structural)]
pub enum RenderStage {
    /// Payload persisted; the raw forward is under way.
    Started,
    /// Raw forward attempted (or skipped); conversion under way.
    RawForwardAttempted,
    /// Conversion finished within the cap; the converted forward is under way.
    ConversionOk,
    /// Nothing more to do.
    Done,
}

/// How an attempt to forward an artifact ended.
#[derive(Debug, Clone, Copy, PartialEq, Eq, Structural)]
pub enum Delivery {
    Sent,
    /// Over its size cap: the sink was not called.
    TooLarge,
    /// The notification sink reported an error.
    SinkFailed,
}

/// Why the conversion branch ended without a converted forward.
#[derive(Debug, Clone, Copy, PartialEq, Eq, Structural)]
pub enum RenderError {
    ConversionTimeout,
    ConversionFailed,
    ArtifactTooLarge,
}

/// What the runner reports back.
#[derive(Debug, Clone, Copy, PartialEq, Eq, Structural)]
pub enum RenderEvent {
    /// The raw forward ended; `ok` when the sink accepted it.
    RawForwarded { ok: bool },
    /// The converter finished within the deadline, with an artifact of `size`
    /// bytes.
    Converted { size: u64 },
    /// The converter did not finish within the deadline.
    ConversionTimedOut,
    /// The converter failed.
    ConversionFailed,
    /// The converted forward ended; `ok` when the sink accepted it.
    ConvertedForwarded { ok: bool },
}

/// What the runner does next.
#[derive(Debug, Clone, Copy, PartialEq, Eq, Structural)]
pub enum RenderAction {
    /// Forward the raw payload with its metadata.
    ForwardRaw,
    /// Run the converter under a deadline of `deadline_secs` seconds.
    Convert { deadline_secs: u64 },
    /// Forward the converted artifact.
    ForwardConverted,
    /// The task is done.
    Finish,
    /// The event does not fit the stage: nothing to do.
    Ignore,
}

/// The record of a render/deliver task.
#[derive(Debug, Clone, Copy, PartialEq, Eq)]
pub struct RenderTask {
    pub stage: RenderStage,
    /// How the raw forward ended, once it did.
    pub raw: Option<Delivery>,
    /// How the converted forward ended, once it did.
    pub converted: Option<Delivery>,
    /// Why the conversion branch ended early, if it did.
    pub failure: Option<RenderError>,
}

/// Limits and settings of the render/deliver task.
#[derive(Clone, Debug)]
pub struct Renderer {
    max_file_size: usize,
    max_file_size_discord: usize,
    webhook_url: String,
    timeout: u64,
}

impl Renderer {
    /// Largest raw payload that is forwarded.
    pub closed spec fn raw_cap(&self) -> nat {
        self.max_file_size as nat
    }

    /// Largest converted artifact that is forwarded.
    pub closed spec fn converted_cap(&self) -> nat {
        self.max_file_size_discord as nat
    }

    /// Where forwarded artifacts go.
    pub closed spec fn sink(&self) -> Seq<char> {
        self.webhook_url@
    }

    /// Conversion deadline in seconds.
    pub closed spec fn deadline(&self) -> u64 {
        self.timeout
    }

    pub fn new(max_file_size: usize, max_file_size_discord: usize, webhook_url: String, timeout: u64) -> (r: Renderer)
        ensures
            r.raw_cap() == max_file_size,
            r.converted_cap() == max_file_size_discord,
            r.sink() == webhook_url@,
            r.deadline() == timeout,
    {
        Renderer { max_file_size, max_file_size_discord, webhook_url, timeout }
    }

    /// Where forwarded artifacts go.
    pub fn webhook_url(&self) -> (r: &str)
        ensures
            r@ == self.sink(),
    {
        self.webhook_url.as_str()
    }

    /// Conversion deadline in seconds.
    pub fn timeout(&self) -> (r: u64)
        ensures
            r == self.deadline(),
    {
        self.timeout
    }

    /// A task for a persisted payload of `raw_size` bytes, and its first action.
    pub open spec fn start_spec(&self, raw_size: nat) -> (RenderTask, RenderAction) {
        if raw_size <= self.raw_cap() {
            (
                RenderTask { stage: RenderStage::Started, raw: None, converted: None, failure: None },
                RenderAction::ForwardRaw,
            )
        } else {
            (
                RenderTask {
                    stage: RenderStage::RawForwardAttempted,
                    raw: Some(Delivery::TooLarge),
                    converted: None,
                    failure: None,
                },
                RenderAction::Convert { deadline_secs: self.deadline() },
            )
        }
    }

    /// The task and action that follow `event` in `task`.
    pub open spec fn step_spec(&self, task: RenderTask, event: RenderEvent) -> (RenderTask, RenderAction) {
        match (task.stage, event) {
            (RenderStage::Started, RenderEvent::RawForwarded { ok }) => (
                RenderTask {
                    stage: RenderStage::RawForwardAttempted,
                    raw: Some(if ok { Delivery::Sent } else { Delivery::SinkFailed }),
                    ..task
                },
                RenderAction::Convert { deadline_secs: self.deadline() },
            ),
            (RenderStage::RawForwardAttempted, RenderEvent::Converted { size }) => if size
                <= self.converted_cap() {
                (RenderTask { stage: RenderStage::ConversionOk, ..task }, RenderAction::ForwardConverted)
            } else {
                (
                    RenderTask {
                        stage: RenderStage::Done,
                        converted: Some(Delivery::TooLarge),
                        failure: Some(RenderError::ArtifactTooLarge),
                        ..task
                    },
                    RenderAction::Finish,
                )
            },
            (RenderStage::RawForwardAttempted, RenderEvent::ConversionTimedOut) => (
                RenderTask {
                    stage: RenderStage::Done,
                    failure: Some(RenderError::ConversionTimeout),
                    ..task
                },
                RenderAction::Finish,
            ),
            (RenderStage::RawForwardAttempted, RenderEvent::ConversionFailed) => (
                RenderTask {
                    stage: RenderStage::Done,
                    failure: Some(RenderError::ConversionFailed),
                    ..task
                },
                RenderAction::Finish,
            ),
            (RenderStage::ConversionOk, RenderEvent::ConvertedForwarded { ok }) => (
                RenderTask {
                    stage: RenderStage::Done,
                    converted: Some(if ok { Delivery::Sent } else { Delivery::SinkFailed }),
                    ..task
                },
                RenderAction::Finish,
            ),
            _ => (task, RenderAction::Ignore),
        }
    }

    /// Starts a task for a persisted payload of `raw_size` bytes: forward it
    /// raw when within the raw cap, else record it as too large and go on to
    /// conversion.
    pub fn start(&self, raw_size: u64) -> (r: (RenderTask, RenderAction))
        ensures
            r == self.start_spec(raw_size as nat),
    {
        if raw_size as u128 <= self.max_file_size as u128 {
            (
                RenderTask { stage: RenderStage::Started, raw: None, converted: None, failure: None },
                RenderAction::ForwardRaw,
            )
        } else {
            (
                RenderTask {
                    stage: RenderStage::RawForwardAttempted,
                    raw: Some(Delivery::TooLarge),
                    converted: None,
                    failure: None,
                },
                RenderAction::Convert { deadline_secs: self.timeout },
            )
        }
    }

    /// Advances `task` on `event`.
    pub fn step(&self, task: RenderTask, event: RenderEvent) -> (r: (RenderTask, RenderAction))
        ensures
            r == self.step_spec(task, event),
    {
        match (task.stage, event) {
            (RenderStage::Started, RenderEvent::RawForwarded { ok }) => (
                RenderTask {
                    stage: RenderStage::RawForwardAttempted,
                    raw: Some(if ok { Delivery::Sent } else { Delivery::SinkFailed }),
                    ..task
                },
                RenderAction::Convert { deadline_secs: self.timeout },
            ),
            (RenderStage::RawForwardAttempted, RenderEvent::Converted { size }) => if size as u128
                <= self.max_file_size_discord as u128 {
                (RenderTask { stage: RenderStage::ConversionOk, ..task }, RenderAction::ForwardConverted)
            } else {
                (
                    RenderTask {
                        stage: RenderStage::Done,
                        converted: Some(Delivery::TooLarge),
                        failure: Some(RenderError::ArtifactTooLarge),
                        ..task
                    },
                    RenderAction::Finish,
                )
            },
            (RenderStage::RawForwardAttempted, RenderEvent::ConversionTimedOut) => (
                RenderTask {
                    stage: RenderStage::Done,
                    failure: Some(RenderError::ConversionTimeout),
                    ..task
                },
                RenderAction::Finish,
            ),
            (RenderStage::RawForwardAttempted, RenderEvent::ConversionFailed) => (
                RenderTask {
                    stage: RenderStage::Done,
                    failure: Some(RenderError::ConversionFailed),
                    ..task
                },
                RenderAction::Finish,
            ),
            (RenderStage::ConversionOk, RenderEvent::ConvertedForwarded { ok }) => (
                RenderTask {
                    stage: RenderStage::Done,
                    converted: Some(if ok { Delivery::Sent } else { Delivery::SinkFailed }),
                    ..task
                },
                RenderAction::Finish,
            ),
            _ => (task, RenderAction::Ignore),
        }
    }
}

/// Once the raw forward has been attempted its outcome is settled: no later
/// event changes it, a conversion timeout included.
pub proof fn lemma_raw_outcome_settled(r: Renderer, task: RenderTask, event: RenderEvent)
    requires
        task.stage != RenderStage::Started,
    ensures
        r.step_spec(task, event).0.raw == task.raw,
{
}

/// A conversion that misses its deadline ends the task with a timeout
/// recorded, and leaves the raw forward's outcome as it was.
pub proof fn lemma_timeout_keeps_raw_outcome(r: Renderer, task: RenderTask)
    requires
        task.stage == RenderStage::RawForwardAttempted,
    ensures
        ({
            let (t, a) = r.step_spec(task, RenderEvent::ConversionTimedOut);
            &&& t.stage == RenderStage::Done
            &&& t.failure == Some(RenderError::ConversionTimeout)
            &&& t.raw == task.raw
            &&& t.converted == task.converted
            &&& a == RenderAction::Finish
        }),
{
}

/// The converted artifact is forwarded only right after a conversion whose
/// artifact is within the converted cap.
pub proof fn lemma_forward_only_within_cap(r: Renderer, task: RenderTask, event: RenderEvent)
    ensures
        r.step_spec(task, event).1 == RenderAction::ForwardConverted ==> {
            &&& task.stage == RenderStage::RawForwardAttempted
            &&& event matches RenderEvent::Converted { size }
            &&& size <= r.converted_cap()
        },
{
}

/// An artifact over the converted cap is not forwarded: the task ends, with
/// the artifact recorded as too large.
pub proof fn lemma_oversized_artifact_dropped(r: Renderer, task: RenderTask, size: u64)
    requires
        task.stage == RenderStage::RawForwardAttempted,
        size > r.converted_cap(),
    ensures
        ({
            let (t, a) = r.step_spec(task, RenderEvent::Converted { size });
            &&& t.stage == RenderStage::Done
            &&& t.converted == Some(Delivery::TooLarge)
            &&& t.failure == Some(RenderError::ArtifactTooLarge)
            &&& t.raw == task.raw
            &&& a == RenderAction::Finish
        }),
{
}

/// A finished task stays finished, whatever is reported.
pub proof fn lemma_done_is_terminal(r: Renderer, task: RenderTask, event: RenderEvent)
    requires
        task.stage == RenderStage::Done,
    ensures
        r.step_spec(task, event) == (task, RenderAction::Ignore),
{
}

} // verus!
