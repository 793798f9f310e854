//! The life cycle of a streaming session.
//!
//! A session brings two streams up in four steps, streams until the operator
//! asks it to stop, and takes both streams down again. Building and starting
//! a stream is work on a device, which the caller does; what to do next, and
//! what to undo when a step fails, is decided here. The caller performs the
//! action that it is given and reports what came of it as an [`Event`].
//!
//! The four steps are one transaction: where any of them fails, every stream
//! that exists by then is taken down before the fault is reported, so no
//! stream is left running without its partner.

use vstd::prelude::*;

verus! {

/// One of the two devices of a session.
#[derive(Clone, Copy, Debug, PartialEq, Eq, Structural)]
pub enum Device {
    /// The capture device.
    Input,
    /// The playback device.
    Output,
}

/// One step of bringing the streams up, in the order in which they are taken.
#[derive(Clone, Copy, Debug, PartialEq, Eq, Structural)]
pub enum Step {
    /// Build the playback stream.
    BuildOutput,
    /// Build the capture stream.
    BuildInput,
    /// Start the playback stream.
    PlayOutput,
    /// Start the capture stream.
    PlayInput,
}

/// How far a stream has come.
#[derive(Clone, Copy, Debug, PartialEq, Eq, Structural)]
pub enum StreamState {
    /// Not built, or taken down.
    Absent,
    /// Built and not started.
    Built,
    /// Started.
    Playing,
}

/// The streams that exist.
#[derive(Clone, Copy, Debug, PartialEq, Eq, Structural)]
pub struct Live {
    /// The playback stream.
    pub output: StreamState,
    /// The capture stream.
    pub input: StreamState,
}

/// Where a session stands.
#[derive(Clone, Copy, Debug, PartialEq, Eq, Structural)]
pub enum Phase {
    /// Bringing the streams up; this step is the next to take.
    Starting(Step),
    /// Both streams play.
    Streaming,
    /// Taken down at the operator's request.
    Stopped,
    /// Taken down because this step failed.
    Failed(Step),
}

/// What the caller reports.
#[derive(Clone, Copy, Debug, PartialEq, Eq, Structural)]
pub enum Event {
    /// The step that was to be taken succeeded.
    StepDone,
    /// The step that was to be taken failed.
    StepFailed,
    /// The operator asks the session to stop.
    StopRequested,
    /// A device reported a fault while streaming.
    StreamingFault(Device),
}

/// What the caller is to do.
#[derive(Clone, Copy, Debug, PartialEq, Eq, Structural)]
pub enum Action {
    /// Take this step and report whether it succeeded.
    Perform(Step),
    /// Wait for the operator's stop signal and report it.
    AwaitStop,
    /// Stop and release these streams; the session is over.
    TearDown(Live),
    /// Tell the operator of the fault on this device; the session goes on.
    Report(Device),
    /// Nothing.
    Nothing,
}

/// How a session ended.
#[derive(Clone, Copy, Debug, PartialEq, Eq, Structural)]
pub enum Outcome {
    /// The operator stopped it.
    Stopped,
    /// This step failed on this device, and the session never streamed.
    DeviceFault(Device, Step),
}

impl Step {
    /// The device that the step works on.
    pub open spec fn device_spec(self) -> Device {
        match self {
            Step::BuildOutput => Device::Output,
            Step::BuildInput => Device::Input,
            Step::PlayOutput => Device::Output,
            Step::PlayInput => Device::Input,
        }
    }

    /// The device that the step works on.
    pub fn device(&self) -> (device: Device)
        ensures
            device == self.device_spec(),
    {
        match self {
            Step::BuildOutput => Device::Output,
            Step::BuildInput => Device::Input,
            Step::PlayOutput => Device::Output,
            Step::PlayInput => Device::Input,
        }
    }
}

impl Live {
    /// No stream exists.
    pub open spec fn nothing() -> Live {
        Live { output: StreamState::Absent, input: StreamState::Absent }
    }
}

impl Phase {
    /// The streams that exist in this phase.
    pub open spec fn live(self) -> Live {
        match self {
            Phase::Starting(Step::BuildOutput) => Live::nothing(),
            Phase::Starting(Step::BuildInput) => Live {
                output: StreamState::Built,
                input: StreamState::Absent,
            },
            Phase::Starting(Step::PlayOutput) => Live {
                output: StreamState::Built,
                input: StreamState::Built,
            },
            Phase::Starting(Step::PlayInput) => Live {
                output: StreamState::Playing,
                input: StreamState::Built,
            },
            Phase::Streaming => Live { output: StreamState::Playing, input: StreamState::Playing },
            Phase::Stopped => Live::nothing(),
            Phase::Failed(_) => Live::nothing(),
        }
    }

    /// Whether the session is over.
    pub open spec fn is_over(self) -> bool {
        self is Stopped || self is Failed
    }

    /// The phase after the step of this one succeeded.
    pub open spec fn advanced(self) -> Phase {
        match self {
            Phase::Starting(Step::BuildOutput) => Phase::Starting(Step::BuildInput),
            Phase::Starting(Step::BuildInput) => Phase::Starting(Step::PlayOutput),
            Phase::Starting(Step::PlayOutput) => Phase::Starting(Step::PlayInput),
            Phase::Starting(Step::PlayInput) => Phase::Streaming,
            _ => self,
        }
    }

    /// What is to be done in this phase, unasked.
    pub open spec fn pending(self) -> Action {
        match self {
            Phase::Starting(step) => Action::Perform(step),
            Phase::Streaming => Action::AwaitStop,
            _ => Action::Nothing,
        }
    }

    /// The phase that `event` leads to.
    pub open spec fn after(self, event: Event) -> Phase {
        match (self, event) {
            (Phase::Starting(_), Event::StepDone) => self.advanced(),
            (Phase::Starting(step), Event::StepFailed) => Phase::Failed(step),
            (Phase::Starting(_), Event::StopRequested) => Phase::Stopped,
            (Phase::Streaming, Event::StopRequested) => Phase::Stopped,
            _ => self,
        }
    }

    /// What the caller is to do about `event`.
    pub open spec fn answer(self, event: Event) -> Action {
        match (self, event) {
            (_, Event::StreamingFault(device)) => Action::Report(device),
            (Phase::Starting(_), Event::StepDone) => self.advanced().pending(),
            (Phase::Starting(_), Event::StepFailed) => Action::TearDown(self.live()),
            (Phase::Starting(_), Event::StopRequested) => Action::TearDown(self.live()),
            (Phase::Streaming, Event::StopRequested) => Action::TearDown(self.live()),
            _ => Action::Nothing,
        }
    }

    /// How the session ended, once it is over.
    pub open spec fn outcome(self) -> Option<Outcome> {
        match self {
            Phase::Stopped => Some(Outcome::Stopped),
            Phase::Failed(step) => Some(Outcome::DeviceFault(step.device_spec(), step)),
            _ => None,
        }
    }
}

/// The session of one run: it decides, the caller acts.
#[derive(Clone, Copy, Debug)]
pub struct StreamOrchestrator {
    phase: Phase,
}

impl View for StreamOrchestrator {
    type V = Phase;

    closed spec fn view(&self) -> Phase {
        self.phase
    }
}

impl StreamOrchestrator {
    /// A session that has taken no step yet.
    pub fn new() -> (session: StreamOrchestrator)
        ensures
            session@ == Phase::Starting(Step::BuildOutput),
    {
        StreamOrchestrator { phase: Phase::Starting(Step::BuildOutput) }
    }

    /// Where the session stands.
    pub fn phase(&self) -> (phase: Phase)
        ensures
            phase == self@,
    {
        self.phase
    }

    /// The streams that exist now.
    pub fn live(&self) -> (live: Live)
        ensures
            live == self@.live(),
    {
        match self.phase {
            Phase::Starting(Step::BuildOutput) => Live {
                output: StreamState::Absent,
                input: StreamState::Absent,
            },
            Phase::Starting(Step::BuildInput) => Live {
                output: StreamState::Built,
                input: StreamState::Absent,
            },
            Phase::Starting(Step::PlayOutput) => Live {
                output: StreamState::Built,
                input: StreamState::Built,
            },
            Phase::Starting(Step::PlayInput) => Live {
                output: StreamState::Playing,
                input: StreamState::Built,
            },
            Phase::Streaming => Live { output: StreamState::Playing, input: StreamState::Playing },
            Phase::Stopped => Live { output: StreamState::Absent, input: StreamState::Absent },
            Phase::Failed(_) => Live { output: StreamState::Absent, input: StreamState::Absent },
        }
    }

    /// What is to be done now, unasked: the step to take, or to wait for the
    /// stop signal, or nothing once the session is over.
    pub fn pending(&self) -> (action: Action)
        ensures
            action == self@.pending(),
    {
        match self.phase {
            Phase::Starting(step) => Action::Perform(step),
            Phase::Streaming => Action::AwaitStop,
            _ => Action::Nothing,
        }
    }

    /// Takes note of `event` and says what to do about it.
    ///
    /// A step that succeeded leads to the next one, the last to streaming. A
    /// step that failed ends the session: every stream that exists is to be
    /// taken down. A stop request ends a running session in the same way and
    /// changes nothing in one that is over. A streaming fault is reported
    /// and changes nothing.
    pub fn on(&mut self, event: Event) -> (action: Action)
        ensures
            final(self)@ == old(self)@.after(event),
            action == old(self)@.answer(event),
    {
        let before = self.phase;
        match event {
            Event::StreamingFault(device) => Action::Report(device),
            Event::StepDone => match before {
                Phase::Starting(step) => {
                    self.phase =
                    match step {
                        Step::BuildOutput => Phase::Starting(Step::BuildInput),
                        Step::BuildInput => Phase::Starting(Step::PlayOutput),
                        Step::PlayOutput => Phase::Starting(Step::PlayInput),
                        Step::PlayInput => Phase::Streaming,
                    };
                    self.pending()
                },
                _ => Action::Nothing,
            },
            Event::StepFailed => match before {
                Phase::Starting(step) => {
                    let live = self.live();
                    self.phase = Phase::Failed(step);
                    Action::TearDown(live)
                },
                _ => Action::Nothing,
            },
            Event::StopRequested => match before {
                Phase::Starting(_) | Phase::Streaming => {
                    let live = self.live();
                    self.phase = Phase::Stopped;
                    Action::TearDown(live)
                },
                _ => Action::Nothing,
            },
        }
    }

    /// How the session ended; nothing while it runs.
    pub fn outcome(&self) -> (outcome: Option<Outcome>)
        ensures
            outcome == self@.outcome(),
    {
        match self.phase {
            Phase::Stopped => Some(Outcome::Stopped),
            Phase::Failed(step) => Some(Outcome::DeviceFault(step.device(), step)),
            _ => None,
        }
    }
}

/// Stopping is idempotent: a second stop request finds the session as the
/// first left it and asks for nothing; on a session that is over, a stop
/// request is no fault and changes nothing.
pub proof fn lemma_stop_is_idempotent(phase: Phase)
    ensures
        phase.after(Event::StopRequested).after(Event::StopRequested) == phase.after(
            Event::StopRequested,
        ),
        phase.after(Event::StopRequested).answer(Event::StopRequested) == Action::Nothing,
        phase.is_over() ==> phase.after(Event::StopRequested) == phase && phase.answer(
            Event::StopRequested,
        ) == Action::Nothing,
        !phase.is_over() ==> phase.after(Event::StopRequested) == Phase::Stopped,
{
}

/// No event leaves a session half-connected: whenever a session ends, the
/// action names exactly the streams that existed, and none exists after it;
/// and a session that is over stays as it is.
pub proof fn lemma_ending_takes_every_stream_down(phase: Phase, event: Event)
    ensures
        !phase.is_over() && phase.after(event).is_over() ==> phase.answer(event)
            == Action::TearDown(phase.live()),
        phase.after(event).is_over() ==> phase.after(event).live() == Live::nothing(),
        phase.is_over() ==> phase.after(event) == phase,
        phase.answer(event) is TearDown ==> phase.after(event).is_over(),
{
}

/// A failing step fails the session on the device of that step, whatever
/// was built or started before.
pub proof fn lemma_failed_step_is_a_device_fault(step: Step)
    ensures
        Phase::Starting(step).after(Event::StepFailed).outcome() == Some(
            Outcome::DeviceFault(step.device_spec(), step),
        ),
        Phase::Starting(step).answer(Event::StepFailed) == Action::TearDown(
            Phase::Starting(step).live(),
        ),
{
}

/// A fault while streaming is reported and is not fatal: the phase stays.
pub proof fn lemma_streaming_fault_is_not_fatal(phase: Phase, device: Device)
    ensures
        phase.after(Event::StreamingFault(device)) == phase,
        phase.answer(Event::StreamingFault(device)) == Action::Report(device),
{
}

/// Both streams play only after all four steps succeeded, in their order.
pub proof fn lemma_streaming_takes_all_four_steps(phase: Phase, event: Event)
    ensures
        phase.after(event) == Phase::Streaming ==> phase == Phase::Streaming || (phase
            == Phase::Starting(Step::PlayInput) && event == Event::StepDone),
        Phase::Starting(Step::BuildOutput).after(Event::StepDone).after(Event::StepDone).after(
            Event::StepDone,
        ).after(Event::StepDone) == Phase::Streaming,
{
}

} // verus!
