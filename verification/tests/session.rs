use chemic::session::Action;
use chemic::session::Device;
use chemic::session::Event;
use chemic::session::Live;
use chemic::session::Outcome;
use chemic::session::Phase;
use chemic::session::Step;
use chemic::session::StreamOrchestrator;
use chemic::session::StreamState;

fn streaming_session() -> StreamOrchestrator {
    let mut session = StreamOrchestrator::new();
    for _ in 0..4 {
        session.on(Event::StepDone);
    }
    assert_eq!(session.phase(), Phase::Streaming);
    session
}

#[test]
fn session_takes_its_four_steps_in_order() {
    let mut session = StreamOrchestrator::new();
    assert_eq!(session.phase(), Phase::Starting(Step::BuildOutput));
    assert_eq!(session.pending(), Action::Perform(Step::BuildOutput));
    assert_eq!(session.on(Event::StepDone), Action::Perform(Step::BuildInput));
    assert_eq!(session.on(Event::StepDone), Action::Perform(Step::PlayOutput));
    assert_eq!(session.on(Event::StepDone), Action::Perform(Step::PlayInput));
    assert_eq!(session.on(Event::StepDone), Action::AwaitStop);
    assert_eq!(session.phase(), Phase::Streaming);
    assert_eq!(session.pending(), Action::AwaitStop);
    assert_eq!(session.outcome(), None);
    assert_eq!(
        session.live(),
        Live { output: StreamState::Playing, input: StreamState::Playing }
    );
}

#[test]
fn session_stops_on_request_and_takes_both_streams_down() {
    let mut session = streaming_session();
    assert_eq!(
        session.on(Event::StopRequested),
        Action::TearDown(Live { output: StreamState::Playing, input: StreamState::Playing })
    );
    assert_eq!(session.phase(), Phase::Stopped);
    assert_eq!(session.outcome(), Some(Outcome::Stopped));
    assert_eq!(
        session.live(),
        Live { output: StreamState::Absent, input: StreamState::Absent }
    );
    assert_eq!(session.pending(), Action::Nothing);
}

#[test]
fn session_stop_of_a_stopped_session_is_a_no_op() {
    let mut session = streaming_session();
    session.on(Event::StopRequested);
    for _ in 0..3 {
        assert_eq!(session.on(Event::StopRequested), Action::Nothing);
        assert_eq!(session.phase(), Phase::Stopped);
        assert_eq!(session.outcome(), Some(Outcome::Stopped));
    }
}

#[test]
fn session_stop_of_a_failed_session_is_a_no_op() {
    let mut session = StreamOrchestrator::new();
    session.on(Event::StepFailed);
    assert_eq!(session.on(Event::StopRequested), Action::Nothing);
    assert_eq!(session.phase(), Phase::Failed(Step::BuildOutput));
}

#[test]
fn session_that_fails_at_the_first_step_has_nothing_to_take_down() {
    let mut session = StreamOrchestrator::new();
    assert_eq!(
        session.on(Event::StepFailed),
        Action::TearDown(Live { output: StreamState::Absent, input: StreamState::Absent })
    );
    assert_eq!(
        session.outcome(),
        Some(Outcome::DeviceFault(Device::Output, Step::BuildOutput))
    );
}

#[test]
fn session_that_fails_to_build_the_input_drops_the_output() {
    let mut session = StreamOrchestrator::new();
    session.on(Event::StepDone);
    assert_eq!(
        session.on(Event::StepFailed),
        Action::TearDown(Live { output: StreamState::Built, input: StreamState::Absent })
    );
    assert_eq!(
        session.outcome(),
        Some(Outcome::DeviceFault(Device::Input, Step::BuildInput))
    );
}

#[test]
fn session_that_fails_to_start_the_output_drops_both() {
    let mut session = StreamOrchestrator::new();
    session.on(Event::StepDone);
    session.on(Event::StepDone);
    assert_eq!(
        session.on(Event::StepFailed),
        Action::TearDown(Live { output: StreamState::Built, input: StreamState::Built })
    );
    assert_eq!(
        session.outcome(),
        Some(Outcome::DeviceFault(Device::Output, Step::PlayOutput))
    );
}

#[test]
fn session_that_fails_to_start_the_input_stops_the_running_output() {
    let mut session = StreamOrchestrator::new();
    session.on(Event::StepDone);
    session.on(Event::StepDone);
    session.on(Event::StepDone);
    assert_eq!(
        session.on(Event::StepFailed),
        Action::TearDown(Live { output: StreamState::Playing, input: StreamState::Built })
    );
    assert_eq!(session.phase(), Phase::Failed(Step::PlayInput));
    assert_eq!(
        session.outcome(),
        Some(Outcome::DeviceFault(Device::Input, Step::PlayInput))
    );
    assert_eq!(
        session.live(),
        Live { output: StreamState::Absent, input: StreamState::Absent }
    );
    assert_eq!(session.on(Event::StepDone), Action::Nothing);
    assert_eq!(session.phase(), Phase::Failed(Step::PlayInput));
}

#[test]
fn session_reports_a_streaming_fault_and_goes_on() {
    let mut session = streaming_session();
    assert_eq!(
        session.on(Event::StreamingFault(Device::Input)),
        Action::Report(Device::Input)
    );
    assert_eq!(session.phase(), Phase::Streaming);
    assert_eq!(
        session.on(Event::StreamingFault(Device::Output)),
        Action::Report(Device::Output)
    );
    assert_eq!(session.phase(), Phase::Streaming);
    assert_eq!(session.outcome(), None);
}

#[test]
fn session_ignores_step_reports_while_streaming() {
    let mut session = streaming_session();
    assert_eq!(session.on(Event::StepDone), Action::Nothing);
    assert_eq!(session.on(Event::StepFailed), Action::Nothing);
    assert_eq!(session.phase(), Phase::Streaming);
}

#[test]
fn session_stopped_while_starting_takes_down_what_exists() {
    let mut session = StreamOrchestrator::new();
    session.on(Event::StepDone);
    session.on(Event::StepDone);
    assert_eq!(
        session.on(Event::StopRequested),
        Action::TearDown(Live { output: StreamState::Built, input: StreamState::Built })
    );
    assert_eq!(session.outcome(), Some(Outcome::Stopped));
}

#[test]
fn step_names_its_device() {
    assert_eq!(Step::BuildOutput.device(), Device::Output);
    assert_eq!(Step::BuildInput.device(), Device::Input);
    assert_eq!(Step::PlayOutput.device(), Device::Output);
    assert_eq!(Step::PlayInput.device(), Device::Input);
}
