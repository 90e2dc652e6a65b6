use collector::sampler::{
    collection_size_of, CollectionSettings, PollResult, Sampler, SamplerAction, SamplerEvent,
    SamplingError, StopReason,
};
use collector::ThreadMessage;

fn settings(samples: u8, simulate: bool, max_cycles: Option<u64>) -> CollectionSettings {
    CollectionSettings {
        samples_per_collection: samples,
        simulate_sensor: simulate,
        millisec_between_readings: 250,
        max_cycles,
    }
}

#[test]
fn collection_size_follows_settings() {
    assert_eq!(collection_size_of(&settings(3, true, None)), Ok(3));
    assert_eq!(collection_size_of(&settings(255, true, None)), Ok(255));
    assert_eq!(
        collection_size_of(&settings(3, false, None)),
        Err(SamplingError::UnsupportedSensor)
    );
    assert_eq!(collection_size_of(&settings(0, true, None)), Err(SamplingError::NoSamples));
    assert_eq!(
        collection_size_of(&settings(0, false, None)),
        Err(SamplingError::UnsupportedSensor)
    );
}

#[test]
fn unsupported_sensor_stops_before_any_collection() {
    let (s, a) = Sampler::new(settings(3, false, None));
    assert!(s.is_done());
    assert_eq!(
        a,
        SamplerAction::Finish { send_marker: true, outcome: Err(SamplingError::UnsupportedSensor) }
    );
}

#[test]
fn zero_samples_is_fatal() {
    let (s, a) = Sampler::new(settings(0, true, None));
    assert!(s.is_done());
    assert_eq!(a, SamplerAction::Finish { send_marker: true, outcome: Err(SamplingError::NoSamples) });
}

#[test]
fn one_cycle_collects_polls_and_waits() {
    let (mut s, a) = Sampler::new(settings(3, true, None));
    assert_eq!(a, SamplerAction::Collect(3));
    assert!(s.expects(&SamplerEvent::Collected { enqueued: true }));
    assert!(!s.expects(&SamplerEvent::Waited));
    assert_eq!(s.step(SamplerEvent::Collected { enqueued: true }), SamplerAction::Poll);
    assert_eq!(s.step(SamplerEvent::Polled(PollResult::Empty)), SamplerAction::Wait(250));
    assert_eq!(s.step(SamplerEvent::Waited), SamplerAction::Collect(3));
    assert!(!s.is_done());
}

#[test]
fn termination_request_flushes_and_stops() {
    let (mut s, _) = Sampler::new(settings(1, true, None));
    s.step(SamplerEvent::Collected { enqueued: true });
    let a = s.step(SamplerEvent::Polled(PollResult::Received(ThreadMessage::Terminate)));
    assert_eq!(a, SamplerAction::Finish { send_marker: true, outcome: Ok(StopReason::Requested) });
    assert!(s.is_done());
    assert!(!s.expects(&SamplerEvent::Waited));
}

#[test]
fn closed_source_flushes_and_stops() {
    let (mut s, _) = Sampler::new(settings(2, true, None));
    s.step(SamplerEvent::Collected { enqueued: true });
    let a = s.step(SamplerEvent::Polled(PollResult::Disconnected));
    assert_eq!(a, SamplerAction::Finish { send_marker: true, outcome: Ok(StopReason::SourceClosed) });
    assert!(s.is_done());
}

#[test]
fn closed_queue_is_fatal_without_marker() {
    let (mut s, _) = Sampler::new(settings(2, true, None));
    let a = s.step(SamplerEvent::Collected { enqueued: false });
    assert_eq!(a, SamplerAction::Finish { send_marker: false, outcome: Err(SamplingError::QueueClosed) });
    assert!(s.is_done());
}

#[test]
fn cycle_limit_stops_after_that_many_readings() {
    let (mut s, a) = Sampler::new(settings(4, true, Some(2)));
    assert_eq!(a, SamplerAction::Collect(4));
    let mut collections = 1;
    let mut a = s.step(SamplerEvent::Collected { enqueued: true });
    loop {
        match a {
            SamplerAction::Collect(_) => {
                collections += 1;
                a = s.step(SamplerEvent::Collected { enqueued: true });
            }
            SamplerAction::Poll => a = s.step(SamplerEvent::Polled(PollResult::Empty)),
            SamplerAction::Wait(_) => a = s.step(SamplerEvent::Waited),
            SamplerAction::Finish { send_marker, outcome } => {
                assert!(send_marker);
                assert_eq!(outcome, Ok(StopReason::CycleLimit));
                break;
            }
        }
    }
    assert_eq!(collections, 2);
}

#[test]
fn zero_cycle_limit_collects_nothing() {
    let (_, a) = Sampler::new(settings(4, true, Some(0)));
    assert_eq!(a, SamplerAction::Finish { send_marker: true, outcome: Ok(StopReason::CycleLimit) });
}

#[test]
fn error_messages_describe_the_failure() {
    assert_eq!(
        SamplingError::UnsupportedSensor.message(),
        "Working with real sensors not yet supported"
    );
    assert_eq!(
        SamplingError::NoSamples.message(),
        "At least one sample per collection is required"
    );
    assert_eq!(SamplingError::QueueClosed.message(), "The reading queue's receiver went away");
}
