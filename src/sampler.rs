//! The sampler: the producer side of the pipeline.
//!
//! Each cycle the sampler takes one collection of sub-samples, enqueues the
//! resulting reading, polls the termination-request source without
//! blocking, and idles before the next cycle. `Sampler` decides, from what
//! the last action produced, which action comes next; the caller performs
//! the actions (sensor, clock, queue, channel, sleep) and reports back.
use vstd::prelude::*;

use crate::ThreadMessage;

verus! {

/// The part of the run's settings that the sampler's decisions read.
#[derive(Debug, Clone, Copy)]
pub struct CollectionSettings {
    /// Sub-samples averaged into one reading.
    pub samples_per_collection: u8,
    /// Whether the sensor is simulated. A real sensor is not supported.
    pub simulate_sensor: bool,
    /// Idle delay between two cycles.
    pub millisec_between_readings: u64,
    /// The number of cycles after which the sampler stops on its own, if any.
    pub max_cycles: Option<u64>,
}

/// Fatal errors of the sampler.
#[derive(Debug, Clone, Copy, PartialEq, Eq, Structural)]
pub enum SamplingError {
    /// The settings ask for a real sensor.
    UnsupportedSensor,
    /// The settings ask for zero sub-samples per collection.
    NoSamples,
    /// A reading could not be enqueued: the writer is gone.
    QueueClosed,
}

impl SamplingError {
    /// A human-readable description of the error.
    pub fn message(&self) -> (r: String)
        ensures
            r@ == error_message(*self),
    {
        match self {
            SamplingError::UnsupportedSensor => "Working with real sensors not yet supported".to_owned(),
            SamplingError::NoSamples => "At least one sample per collection is required".to_owned(),
            SamplingError::QueueClosed => "The reading queue's receiver went away".to_owned(),
        }
    }
}

/// The description of each error.
pub open spec fn error_message(e: SamplingError) -> Seq<char> {
    match e {
        SamplingError::UnsupportedSensor => "Working with real sensors not yet supported"@,
        SamplingError::NoSamples => "At least one sample per collection is required"@,
        SamplingError::QueueClosed => "The reading queue's receiver went away"@,
    }
}

/// What a non-blocking poll of the termination-request source found.
#[derive(Debug, Clone, Copy, PartialEq, Eq, Structural)]
pub enum PollResult {
    /// A message was waiting.
    Received(ThreadMessage),
    /// No message was waiting.
    Empty,
    /// The source is closed for good: its sender is gone.
    Disconnected,
}

/// Why the sampler stopped without an error.
#[derive(Debug, Clone, Copy, PartialEq, Eq, Structural)]
pub enum StopReason {
    /// A termination request arrived.
    Requested,
    /// The termination-request source closed; the controlling side vanished.
    SourceClosed,
    /// The configured number of cycles was reached.
    CycleLimit,
}

/// What the caller must do next.
#[derive(Debug, Clone, Copy, PartialEq, Eq)]
pub enum SamplerAction {
    /// Draw this many sub-samples, average and calibrate them, and enqueue
    /// the reading with its capture time. Report `Collected`.
    Collect(u8),
    /// Poll the termination-request source without blocking. Report `Polled`.
    Poll,
    /// Idle for this many milliseconds. Report `Waited`.
    Wait(u64),
    /// Stop. If `send_marker` holds, first enqueue the shutdown marker.
    Finish { send_marker: bool, outcome: Result<StopReason, SamplingError> },
}

/// What the caller reports after performing an action.
#[derive(Debug, Clone, Copy, PartialEq, Eq, Structural)]
pub enum SamplerEvent {
    /// The collection was taken; `enqueued` tells whether the queue took it.
    Collected { enqueued: bool },
    /// The poll's result.
    Polled(PollResult),
    /// The idle wait is over.
    Waited,
}

/// The action that the sampler is waiting on.
#[derive(Debug, Clone, Copy, PartialEq, Eq, Structural)]
pub enum SamplerPhase {
    /// A collection was asked for.
    Collecting,
    /// A poll of the termination-request source was asked for.
    Polling,
    /// An idle wait was asked for.
    Waiting,
    /// The sampler has finished; it takes no further events.
    Done,
}

/// How many sub-samples one collection draws under `s`, or why none can be
/// taken.
pub open spec fn collection_size(s: CollectionSettings) -> Result<u8, SamplingError> {
    if !s.simulate_sensor {
        Err(SamplingError::UnsupportedSensor)
    } else if s.samples_per_collection == 0 {
        Err(SamplingError::NoSamples)
    } else {
        Ok(s.samples_per_collection)
    }
}

/// The start of a cycle after `cycles` completed ones: collect, or stop.
pub open spec fn cycle_start(s: CollectionSettings, cycles: u64) -> (SamplerPhase, SamplerAction) {
    match collection_size(s) {
        Err(e) => (
            SamplerPhase::Done,
            SamplerAction::Finish { send_marker: true, outcome: Err(e) },
        ),
        Ok(n) => match s.max_cycles {
            Some(m) if cycles >= m => (
                SamplerPhase::Done,
                SamplerAction::Finish { send_marker: true, outcome: Ok(StopReason::CycleLimit) },
            ),
            _ => (SamplerPhase::Collecting, SamplerAction::Collect(n)),
        },
    }
}

/// Whether `e` answers the action that a sampler in `phase` waits on.
pub open spec fn answers(phase: SamplerPhase, e: SamplerEvent) -> bool {
    match phase {
        SamplerPhase::Collecting => e is Collected,
        SamplerPhase::Polling => e is Polled,
        SamplerPhase::Waiting => e is Waited,
        SamplerPhase::Done => false,
    }
}

/// One step of the sampler: from its settings, phase and completed cycles,
/// and the answer `e` to its last action, its next phase, its next count of
/// completed cycles, and its next action.
pub open spec fn transition(s: CollectionSettings, phase: SamplerPhase, cycles: u64, e: SamplerEvent) -> (
    SamplerPhase,
    u64,
    SamplerAction,
) {
    match e {
        SamplerEvent::Collected { enqueued } => if enqueued {
            let done = if cycles < u64::MAX {
                (cycles + 1) as u64
            } else {
                cycles
            };
            (SamplerPhase::Polling, done, SamplerAction::Poll)
        } else {
            (
                SamplerPhase::Done,
                cycles,
                SamplerAction::Finish { send_marker: false, outcome: Err(SamplingError::QueueClosed) },
            )
        },
        SamplerEvent::Polled(p) => match p {
            PollResult::Received(ThreadMessage::Terminate) => (
                SamplerPhase::Done,
                cycles,
                SamplerAction::Finish { send_marker: true, outcome: Ok(StopReason::Requested) },
            ),
            PollResult::Empty => (
                SamplerPhase::Waiting,
                cycles,
                SamplerAction::Wait(s.millisec_between_readings),
            ),
            PollResult::Disconnected => (
                SamplerPhase::Done,
                cycles,
                SamplerAction::Finish { send_marker: true, outcome: Ok(StopReason::SourceClosed) },
            ),
        },
        SamplerEvent::Waited => {
            let (next, act) = cycle_start(s, cycles);
            (next, cycles, act)
        },
    }
}

/// Checks the settings for one collection: the number of sub-samples to
/// draw, or the fatal error that forbids taking it.
pub fn collection_size_of(s: &CollectionSettings) -> (r: Result<u8, SamplingError>)
    ensures
        r == collection_size(*s),
{
    if !s.simulate_sensor {
        Err(SamplingError::UnsupportedSensor)
    } else if s.samples_per_collection == 0 {
        Err(SamplingError::NoSamples)
    } else {
        Ok(s.samples_per_collection)
    }
}

/// A sampler asked to read a real sensor never collects: every cycle start
/// stops it with `UnsupportedSensor` after flushing the writer, and no step
/// asks for a collection, so no reading is ever appended.
pub proof fn lemma_unsupported_sensor_collects_nothing(
    s: CollectionSettings,
    phase: SamplerPhase,
    cycles: u64,
    e: SamplerEvent,
)
    requires
        !s.simulate_sensor,
    ensures
        cycle_start(s, cycles) == (
            SamplerPhase::Done,
            SamplerAction::Finish { send_marker: true, outcome: Err(SamplingError::UnsupportedSensor) },
        ),
        transition(s, phase, cycles, e).2 !is Collect,
{
}

/// A closed termination-request source stops a running sampler within one
/// cycle: a wait ends in a collection or a stop, a collection that was
/// enqueued is followed by a poll, and a poll that finds the source closed
/// flushes the writer with the shutdown marker and finishes.
pub proof fn lemma_closed_source_stops_within_one_cycle(s: CollectionSettings, cycles: u64)
    ensures
        transition(s, SamplerPhase::Waiting, cycles, SamplerEvent::Waited).2 is Collect
            || transition(s, SamplerPhase::Waiting, cycles, SamplerEvent::Waited).2 is Finish,
        transition(s, SamplerPhase::Collecting, cycles, SamplerEvent::Collected { enqueued: true }).2
            == SamplerAction::Poll,
        transition(s, SamplerPhase::Polling, cycles, SamplerEvent::Polled(PollResult::Disconnected))
            == (
            SamplerPhase::Done,
            cycles,
            SamplerAction::Finish { send_marker: true, outcome: Ok(StopReason::SourceClosed) },
        ),
{
}

/// The sampler finishes exactly when its phase becomes `Done`, and every way
/// out sends the shutdown marker to the writer, except when the queue itself
/// is closed and nobody is left to receive it.
pub proof fn lemma_every_exit_flushes_writer(
    s: CollectionSettings,
    phase: SamplerPhase,
    cycles: u64,
    e: SamplerEvent,
)
    ensures
        (cycle_start(s, cycles).0 == SamplerPhase::Done) == (cycle_start(s, cycles).1 is Finish),
        cycle_start(s, cycles).1 matches SamplerAction::Finish { send_marker, .. } ==> send_marker,
        (transition(s, phase, cycles, e).0 == SamplerPhase::Done) == (transition(
            s,
            phase,
            cycles,
            e,
        ).2 is Finish),
        transition(s, phase, cycles, e).2 matches SamplerAction::Finish { send_marker, outcome }
            ==> send_marker == (outcome != Err::<StopReason, SamplingError>(
            SamplingError::QueueClosed,
        )),
{
}

/// The sampler's decision state.
pub struct Sampler {
    settings: CollectionSettings,
    phase: SamplerPhase,
    cycles: u64,
}

impl Sampler {
    /// The settings the sampler runs under; they never change.
    pub closed spec fn settings(&self) -> CollectionSettings {
        self.settings
    }

    /// The action the sampler waits on, or `Done`.
    pub closed spec fn phase(&self) -> SamplerPhase {
        self.phase
    }

    /// The number of cycles whose reading was enqueued (saturating).
    pub closed spec fn cycles(&self) -> u64 {
        self.cycles
    }

    /// Starts a cycle after `self.cycles` completed ones.
    fn start_cycle(&mut self) -> (a: SamplerAction)
        ensures
            final(self).settings() == old(self).settings(),
            final(self).cycles() == old(self).cycles(),
            (final(self).phase(), a) == cycle_start(old(self).settings(), old(self).cycles()),
    {
        match collection_size_of(&self.settings) {
            Err(e) => {
                self.phase = SamplerPhase::Done;
                SamplerAction::Finish { send_marker: true, outcome: Err(e) }
            },
            Ok(n) => {
                let limit_reached = match self.settings.max_cycles {
                    Some(m) => self.cycles >= m,
                    None => false,
                };
                if limit_reached {
                    self.phase = SamplerPhase::Done;
                    SamplerAction::Finish { send_marker: true, outcome: Ok(StopReason::CycleLimit) }
                } else {
                    self.phase = SamplerPhase::Collecting;
                    SamplerAction::Collect(n)
                }
            },
        }
    }

    /// A sampler for a run under `settings`, with its first action.
    pub fn new(settings: CollectionSettings) -> (r: (Sampler, SamplerAction))
        ensures
            r.0.settings() == settings,
            r.0.cycles() == 0,
            (r.0.phase(), r.1) == cycle_start(settings, 0),
    {
        let mut s = Sampler { settings, phase: SamplerPhase::Done, cycles: 0 };
        let a = s.start_cycle();
        (s, a)
    }

    /// Whether the sampler has finished.
    pub fn is_done(&self) -> (r: bool)
        ensures
            r == (self.phase() == SamplerPhase::Done),
    {
        match self.phase {
            SamplerPhase::Done => true,
            _ => false,
        }
    }

    /// Whether `e` answers the action that the sampler waits on.
    pub fn expects(&self, e: &SamplerEvent) -> (r: bool)
        ensures
            r == answers(self.phase(), *e),
    {
        match self.phase {
            SamplerPhase::Collecting => match e {
                SamplerEvent::Collected { .. } => true,
                _ => false,
            },
            SamplerPhase::Polling => match e {
                SamplerEvent::Polled(_) => true,
                _ => false,
            },
            SamplerPhase::Waiting => match e {
                SamplerEvent::Waited => true,
                _ => false,
            },
            SamplerPhase::Done => false,
        }
    }

    /// Takes the answer to the last action and returns the next action.
    pub fn step(&mut self, e: SamplerEvent) -> (a: SamplerAction)
        requires
            answers(old(self).phase(), e),
        ensures
            final(self).settings() == old(self).settings(),
            (final(self).phase(), final(self).cycles(), a) == transition(
                old(self).settings(),
                old(self).phase(),
                old(self).cycles(),
                e,
            ),
    {
        match e {
            SamplerEvent::Collected { enqueued } => {
                if enqueued {
                    if self.cycles < u64::MAX {
                        self.cycles = self.cycles + 1;
                    }
                    self.phase = SamplerPhase::Polling;
                    SamplerAction::Poll
                } else {
                    self.phase = SamplerPhase::Done;
                    SamplerAction::Finish { send_marker: false, outcome: Err(SamplingError::QueueClosed) }
                }
            },
            SamplerEvent::Polled(p) => match p {
                PollResult::Received(ThreadMessage::Terminate) => {
                    self.phase = SamplerPhase::Done;
                    SamplerAction::Finish { send_marker: true, outcome: Ok(StopReason::Requested) }
                },
                PollResult::Empty => {
                    self.phase = SamplerPhase::Waiting;
                    SamplerAction::Wait(self.settings.millisec_between_readings)
                },
                PollResult::Disconnected => {
                    self.phase = SamplerPhase::Done;
                    SamplerAction::Finish { send_marker: true, outcome: Ok(StopReason::SourceClosed) }
                },
            },
            SamplerEvent::Waited => self.start_cycle(),
        }
    }
}

} // verus!
