//! The decisions of the two background synchronisers, as state machines.
//! The caller performs each returned action (a fetch, opening the stream,
//! applying a batch, aborting the task) and reports what happened as the
//! next event.
use vstd::prelude::*;

verus! {

#[derive(Clone, Copy, Debug, PartialEq, Eq, Hash, Structural)]
pub enum PollPhase {
    Idle,
    /// The eager snapshot of start-up is in flight.
    FirstSync,
    /// The interval timer runs.
    Steady,
    Stopped,
}

#[derive(Clone, Copy, Debug, PartialEq, Eq, Hash, Structural)]
pub enum PollEvent {
    Start,
    /// A snapshot arrived (the caller has stored it).
    SnapshotDone,
    /// A snapshot request failed; the cycle is skipped.
    SnapshotFailed,
    /// The interval timer fired.
    Tick,
    Stop,
}

#[derive(Clone, Copy, Debug, PartialEq, Eq, Hash, Structural)]
pub enum SyncAction {
    /// Request a full snapshot and store it.
    FetchSnapshot,
    /// Start the interval timer.
    StartTimer,
    /// Open the event stream.
    OpenStream,
    /// Apply the batch of events just received.
    ApplyBatch,
    /// Abort the background task; an in-flight request is dropped.
    Abort,
    Nothing,
}

/// The poller: an eager snapshot on start, then one snapshot per timer
/// tick, except the first tick, whose work the eager snapshot already did.
#[derive(Clone, Copy, Debug, PartialEq, Eq, Hash, Structural)]
pub struct PollSync {
    pub phase: PollPhase,
    pub first_tick: bool,
}

/// One step of the poller. Starting a poller that already runs does
/// nothing: no second task is started beside the first.
pub open spec fn poll_step(s: PollSync, e: PollEvent) -> (PollSync, SyncAction) {
    match e {
        PollEvent::Start => if s.phase is Idle || s.phase is Stopped {
            (PollSync { phase: PollPhase::FirstSync, first_tick: true }, SyncAction::FetchSnapshot)
        } else {
            (s, SyncAction::Nothing)
        },
        PollEvent::SnapshotDone | PollEvent::SnapshotFailed => if s.phase is FirstSync {
            (PollSync { phase: PollPhase::Steady, first_tick: true }, SyncAction::StartTimer)
        } else {
            (s, SyncAction::Nothing)
        },
        PollEvent::Tick => if s.phase is Steady {
            if s.first_tick {
                (PollSync { phase: PollPhase::Steady, first_tick: false }, SyncAction::Nothing)
            } else {
                (s, SyncAction::FetchSnapshot)
            }
        } else {
            (s, SyncAction::Nothing)
        },
        PollEvent::Stop => if s.phase is FirstSync || s.phase is Steady {
            (PollSync { phase: PollPhase::Stopped, first_tick: s.first_tick }, SyncAction::Abort)
        } else {
            (PollSync { phase: PollPhase::Stopped, first_tick: s.first_tick }, SyncAction::Nothing)
        },
    }
}

impl PollSync {
    pub fn new() -> (r: PollSync)
        ensures
            r.phase is Idle,
            !r.first_tick,
    {
        PollSync { phase: PollPhase::Idle, first_tick: false }
    }

    /// Takes one event and returns the action to perform.
    pub fn step(&mut self, e: PollEvent) -> (a: SyncAction)
        ensures
            (*final(self), a) == poll_step(*old(self), e),
    {
        match e {
            PollEvent::Start => {
                if matches!(self.phase, PollPhase::Idle | PollPhase::Stopped) {
                    *self = PollSync { phase: PollPhase::FirstSync, first_tick: true };
                    SyncAction::FetchSnapshot
                } else {
                    SyncAction::Nothing
                }
            },
            PollEvent::SnapshotDone | PollEvent::SnapshotFailed => {
                if matches!(self.phase, PollPhase::FirstSync) {
                    *self = PollSync { phase: PollPhase::Steady, first_tick: true };
                    SyncAction::StartTimer
                } else {
                    SyncAction::Nothing
                }
            },
            PollEvent::Tick => {
                if matches!(self.phase, PollPhase::Steady) {
                    if self.first_tick {
                        self.first_tick = false;
                        SyncAction::Nothing
                    } else {
                        SyncAction::FetchSnapshot
                    }
                } else {
                    SyncAction::Nothing
                }
            },
            PollEvent::Stop => {
                let running = matches!(self.phase, PollPhase::FirstSync | PollPhase::Steady);
                self.phase = PollPhase::Stopped;
                if running {
                    SyncAction::Abort
                } else {
                    SyncAction::Nothing
                }
            },
        }
    }
}

#[derive(Clone, Copy, Debug, PartialEq, Eq, Hash, Structural)]
pub enum ListenPhase {
    Idle,
    /// The eager snapshot of start-up is in flight.
    FirstSync,
    /// The event stream is being opened.
    Connecting,
    Streaming,
    /// The stream failed or closed; there is no reconnection.
    Ended,
    Stopped,
}

#[derive(Clone, Copy, Debug, PartialEq, Eq, Hash, Structural)]
pub enum ListenEvent {
    Start,
    SnapshotDone,
    SnapshotFailed,
    StreamOpened,
    /// A batch of events arrived and was read.
    Batch,
    /// A message arrived that is no batch of events; it is skipped.
    BatchMalformed,
    /// The stream could not be opened, broke or closed.
    StreamFailed,
    Stop,
}

/// The event-stream listener: an eager snapshot on start, then the stream,
/// one batch at a time, until it fails.
#[derive(Clone, Copy, Debug, PartialEq, Eq, Hash, Structural)]
pub struct ListenSync {
    pub phase: ListenPhase,
}

/// One step of the listener. Starting a listener that already runs does
/// nothing.
pub open spec fn listen_step(s: ListenSync, e: ListenEvent) -> (ListenSync, SyncAction) {
    let running = s.phase is FirstSync || s.phase is Connecting || s.phase is Streaming;
    match e {
        ListenEvent::Start => if !running {
            (ListenSync { phase: ListenPhase::FirstSync }, SyncAction::FetchSnapshot)
        } else {
            (s, SyncAction::Nothing)
        },
        ListenEvent::SnapshotDone | ListenEvent::SnapshotFailed => if s.phase is FirstSync {
            (ListenSync { phase: ListenPhase::Connecting }, SyncAction::OpenStream)
        } else {
            (s, SyncAction::Nothing)
        },
        ListenEvent::StreamOpened => if s.phase is Connecting {
            (ListenSync { phase: ListenPhase::Streaming }, SyncAction::Nothing)
        } else {
            (s, SyncAction::Nothing)
        },
        ListenEvent::Batch => if s.phase is Streaming {
            (s, SyncAction::ApplyBatch)
        } else {
            (s, SyncAction::Nothing)
        },
        ListenEvent::BatchMalformed => (s, SyncAction::Nothing),
        ListenEvent::StreamFailed => if s.phase is Connecting || s.phase is Streaming {
            (ListenSync { phase: ListenPhase::Ended }, SyncAction::Nothing)
        } else {
            (s, SyncAction::Nothing)
        },
        ListenEvent::Stop => if running {
            (ListenSync { phase: ListenPhase::Stopped }, SyncAction::Abort)
        } else {
            (ListenSync { phase: ListenPhase::Stopped }, SyncAction::Nothing)
        },
    }
}

impl ListenSync {
    pub fn new() -> (r: ListenSync)
        ensures
            r.phase is Idle,
    {
        ListenSync { phase: ListenPhase::Idle }
    }

    /// Takes one event and returns the action to perform.
    pub fn step(&mut self, e: ListenEvent) -> (a: SyncAction)
        ensures
            (*final(self), a) == listen_step(*old(self), e),
    {
        let running = matches!(
            self.phase,
            ListenPhase::FirstSync | ListenPhase::Connecting | ListenPhase::Streaming
        );
        match e {
            ListenEvent::Start => {
                if !running {
                    self.phase = ListenPhase::FirstSync;
                    SyncAction::FetchSnapshot
                } else {
                    SyncAction::Nothing
                }
            },
            ListenEvent::SnapshotDone | ListenEvent::SnapshotFailed => {
                if matches!(self.phase, ListenPhase::FirstSync) {
                    self.phase = ListenPhase::Connecting;
                    SyncAction::OpenStream
                } else {
                    SyncAction::Nothing
                }
            },
            ListenEvent::StreamOpened => {
                if matches!(self.phase, ListenPhase::Connecting) {
                    self.phase = ListenPhase::Streaming;
                }
                SyncAction::Nothing
            },
            ListenEvent::Batch => {
                if matches!(self.phase, ListenPhase::Streaming) {
                    SyncAction::ApplyBatch
                } else {
                    SyncAction::Nothing
                }
            },
            ListenEvent::BatchMalformed => SyncAction::Nothing,
            ListenEvent::StreamFailed => {
                if matches!(self.phase, ListenPhase::Connecting | ListenPhase::Streaming) {
                    self.phase = ListenPhase::Ended;
                }
                SyncAction::Nothing
            },
            ListenEvent::Stop => {
                self.phase = ListenPhase::Stopped;
                if running {
                    SyncAction::Abort
                } else {
                    SyncAction::Nothing
                }
            },
        }
    }
}

} // verus!
