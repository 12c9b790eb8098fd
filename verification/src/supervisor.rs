//! The per-track encoder supervisor: binds one track to one external
//! encoder process and keeps bytes flowing from the transport into it.
//!
//! The supervision protocol: spawn the encoder, write the track's
//! initialization segment exactly once, then feed data segments until the
//! track ends, a write fails, the encoder exits, or the broadcast is
//! cancelled — whichever comes first. If the feed ends while the encoder
//! still runs, the encoder is killed: no encoder process survives its
//! supervisor.

use vstd::prelude::*;
use crate::catalog::{Track, TrackEntry, TrackKind, TrackView};

verus! {

/// Where the supervision of one track stands.
#[derive(Clone, Copy, Debug, PartialEq, Eq, Structural)]
pub enum SupervisorPhase {
    /// The encoder process has not been spawned yet.
    Spawning,
    /// The encoder runs; the initialization segment has not been written.
    WritingInit,
    /// The initialization segment was written exactly once; data segments
    /// are being fed.
    Feeding,
    /// Supervision has ended; the encoder no longer runs.
    Done,
}

/// How one track's supervision ended. A failed track stays stopped for
/// the rest of the broadcast; it never takes down sibling tracks.
#[derive(Clone, Copy, Debug, PartialEq, Eq, Structural)]
pub enum TrackOutcome {
    /// Track ended, encoder exited cleanly, its input pipe closed, or the
    /// broadcast was cancelled.
    Completed,
    /// The encoder exited on its own with a failure status; logged, not
    /// retried.
    EncoderFailed,
    /// A write to the encoder's input failed other than by a closed pipe.
    WriteError,
    /// The encoder process could not be spawned.
    SpawnError,
}

/// One observation delivered to the supervisor while it feeds the
/// encoder.
#[derive(Clone, Copy, Debug, PartialEq, Eq, Structural)]
pub enum FeedEvent {
    /// A data segment was written to the encoder's input.
    SegmentWritten,
    /// The transport signalled the end of the track.
    TrackEnded,
    /// A write to the encoder's input failed; a broken pipe means the
    /// encoder closed its input on its own and counts as a normal end.
    WriteFailed { broken_pipe: bool },
    /// The encoder process exited on its own.
    EncoderExited { clean: bool },
    /// The broadcast-level session ended.
    Cancelled,
}

/// What the caller must do after handing an event to the supervisor.
#[derive(Clone, Copy, Debug, PartialEq, Eq, Structural)]
pub enum SupervisorAction {
    /// Kill the encoder process now.
    KillEncoder,
    /// Keep feeding.
    Continue,
}

/// The outcome an ending event decides, given whether a failed write was
/// a broken pipe and whether the encoder's own exit was clean.
pub open spec fn spec_event_outcome(ev: FeedEvent) -> TrackOutcome {
    match ev {
        FeedEvent::SegmentWritten => TrackOutcome::Completed,
        FeedEvent::TrackEnded => TrackOutcome::Completed,
        FeedEvent::WriteFailed { broken_pipe } => if broken_pipe {
            TrackOutcome::Completed
        } else {
            TrackOutcome::WriteError
        },
        FeedEvent::EncoderExited { clean } => if clean {
            TrackOutcome::Completed
        } else {
            TrackOutcome::EncoderFailed
        },
        FeedEvent::Cancelled => TrackOutcome::Completed,
    }
}

/// Supervision state of one track's external encoder process.
pub struct Supervisor {
    phase: SupervisorPhase,
    encoder_running: bool,
    outcome: Option<TrackOutcome>,
}

impl Supervisor {
    pub closed spec fn spec_phase(&self) -> SupervisorPhase {
        self.phase
    }

    pub closed spec fn spec_encoder_running(&self) -> bool {
        self.encoder_running
    }

    pub closed spec fn spec_outcome(&self) -> Option<TrackOutcome> {
        self.outcome
    }

    /// The encoder runs exactly while its segments are being written, an
    /// outcome exists exactly once supervision has ended, and ended
    /// supervision never leaves the encoder running.
    pub open spec fn wf(&self) -> bool {
        &&& (self.spec_encoder_running() <==> (self.spec_phase() is WritingInit
            || self.spec_phase() is Feeding))
        &&& (self.spec_outcome() is Some <==> self.spec_phase() is Done)
    }

    /// Begin supervising one track; no encoder process exists yet.
    pub fn new() -> (s: Supervisor)
        ensures
            s.wf(),
            s.spec_phase() is Spawning,
            !s.spec_encoder_running(),
    {
        Supervisor { phase: SupervisorPhase::Spawning, encoder_running: false, outcome: None }
    }

    pub fn phase(&self) -> (p: SupervisorPhase)
        ensures
            p == self.spec_phase(),
    {
        self.phase
    }

    pub fn encoder_running(&self) -> (r: bool)
        ensures
            r == self.spec_encoder_running(),
    {
        self.encoder_running
    }

    pub fn outcome(&self) -> (o: Option<TrackOutcome>)
        ensures
            o == self.spec_outcome(),
    {
        self.outcome
    }

    /// The encoder process was spawned; its initialization segment must
    /// be written next, before any data segment.
    pub fn on_spawned(&mut self)
        requires
            old(self).wf(),
            old(self).spec_phase() is Spawning,
        ensures
            final(self).wf(),
            final(self).spec_phase() is WritingInit,
            final(self).spec_encoder_running(),
            final(self).spec_outcome() is None,
    {
        self.phase = SupervisorPhase::WritingInit;
        self.encoder_running = true;
    }

    /// Spawning the encoder failed: fatal for this track alone.
    pub fn on_spawn_failed(&mut self)
        requires
            old(self).wf(),
            old(self).spec_phase() is Spawning,
        ensures
            final(self).wf(),
            final(self).spec_phase() is Done,
            !final(self).spec_encoder_running(),
            final(self).spec_outcome() == Some(TrackOutcome::SpawnError),
    {
        self.phase = SupervisorPhase::Done;
        self.outcome = Some(TrackOutcome::SpawnError);
    }

    /// The initialization segment was written, exactly once, first.
    pub fn on_init_written(&mut self)
        requires
            old(self).wf(),
            old(self).spec_phase() is WritingInit,
        ensures
            final(self).wf(),
            final(self).spec_phase() is Feeding,
            final(self).spec_encoder_running(),
            final(self).spec_outcome() is None,
    {
        self.phase = SupervisorPhase::Feeding;
    }

    /// Race one observed event against the feed loop. A successful
    /// segment write keeps feeding; every other event ends supervision
    /// with its outcome, and the encoder is killed whenever it is still
    /// running at that point. No data segment is written before the
    /// initialization segment, so a `SegmentWritten` event presupposes
    /// the feeding phase.
    pub fn on_feed_event(&mut self, ev: FeedEvent) -> (action: SupervisorAction)
        requires
            old(self).wf(),
            old(self).spec_phase() is WritingInit || old(self).spec_phase() is Feeding,
            ev is SegmentWritten ==> old(self).spec_phase() is Feeding,
        ensures
            final(self).wf(),
            ev is SegmentWritten ==> *final(self) == *old(self) && action is Continue,
            !(ev is SegmentWritten) ==> {
                &&& final(self).spec_phase() is Done
                &&& !final(self).spec_encoder_running()
                &&& final(self).spec_outcome() == Some(spec_event_outcome(ev))
                &&& (action is KillEncoder <==> !(ev is EncoderExited))
            },
    {
        match ev {
            FeedEvent::SegmentWritten => SupervisorAction::Continue,
            FeedEvent::TrackEnded => {
                self.phase = SupervisorPhase::Done;
                self.encoder_running = false;
                self.outcome = Some(TrackOutcome::Completed);
                SupervisorAction::KillEncoder
            },
            FeedEvent::WriteFailed { broken_pipe } => {
                self.phase = SupervisorPhase::Done;
                self.encoder_running = false;
                self.outcome = Some(
                    if broken_pipe {
                        TrackOutcome::Completed
                    } else {
                        TrackOutcome::WriteError
                    },
                );
                SupervisorAction::KillEncoder
            },
            FeedEvent::EncoderExited { clean } => {
                self.phase = SupervisorPhase::Done;
                self.encoder_running = false;
                self.outcome = Some(
                    if clean {
                        TrackOutcome::Completed
                    } else {
                        TrackOutcome::EncoderFailed
                    },
                );
                SupervisorAction::Continue
            },
            FeedEvent::Cancelled => {
                self.phase = SupervisorPhase::Done;
                self.encoder_running = false;
                self.outcome = Some(TrackOutcome::Completed);
                SupervisorAction::KillEncoder
            },
        }
    }
}

/// No orphaned encoder survives its supervisor: once supervision has
/// ended, the encoder process is no longer running.
pub proof fn lemma_no_orphaned_encoder(s: Supervisor)
    requires
        s.wf(),
        s.spec_phase() is Done,
    ensures
        !s.spec_encoder_running(),
{
}

/// Which feed pipeline serves a track: multi-channel audio goes through
/// the audio decode/encode pair, everything else is piped into the
/// track's own encoder invocation.
#[derive(Clone, Copy, Debug, PartialEq, Eq, Structural)]
pub enum FeedRoute {
    AudioPipeline,
    Encoder,
}

pub open spec fn spec_feed_route(t: TrackView) -> FeedRoute {
    match t {
        TrackView::Audio(a) => if a.kind == TrackKind::Audio && a.channel_count > 1 {
            FeedRoute::AudioPipeline
        } else {
            FeedRoute::Encoder
        },
        TrackView::Video(_) => FeedRoute::Encoder,
    }
}

/// Decide which feed pipeline a track is served by.
pub fn feed_route(track: &TrackEntry) -> (r: FeedRoute)
    ensures
        r == spec_feed_route(track@),
{
    match track.channel_count() {
        Some(n) => if track.kind() == TrackKind::Audio && n > 1 {
            FeedRoute::AudioPipeline
        } else {
            FeedRoute::Encoder
        },
        None => FeedRoute::Encoder,
    }
}

} // verus!
