//! The output watcher: maps each finalized encoder output file
//! (`{sequence}-{suffix}`) to its timestamp-named destination, anchoring
//! the broadcast's timeline on the first video segment and re-aligning
//! audio sequence numbers for the segments skipped before the anchor
//! existed.

use vstd::prelude::*;
use vstd::string::*;
use crate::digits::{all_dec_digits, dec_value, parse_u32};
use crate::text::str_eq;
use crate::timeline::{
    round_to_grid, segment_timestamp, spec_round_to_grid, spec_segment_ms, spec_timestamp_chars,
    MAX_ANCHOR_MS,
};

verus! {

/// Index of the first `-` in `s`, or `s.len()` when there is none.
pub open spec fn dash_index(s: Seq<char>) -> int
    decreases s.len(),
{
    if s.len() == 0 {
        0
    } else if s[0] == '-' {
        0
    } else {
        1 + dash_index(s.drop_first())
    }
}

proof fn lemma_dash_index_at(s: Seq<char>, i: int)
    requires
        0 <= i <= s.len(),
        forall|j: int| 0 <= j < i ==> s[j] != '-',
        i == s.len() || s[i] == '-',
    ensures
        dash_index(s) == i,
    decreases i,
{
    if i == 0 {
        if s.len() > 0 && s[0] != '-' {
            assert(i < s.len() && s[i] == '-');
        }
    } else {
        let t = s.drop_first();
        assert(forall|j: int| 0 <= j < i - 1 ==> t[j] != '-');
        assert(i - 1 == t.len() || t[i - 1] == '-');
        lemma_dash_index_at(t, i - 1);
    }
}

/// What an output file name `{sequence}-{suffix}` denotes: the sequence
/// number before the single dash, and the suffix after it. Names without
/// exactly one dash, without a leading all-digit sequence, or with a
/// sequence number above `u32::MAX` denote nothing.
pub open spec fn spec_parse_name(s: Seq<char>) -> Option<(u32, Seq<char>)> {
    let d = dash_index(s);
    if 0 < d < s.len() && all_dec_digits(s.subrange(0, d)) && dec_value(s.subrange(0, d))
        <= u32::MAX && (forall|k: int| d < k < s.len() ==> s[k] != '-') {
        Some(((dec_value(s.subrange(0, d)) as u32), s.subrange(d + 1, s.len() as int)))
    } else {
        None
    }
}

/// How the watcher treats one file name: a video segment, an audio
/// segment, or a file of no interest (the continuous debug files, names
/// without a sequence number, foreign suffixes).
#[derive(Clone, Copy, Debug, PartialEq, Eq, Structural)]
pub enum SegmentFileClass {
    Video(u32),
    Audio(u32),
    Other,
}

pub open spec fn spec_classify(s: Seq<char>) -> SegmentFileClass {
    match spec_parse_name(s) {
        Some((seq, suffix)) => if suffix == "v0.mp4"@ {
            SegmentFileClass::Video(seq)
        } else if suffix == "a0.mp4"@ {
            SegmentFileClass::Audio(seq)
        } else {
            SegmentFileClass::Other
        },
        None => SegmentFileClass::Other,
    }
}

/// Parse and classify one output file name.
pub fn classify_segment_file(name: &str) -> (c: SegmentFileClass)
    ensures
        c == spec_classify(name@),
{
    let len = name.unicode_len();
    let mut d: usize = 0;
    while d < len && name.get_char(d) != '-'
        invariant
            0 <= d <= len,
            len == name@.len(),
            forall|j: int| 0 <= j < d ==> name@[j] != '-',
        decreases len - d,
    {
        d = d + 1;
    }
    proof {
        lemma_dash_index_at(name@, d as int);
    }
    if d == 0 || d >= len {
        return SegmentFileClass::Other;
    }
    let mut j: usize = d + 1;
    while j < len && name.get_char(j) != '-'
        invariant
            d + 1 <= j <= len,
            len == name@.len(),
            forall|k: int| d < k < j ==> name@[k] != '-',
        decreases len - j,
    {
        j = j + 1;
    }
    if j < len {
        return SegmentFileClass::Other;
    }
    let digits = name.substring_char(0, d);
    let seq = match parse_u32(digits) {
        Some(v) => v,
        None => {
            return SegmentFileClass::Other;
        },
    };
    let suffix = name.substring_char(d + 1, len);
    if str_eq(suffix, "v0.mp4") {
        SegmentFileClass::Video(seq)
    } else if str_eq(suffix, "a0.mp4") {
        SegmentFileClass::Audio(seq)
    } else {
        SegmentFileClass::Other
    }
}

/// The process-wide timeline anchor: unset until the first finalized
/// video segment is seen, then fixed for the rest of the broadcast as the
/// pair of the grid-rounded start time and the video sequence number that
/// set it.
#[derive(Clone, Copy, Debug, PartialEq, Eq, Structural)]
pub enum TimelineAnchor {
    Unset,
    Anchored { start_ms: u64, anchor_seq: u32 },
}

/// What the caller must do with one observed file.
#[derive(Debug)]
pub enum WatcherAction {
    /// Remux the video file (correcting its container time-scale) into
    /// the destination of this timestamp name.
    RemuxVideo { dst_name: String },
    /// Copy the audio file unchanged to the destination of this
    /// timestamp name.
    CopyAudio { dst_name: String },
    /// Audio seen before the anchor was set: count it and produce
    /// nothing.
    SkipAudio,
    /// Not a segment file of this pipeline, or audio whose re-aligned
    /// sequence number has no timestamp.
    Ignore,
}

/// Destination name of a video segment: its timestamp, then `-v0.mp4`.
pub open spec fn spec_video_dst(start_ms: u64, seq: u32) -> Seq<char> {
    spec_timestamp_chars(start_ms, seq) + "-v0.mp4"@
}

/// Destination name of an audio segment: its timestamp, then `-a0.mp4`.
pub open spec fn spec_audio_dst(start_ms: u64, seq: u32) -> Seq<char> {
    spec_timestamp_chars(start_ms, seq) + "-a0.mp4"@
}

/// The audio sequence number re-aligned against the video timeline: the
/// skipped leading audio segments are subtracted and the anchoring video
/// sequence number added, so that the first audio segment after the skip
/// window shares the anchor video segment's timestamp.
pub open spec fn spec_adjusted_audio_seq(seq: u32, skipped: u64, anchor_seq: u32) -> int {
    seq - skipped + anchor_seq
}

/// The file watcher's whole state: the timeline anchor and the count of
/// audio segments observed before the anchor was set.
pub struct Watcher {
    anchor: TimelineAnchor,
    skipped_audio: u64,
}

impl Watcher {
    pub closed spec fn spec_anchor(&self) -> TimelineAnchor {
        self.anchor
    }

    pub closed spec fn spec_skipped_audio(&self) -> u64 {
        self.skipped_audio
    }

    /// A set anchor always lies on the 100 ms grid and leaves room for
    /// every segment timestamp to fit in a `u64`.
    pub open spec fn wf(&self) -> bool {
        self.spec_anchor() matches TimelineAnchor::Anchored { start_ms, .. } ==> start_ms % 100 == 0
            && start_ms <= MAX_ANCHOR_MS
    }

    pub fn new() -> (w: Watcher)
        ensures
            w.wf(),
            w.spec_anchor() is Unset,
            w.spec_skipped_audio() == 0,
    {
        Watcher { anchor: TimelineAnchor::Unset, skipped_audio: 0 }
    }

    pub fn anchor(&self) -> (a: TimelineAnchor)
        ensures
            a == self.spec_anchor(),
    {
        self.anchor
    }

    pub fn skipped_audio(&self) -> (n: u64)
        ensures
            n == self.spec_skipped_audio(),
    {
        self.skipped_audio
    }

    /// Observe one finalized file in the encoder output directory, at
    /// wall-clock `now_ms` on the broadcast's reference clock.
    ///
    /// The anchor transitions `Unset` to `Set` exactly once, on the first
    /// video segment; every later event leaves it unchanged. Audio
    /// observed while the anchor is unset is counted and excluded from
    /// output; audio observed afterwards is copied under its re-aligned
    /// timestamp.
    pub fn on_file_event(&mut self, name: &str, now_ms: u64) -> (action: WatcherAction)
        requires
            old(self).wf(),
            old(self).spec_skipped_audio() < u64::MAX,
            now_ms + 50 <= MAX_ANCHOR_MS,
        ensures
            final(self).wf(),
            old(self).spec_anchor() is Anchored ==> final(self).spec_anchor()
                == old(self).spec_anchor() && final(self).spec_skipped_audio()
                == old(self).spec_skipped_audio(),
            match spec_classify(name@) {
                SegmentFileClass::Video(seq) => {
                    &&& final(self).spec_skipped_audio() == old(self).spec_skipped_audio()
                    &&& old(self).spec_anchor() is Unset ==> final(self).spec_anchor()
                        == (TimelineAnchor::Anchored {
                        start_ms: spec_round_to_grid(now_ms) as u64,
                        anchor_seq: seq,
                    })
                    &&& (final(self).spec_anchor() matches TimelineAnchor::Anchored { start_ms, .. }
                        && (action matches WatcherAction::RemuxVideo { dst_name } && dst_name@
                        == spec_video_dst(start_ms, seq)))
                },
                SegmentFileClass::Audio(seq) => {
                    &&& old(self).spec_anchor() is Unset ==> action is SkipAudio
                        && final(self).spec_anchor() is Unset && final(self).spec_skipped_audio()
                        == old(self).spec_skipped_audio() + 1
                    &&& (old(self).spec_anchor() matches TimelineAnchor::Anchored {
                        start_ms,
                        anchor_seq,
                    } ==> {
                        let adjusted = spec_adjusted_audio_seq(
                            seq,
                            old(self).spec_skipped_audio(),
                            anchor_seq,
                        );
                        if seq < old(self).spec_skipped_audio() || adjusted > u32::MAX {
                            action is Ignore
                        } else {
                            action matches WatcherAction::CopyAudio { dst_name } && dst_name@
                                == spec_audio_dst(start_ms, adjusted as u32)
                        }
                    })
                },
                SegmentFileClass::Other => action is Ignore && *final(self) == *old(self),
            },
    {
        match classify_segment_file(name) {
            SegmentFileClass::Video(seq) => {
                let start_ms = match self.anchor {
                    TimelineAnchor::Unset => {
                        let start = round_to_grid(now_ms);
                        self.anchor = TimelineAnchor::Anchored { start_ms: start, anchor_seq: seq };
                        start
                    },
                    TimelineAnchor::Anchored { start_ms, .. } => start_ms,
                };
                let ts = segment_timestamp(start_ms, seq);
                WatcherAction::RemuxVideo { dst_name: ts.concat("-v0.mp4") }
            },
            SegmentFileClass::Audio(seq) => {
                match self.anchor {
                    TimelineAnchor::Unset => {
                        self.skipped_audio = self.skipped_audio + 1;
                        WatcherAction::SkipAudio
                    },
                    TimelineAnchor::Anchored { start_ms, anchor_seq } => {
                        if (seq as u64) < self.skipped_audio {
                            WatcherAction::Ignore
                        } else {
                            let adjusted = seq as u64 - self.skipped_audio + anchor_seq as u64;
                            if adjusted > 0xffff_ffffu64 {
                                WatcherAction::Ignore
                            } else {
                                let ts = segment_timestamp(start_ms, adjusted as u32);
                                WatcherAction::CopyAudio { dst_name: ts.concat("-a0.mp4") }
                            }
                        }
                    },
                }
            },
            SegmentFileClass::Other => WatcherAction::Ignore,
        }
    }
}

/// Once `n` audio segments were skipped before the anchor existed, the
/// next audio segment to arrive (sequence number `n`) re-aligns to
/// exactly the sequence number of the video segment that set the anchor,
/// and so to exactly that video segment's timestamp.
pub proof fn lemma_skipped_audio_realigns(start_ms: u64, anchor_seq: u32, skipped: u64)
    requires
        skipped <= u32::MAX,
    ensures
        spec_adjusted_audio_seq(skipped as u32, skipped, anchor_seq) == anchor_seq,
        spec_segment_ms(start_ms, spec_adjusted_audio_seq(skipped as u32, skipped, anchor_seq) as u32)
            == spec_segment_ms(start_ms, anchor_seq),
{
}

} // verus!
