use moq_sub::timeline::{ntp_now_ms, ntp_of, round_to_grid, segment_timestamp, NTP_EPOCH_OFFSET_MS};
use moq_sub::watcher::{
    classify_segment_file, SegmentFileClass, TimelineAnchor, Watcher, WatcherAction,
};

const NOW: u64 = 1_700_000_000_000;

fn expect_remux(action: WatcherAction) -> String {
    match action {
        WatcherAction::RemuxVideo { dst_name } => dst_name,
        other => panic!("expected a video remux, got {other:?}"),
    }
}

fn expect_copy(action: WatcherAction) -> String {
    match action {
        WatcherAction::CopyAudio { dst_name } => dst_name,
        other => panic!("expected an audio copy, got {other:?}"),
    }
}

#[test]
fn classify_names() {
    assert_eq!(classify_segment_file("12-v0.mp4"), SegmentFileClass::Video(12));
    assert_eq!(classify_segment_file("0-a0.mp4"), SegmentFileClass::Audio(0));
    assert_eq!(classify_segment_file("4294967295-a0.mp4"), SegmentFileClass::Audio(u32::MAX));
    // Names the watcher must ignore.
    assert_eq!(classify_segment_file("audio-continuous.mp4"), SegmentFileClass::Other);
    assert_eq!(classify_segment_file("12-continuous.mp4"), SegmentFileClass::Other);
    assert_eq!(classify_segment_file("12-a0-x.mp4"), SegmentFileClass::Other);
    assert_eq!(classify_segment_file("-a0.mp4"), SegmentFileClass::Other);
    assert_eq!(classify_segment_file("12"), SegmentFileClass::Other);
    assert_eq!(classify_segment_file(""), SegmentFileClass::Other);
    assert_eq!(classify_segment_file("4294967296-v0.mp4"), SegmentFileClass::Other);
}

#[test]
fn timestamps_are_exact() {
    assert_eq!(segment_timestamp(1_700_000_000_000, 0), "1700000000.000");
    assert_eq!(segment_timestamp(1_700_000_000_000, 1), "1700000003.200");
    assert_eq!(segment_timestamp(1_700_000_000_000, 2), "1700000006.400");
    assert_eq!(segment_timestamp(0, 0), "0.000");
    assert_eq!(segment_timestamp(100, 0), "0.100");
}

#[test]
fn grid_rounding() {
    assert_eq!(round_to_grid(1_700_000_000_000), 1_700_000_000_000);
    assert_eq!(round_to_grid(1_700_000_000_049), 1_700_000_000_000);
    assert_eq!(round_to_grid(1_700_000_000_050), 1_700_000_000_100);
    assert_eq!(round_to_grid(149), 100);
    assert_eq!(round_to_grid(150), 200);
}

#[test]
fn startup_skew_scenario() {
    // One audio and one video track; audio segments 0..2 arrive before
    // any video segment, then video 0..4, then audio from 3 on.
    let mut w = Watcher::new();

    for seq in 0..3u32 {
        let action = w.on_file_event(&format!("{seq}-a0.mp4"), NOW);
        assert!(matches!(action, WatcherAction::SkipAudio));
        assert!(matches!(w.anchor(), TimelineAnchor::Unset));
    }
    assert_eq!(w.skipped_audio(), 3);

    // The first video segment anchors the timeline.
    let dst = expect_remux(w.on_file_event("0-v0.mp4", NOW));
    assert_eq!(dst, "1700000000.000-v0.mp4");
    assert_eq!(w.anchor(), TimelineAnchor::Anchored { start_ms: NOW, anchor_seq: 0 });

    for seq in 1..5u32 {
        let dst = expect_remux(w.on_file_event(&format!("{seq}-v0.mp4"), NOW + 777));
        assert_eq!(dst, format!("{}-v0.mp4", segment_timestamp(NOW, seq)));
    }

    // The first audio segment after the skip window shares the anchoring
    // video segment's timestamp.
    let dst = expect_copy(w.on_file_event("3-a0.mp4", NOW));
    assert_eq!(dst, "1700000000.000-a0.mp4");
    let dst = expect_copy(w.on_file_event("4-a0.mp4", NOW));
    assert_eq!(dst, "1700000003.200-a0.mp4");

    // Audio from inside the skip window stays excluded.
    assert!(matches!(w.on_file_event("1-a0.mp4", NOW), WatcherAction::Ignore));
    assert_eq!(w.skipped_audio(), 3);
}

#[test]
fn anchor_transitions_only_once() {
    let mut w = Watcher::new();
    expect_remux(w.on_file_event("7-v0.mp4", NOW));
    let anchored = w.anchor();
    assert_eq!(anchored, TimelineAnchor::Anchored { start_ms: NOW, anchor_seq: 7 });

    // Later video segments, even with a very different clock, never move
    // the anchor.
    expect_remux(w.on_file_event("8-v0.mp4", NOW + 86_400_000));
    assert_eq!(w.anchor(), anchored);
    expect_remux(w.on_file_event("7-v0.mp4", NOW + 999_999));
    assert_eq!(w.anchor(), anchored);
    // Audio does not move it either.
    expect_copy(w.on_file_event("9-a0.mp4", NOW + 5));
    assert_eq!(w.anchor(), anchored);
}

#[test]
fn audio_without_skew_keeps_its_sequence() {
    let mut w = Watcher::new();
    expect_remux(w.on_file_event("0-v0.mp4", NOW));
    let dst = expect_copy(w.on_file_event("0-a0.mp4", NOW));
    assert_eq!(dst, "1700000000.000-a0.mp4");
    let dst = expect_copy(w.on_file_event("2-a0.mp4", NOW));
    assert_eq!(dst, "1700000006.400-a0.mp4");
    assert_eq!(w.skipped_audio(), 0);
}

#[test]
fn anchor_start_is_grid_rounded() {
    let mut w = Watcher::new();
    expect_remux(w.on_file_event("0-v0.mp4", NOW + 77));
    assert_eq!(w.anchor(), TimelineAnchor::Anchored { start_ms: NOW + 100, anchor_seq: 0 });
}

#[test]
fn reference_clock_runs_after_ntp_epoch() {
    let now = ntp_now_ms();
    assert!(now >= NTP_EPOCH_OFFSET_MS);
}

#[test]
fn unix_times_shift_to_the_reference_clock() {
    assert_eq!(ntp_of(0), Some(NTP_EPOCH_OFFSET_MS));
    assert_eq!(ntp_of(1_700_000_000_000), Some(1_700_000_000_000 + NTP_EPOCH_OFFSET_MS));
    assert_eq!(ntp_of(-1), None);
}
