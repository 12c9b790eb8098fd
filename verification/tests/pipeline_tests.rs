use moq_sub::catalog::{AudioTrack, TrackEntry, TrackKind, VideoTrack};
use moq_sub::digits::{parse_u32, u64_pad3, u64_to_dec};
use moq_sub::reassembly::{reassemble, SegmentBuffer};
use moq_sub::sched::{
    channel_container_name, channel_target, channel_work_dir, container_args, select_channel,
    LiveScheduler, SchedulerConfig,
};
use moq_sub::session::{
    broadcast_path, dispatch_role, episode_id, subscriber_args, subscriber_url, RoleDecision,
    Session, SessionRole,
};
use moq_sub::vompc::Client;

#[test]
fn fragments_concatenate_in_delivery_order() {
    let frags: Vec<Vec<u8>> = vec![vec![1, 2, 3], vec![], vec![4], vec![5, 6]];
    let total: usize = frags.iter().map(|f| f.len()).sum();
    let segment = reassemble(&frags, 42);
    assert_eq!(segment.sequence, 42);
    assert_eq!(segment.data, vec![1, 2, 3, 4, 5, 6]);
    assert_eq!(segment.data.len(), total);
}

#[test]
fn empty_fragment_list_yields_empty_segment() {
    let segment = reassemble(&Vec::new(), 0);
    assert_eq!(segment.sequence, 0);
    assert!(segment.data.is_empty());
}

#[test]
fn buffer_grows_fragment_by_fragment() {
    let mut buf = SegmentBuffer::new();
    buf.push_fragment(&[10, 20]);
    buf.push_fragment(&[]);
    buf.push_fragment(&[30]);
    let segment = buf.finish(7);
    assert_eq!(segment.sequence, 7);
    assert_eq!(segment.data, vec![10, 20, 30]);
}

#[test]
fn decimal_rendering() {
    assert_eq!(u64_to_dec(0), "0");
    assert_eq!(u64_to_dec(1700000003200), "1700000003200");
    assert_eq!(u64_pad3(0), "000");
    assert_eq!(u64_pad3(7), "007");
    assert_eq!(u64_pad3(42), "042");
    assert_eq!(u64_pad3(200), "200");
    assert_eq!(u64_pad3(1234), "1234");
}

#[test]
fn sequence_number_parsing() {
    assert_eq!(parse_u32("0"), Some(0));
    assert_eq!(parse_u32("0123"), Some(123));
    assert_eq!(parse_u32("4294967295"), Some(u32::MAX));
    assert_eq!(parse_u32("4294967296"), None);
    assert_eq!(parse_u32(""), None);
    assert_eq!(parse_u32("12a"), None);
    assert_eq!(parse_u32("-1"), None);
}

#[test]
fn episode_numbering_and_paths() {
    let mut c = Client::new_with_offset("http://vompc.local/".to_string(), 41);
    assert_eq!(c.url(), "http://vompc.local/");
    assert_eq!(c.episodes_created(), 0);

    let req = c.create_req("GLAS_TILL_GLAS".to_string(), "broadcast-ab", 3600);
    assert_eq!(c.episodes_created(), 1);
    assert_eq!(req.channel, "GLAS_TILL_GLAS");
    assert_eq!(req.title_svt_id, "broadcast-ab");
    assert_eq!(req.program_id, 9123400);
    assert_eq!(req.episode, 42);
    assert_eq!(req.start_delay_seconds, 0);
    assert_eq!(req.duration, 3600);
    assert!(!req.encrypted);
    assert!(!req.sign_interpreted);
    assert!(!req.audio_described);
    assert!(!req.start);

    assert_eq!(c.start_path(), "9123400/042A/start");
    assert_eq!(c.stop_path(), "9123400/042A/stop");
    assert_eq!(c.delete_path(), "9123400/042A/delete");
    assert_eq!(c.resource_name(), "9123400/42");
}

#[test]
fn random_episode_offset_stays_in_range() {
    for _ in 0..32 {
        let c = Client::new("http://vompc.local/".to_string());
        let offset = c.episodes_offset();
        assert!((1..=900).contains(&offset));
    }
}

#[test]
fn channel_selection() {
    let stereo = TrackEntry::Audio(AudioTrack {
        kind: TrackKind::Audio,
        container: "mp4".to_string(),
        codec: "Opus".to_string(),
        channel_count: 2,
        sample_rate: 48000,
        sample_size: 16,
        bit_rate: None,
        init_track: "a.mp4".to_string(),
        data_track: "a.m4s".to_string(),
    });
    let mono = TrackEntry::Audio(AudioTrack {
        kind: TrackKind::Audio,
        container: "mp4".to_string(),
        codec: "Opus".to_string(),
        channel_count: 1,
        sample_rate: 48000,
        sample_size: 16,
        bit_rate: None,
        init_track: "a.mp4".to_string(),
        data_track: "a.m4s".to_string(),
    });
    let video = TrackEntry::Video(VideoTrack {
        kind: TrackKind::Video,
        container: "mp4".to_string(),
        codec: "avc1".to_string(),
        width: 1920,
        height: 1080,
        frame_rate: 30,
        bit_rate: None,
        init_track: "v.mp4".to_string(),
        data_track: "v.m4s".to_string(),
    });

    assert_eq!(select_channel(&vec![stereo.clone(), video.clone()]), "GLAS_TILL_GLAS");
    assert_eq!(select_channel(&vec![video.clone(), mono.clone()]), "GLAS_TILL_GLAS_TYST");
    assert_eq!(select_channel(&Vec::new()), "GLAS_TILL_GLAS");

    assert_eq!(channel_target("GLAS_TILL_GLAS"), "/output/glas_till_glas/noencoder");
    assert_eq!(channel_target("GLAS_TILL_GLAS_TYST"), "/output/glas_till_glas_tyst/noencoder");
    assert_eq!(channel_work_dir("GLAS_TILL_GLAS"), "dump");
    assert_eq!(channel_work_dir("GLAS_TILL_GLAS_TYST"), "dump/tyst");
    assert_eq!(channel_container_name("GLAS_TILL_GLAS"), "moq-sub-g2g");
    assert_eq!(channel_container_name("GLAS_TILL_GLAS_TYST"), "moq-sub-g2g-tyst");
}

#[test]
fn scheduler_holds_its_config() {
    let s = LiveScheduler::new(SchedulerConfig {
        redis_url: "redis://localhost".to_string(),
        tls_root: Vec::new(),
        tls_disable_verify: true,
    });
    assert_eq!(s.config.redis_url, "redis://localhost");
    assert!(s.config.tls_disable_verify);
}

#[test]
fn container_invocation() {
    assert_eq!(
        container_args("moq-sub-g2g", "/output/glas_till_glas/noencoder", "http://e/1").join(" "),
        "run --rm --name moq-sub-g2g --tmpfs /dump --user 10002:10002 moq-rs moq-sub \
         --output /output/glas_till_glas/noencoder --tls-disable-verify http://e/1"
    );
}

#[test]
fn session_path_handling() {
    assert_eq!(broadcast_path("/abc/def/"), "abc/def");
    assert_eq!(broadcast_path("///x"), "x");
    assert_eq!(broadcast_path(""), "");
    assert_eq!(broadcast_path("////"), "");
    assert_eq!(broadcast_path("plain"), "plain");

    assert_eq!(episode_id("e7a2ff34-13d4-4c3d"), "e7a2ff34-1");
    assert_eq!(episode_id("short"), "short");

    assert_eq!(subscriber_url("abc"), "https://localhost/abc");
    assert_eq!(
        subscriber_args("/out", "https://localhost/abc").join(" "),
        "--output /out --tls-disable-verify https://localhost/abc"
    );
}

#[test]
fn role_dispatch() {
    assert_eq!(dispatch_role(SessionRole::Publisher), RoleDecision::ServePublisher);
    assert_eq!(dispatch_role(SessionRole::Subscriber), RoleDecision::ServeSubscriber);
    assert_eq!(dispatch_role(SessionRole::Both), RoleDecision::Reject { code: 300 });
}

#[test]
fn session_keeps_subscriber_output() {
    let s = Session::new(Some("/out".to_string()));
    assert_eq!(s.subscriber_output.as_deref(), Some("/out"));
    let s = Session::new(None);
    assert!(s.subscriber_output.is_none());
}
