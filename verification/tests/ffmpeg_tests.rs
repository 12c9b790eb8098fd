use moq_sub::catalog::{AudioTrack, TrackKind, VideoTrack};
use moq_sub::ffmpeg::{args, audio_decode_args, audio_encode_args, output_pattern, remux_args,
    rescale_args};
use moq_sub::catalog::TrackKind::Audio;
use moq_sub::catalog::TrackKind::Video;

#[test]
fn audio() {
    let audio = AudioTrack {
        kind: Audio,
        bit_rate: Some(128000),
        data_track: "audio.m4s".to_string(),
        init_track: "audio.mp4".to_string(),
        codec: "Opus".to_string(),
        container: "mp4".to_string(),

        sample_size: 16,
        sample_rate: 48000,
        channel_count: 2,
    };
    let command_str = args(&audio).join(" ");

    println!("audio ffmpeg args\n: {command_str:?}");
}

#[test]
fn video() {
    let video = VideoTrack {
        kind: Video,
        bit_rate: Some(128000),
        codec: "Opus".to_string(),
        container: "mp4".to_string(),
        data_track: "video.m4s".to_string(),
        init_track: "video.mp4".to_string(),

        height: 1080,
        width: 1920,
        frame_rate: 50,
    };
    let command_str = args(&video).join(" ");

    println!("video ffmpeg args\n: {command_str:?}");
}

#[test]
fn audio_args_exact() {
    let audio = AudioTrack {
        kind: Audio,
        bit_rate: None,
        data_track: "audio.m4s".to_string(),
        init_track: "audio.mp4".to_string(),
        codec: "Opus".to_string(),
        container: "mp4".to_string(),
        sample_size: 16,
        sample_rate: 48000,
        channel_count: 2,
    };
    assert_eq!(
        args(&audio).join(" "),
        "-y -hide_banner -loglevel error \
         -i pipe:0 -c:a aac -var_stream_map a:0,name:a0 -b:a 192k \
         -muxdelay 0 -f segment -segment_time 3.2 -break_non_keyframes 1 \
         %d-a0.mp4"
    );
}

#[test]
fn video_args_exact() {
    let video = VideoTrack {
        kind: Video,
        bit_rate: None,
        codec: "avc1".to_string(),
        container: "mp4".to_string(),
        data_track: "video.m4s".to_string(),
        init_track: "video.mp4".to_string(),
        height: 720,
        width: 1280,
        frame_rate: 50,
    };
    let a = args(&video);
    assert_eq!(a[0..4].join(" "), "-y -hide_banner -loglevel error");
    assert_eq!(a[4..8].join(" "), "-i pipe:0 -video_track_timescale 90000");
    assert_eq!(a[8..14].join(" "), "-s:v 1280x720 -r 50 -c:v libx264");
    assert_eq!(a[a.len() - 1], "%d-v0.mp4");
    assert_eq!(
        a[a.len() - 9..a.len() - 1].join(" "),
        "-muxdelay 0 -f segment -segment_time 3.2 -break_non_keyframes 1"
    );
}

#[test]
fn video_args_embed_the_tracks_own_parameters() {
    let video = VideoTrack {
        kind: Video,
        bit_rate: Some(2_000_000),
        codec: "avc1.64001e".to_string(),
        container: "mp4".to_string(),
        data_track: "video.m4s".to_string(),
        init_track: "video.mp4".to_string(),
        height: 1080,
        width: 1920,
        frame_rate: 30,
    };
    let a = args(&video);
    assert_eq!(a[8..12].join(" "), "-s:v 1920x1080 -r 30");
    assert_eq!(a[18..20].join(" "), "-b:v 2000000");
    assert_eq!(a[34..38].join(" "), "-maxrate 2000000 -bufsize 2000000");
}

#[test]
fn audio_args_embed_the_tracks_own_bit_rate() {
    let audio = AudioTrack {
        kind: Audio,
        bit_rate: Some(128_000),
        data_track: "audio.m4s".to_string(),
        init_track: "audio.mp4".to_string(),
        codec: "Opus".to_string(),
        container: "mp4".to_string(),
        sample_size: 16,
        sample_rate: 48000,
        channel_count: 2,
    };
    assert_eq!(
        args(&audio).join(" "),
        "-y -hide_banner -loglevel error \
         -i pipe:0 -c:a aac -var_stream_map a:0,name:a0 -b:a 128000 \
         -muxdelay 0 -f segment -segment_time 3.2 -break_non_keyframes 1 \
         %d-a0.mp4"
    );
}

#[test]
fn output_pattern_per_kind() {
    assert_eq!(output_pattern(TrackKind::Audio), "%d-a0.mp4");
    assert_eq!(output_pattern(TrackKind::Video), "%d-v0.mp4");
}

#[test]
fn remux_args_exact() {
    assert_eq!(
        remux_args("dump/3-v0.mp4", "/out/1700000000.000-v0.mp4").join(" "),
        "-y -hide_banner -i dump/3-v0.mp4 -c copy -loglevel error -reset_timestamps 1 \
         -video_track_timescale 90000 /out/1700000000.000-v0.mp4"
    );
}

#[test]
fn rescale_args_exact() {
    assert_eq!(
        rescale_args("211-a0.mp4", "../211-a0-2.mp4", "").join(" "),
        "-add 211-a0.mp4:timescale=90000 ../211-a0-2.mp4"
    );
}

#[test]
fn audio_pipeline_args_exact() {
    assert_eq!(
        audio_decode_args().join(" "),
        "-y -hide_banner -i pipe:0 -f s16le -c:a pcm_s16le -ac 2 -ar 48000 -"
    );
    assert_eq!(
        audio_encode_args().join(" "),
        "-y -hide_banner -f s16le -c:a pcm_s16le -ac 2 -ar 48000 -i pipe:0 \
         -c:a aac -ac 2 -ar 48000 -f segment -reset_timestamps 1 -segment_time 3.2 \
         dump/%d-a0.mp4"
    );
}
