use moq_sub::catalog::{Catalog, ParseError, Track, TrackEntry, TrackKind};

#[test]
fn it_works() {
    let catalog = Catalog::from_str(
        r#"
{
  "tracks": [
    {
      "container": "mp4",
      "kind": "audio",
      "init_track": "audio.mp4",
      "data_track": "audio.m4s",
      "codec": "Opus",
      "sample_rate": 48000,
      "sample_size": 16,
      "channel_count": 2,
      "bit_rate": 128000
    },
    {
      "container": "mp4",
      "kind": "video",
      "init_track": "video.mp4",
      "data_track": "video.m4s",
      "codec": "avc1.64001e",
      "width": 853,
      "height": 480,
      "frame_rate": 30,
      "bit_rate": 2000000
    }
  ]
}
            "#,
    )
    .unwrap();

    println!("catalog: {catalog:?}");

    assert_eq!(catalog.tracks.len(), 2);
}

#[test]
fn kind_matches_discriminator() {
    let catalog = Catalog::from_slice(
        br#"{"tracks": [
            {"kind": "video", "container": "mp4", "codec": "avc1", "width": 1920,
             "height": 1080, "frame_rate": 30, "init_track": "v.mp4", "data_track": "v.m4s"},
            {"kind": "audio", "container": "mp4", "codec": "Opus", "channel_count": 2,
             "sample_rate": 48000, "sample_size": 16, "init_track": "a.mp4", "data_track": "a.m4s"}
        ]}"#,
    )
    .unwrap();
    assert_eq!(catalog.tracks.len(), 2);
    assert_eq!(catalog.tracks[0].kind(), TrackKind::Video);
    assert_eq!(catalog.tracks[1].kind(), TrackKind::Audio);
    match &catalog.tracks[1] {
        TrackEntry::Audio(a) => {
            assert_eq!(a.channel_count, 2);
            assert_eq!(a.sample_rate, 48000);
            assert_eq!(a.bit_rate, None);
            assert_eq!(a.init_track, "a.mp4");
            assert_eq!(a.data_track, "a.m4s");
        }
        TrackEntry::Video(_) => panic!("expected the audio variant"),
    }
    match &catalog.tracks[0] {
        TrackEntry::Video(v) => {
            assert_eq!(v.width, 1920);
            assert_eq!(v.height, 1080);
            assert_eq!(v.frame_rate, 30);
        }
        TrackEntry::Audio(_) => panic!("expected the video variant"),
    }
}

#[test]
fn invalid_json_is_syntax_error() {
    assert_eq!(Catalog::from_slice(b"not a catalog").unwrap_err(), ParseError::Syntax);
    assert_eq!(Catalog::from_str("{\"tracks\": [").unwrap_err(), ParseError::Syntax);
}

#[test]
fn missing_discriminator_is_schema_error() {
    // No kind field at all.
    let r = Catalog::from_slice(
        br#"{"tracks": [{"container": "mp4", "codec": "Opus", "channel_count": 2,
            "sample_rate": 48000, "sample_size": 16, "init_track": "a", "data_track": "b"}]}"#,
    );
    assert_eq!(r.unwrap_err(), ParseError::Schema);
    // Unrecognized kind.
    let r = Catalog::from_slice(br#"{"tracks": [{"kind": "subtitle"}]}"#);
    assert_eq!(r.unwrap_err(), ParseError::Schema);
    // Kind present but not a string.
    let r = Catalog::from_slice(br#"{"tracks": [{"kind": 3}]}"#);
    assert_eq!(r.unwrap_err(), ParseError::Schema);
}

#[test]
fn missing_required_field_is_schema_error() {
    // Audio without channel_count.
    let r = Catalog::from_slice(
        br#"{"tracks": [{"kind": "audio", "container": "mp4", "codec": "Opus",
            "sample_rate": 48000, "sample_size": 16, "init_track": "a", "data_track": "b"}]}"#,
    );
    assert_eq!(r.unwrap_err(), ParseError::Schema);
    // Video with a fractional frame rate.
    let r = Catalog::from_slice(
        br#"{"tracks": [{"kind": "video", "container": "mp4", "codec": "avc1", "width": 1920,
            "height": 1080, "frame_rate": 29.97, "init_track": "v", "data_track": "w"}]}"#,
    );
    assert_eq!(r.unwrap_err(), ParseError::Schema);
    // No track list.
    assert_eq!(Catalog::from_slice(b"{}").unwrap_err(), ParseError::Schema);
    // Track list is not an array.
    assert_eq!(Catalog::from_slice(br#"{"tracks": 5}"#).unwrap_err(), ParseError::Schema);
}

#[test]
fn catalog_resolves_from_fragments() {
    // The catalog document arrives split across transport fragments.
    let doc = br#"{"tracks": [{"kind": "video", "container": "mp4", "codec": "avc1",
        "width": 1280, "height": 720, "frame_rate": 50,
        "init_track": "video.mp4", "data_track": "video.m4s"}]}"#;
    let fragments: Vec<Vec<u8>> = doc.chunks(7).map(|c| c.to_vec()).collect();
    let catalog = moq_sub::catalog::resolve_catalog(&fragments).unwrap();
    assert_eq!(catalog.tracks.len(), 1);
    assert_eq!(catalog.tracks[0].kind(), TrackKind::Video);

    // Splitting differently never changes the result.
    let fragments: Vec<Vec<u8>> = vec![doc.to_vec()];
    let catalog2 = moq_sub::catalog::resolve_catalog(&fragments).unwrap();
    assert_eq!(catalog2.tracks.len(), 1);
}

#[test]
fn empty_track_list_parses() {
    let catalog = Catalog::from_slice(br#"{"tracks": []}"#).unwrap();
    assert_eq!(catalog.tracks.len(), 0);
}

#[test]
fn null_bit_rate_is_absent() {
    let catalog = Catalog::from_slice(
        br#"{"tracks": [{"kind": "audio", "container": "mp4", "codec": "Opus",
            "channel_count": 2, "sample_rate": 48000, "sample_size": 16,
            "bit_rate": null, "init_track": "a", "data_track": "b"}]}"#,
    )
    .unwrap();
    assert_eq!(catalog.tracks[0].bit_rate(), None);
}

#[test]
fn track_accessors_expose_catalog_values() {
    let catalog = Catalog::from_slice(
        br#"{"tracks": [{"kind": "audio", "container": "mp4", "codec": "Opus",
            "channel_count": 2, "sample_rate": 48000, "sample_size": 16,
            "bit_rate": 128000, "init_track": "audio.mp4", "data_track": "audio.m4s"}]}"#,
    )
    .unwrap();
    let t = &catalog.tracks[0];
    assert_eq!(t.kind().as_str(), "audio");
    assert_eq!(t.kind().as_short_str(), "a");
    assert_eq!(t.container(), "mp4");
    assert_eq!(t.codec(), "Opus");
    assert_eq!(t.bit_rate(), Some(128000));
    assert_eq!(t.init_track(), "audio.mp4");
    assert_eq!(t.data_track(), "audio.m4s");
    assert_eq!(t.channel_count(), Some(2));
}
