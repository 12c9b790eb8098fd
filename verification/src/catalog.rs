//! The track model and the catalog document.
//!
//! A broadcast's catalog is a JSON document listing its tracks. Each track
//! object carries a `kind` discriminator that decides whether the audio or
//! the video attribute set applies; an absent or unrecognized discriminator
//! is a parse error, never a silently wrong variant.

use vstd::prelude::*;
use vstd::slice::slice_index_get;
use vstd::string::*;
use crate::digits::{dec_digits, u64_to_dec};
use crate::json::{
    json_as_array, json_as_str, json_as_u64, json_get, json_is_null, json_doc, parse_json,
    val_model, JsonModel,
};
use crate::text::str_eq;

verus! {

/// Which attribute set of a track is semantically valid.
#[derive(Clone, Copy, Debug, PartialEq, Eq, Structural)]
pub enum TrackKind {
    Audio,
    Video,
}

pub open spec fn spec_kind_str(k: TrackKind) -> Seq<char> {
    match k {
        TrackKind::Audio => "audio"@,
        TrackKind::Video => "video"@,
    }
}

pub open spec fn spec_kind_short_str(k: TrackKind) -> Seq<char> {
    match k {
        TrackKind::Audio => "a"@,
        TrackKind::Video => "v"@,
    }
}

impl TrackKind {
    /// The discriminator word this kind is written as in a catalog.
    pub fn as_str(&self) -> (r: &'static str)
        ensures
            r@ == spec_kind_str(*self),
    {
        match self {
            TrackKind::Audio => "audio",
            TrackKind::Video => "video",
        }
    }

    /// The one-letter prefix used in output file names (`…-a0`, `…-v0`).
    pub fn as_short_str(&self) -> (r: &'static str)
        ensures
            r@ == spec_kind_short_str(*self),
    {
        match self {
            TrackKind::Audio => "a",
            TrackKind::Video => "v",
        }
    }
}

/// An audio track as described by one catalog track object.
#[derive(Debug, Clone)]
pub struct AudioTrack {
    pub kind: TrackKind,
    pub container: String,
    pub codec: String,
    pub channel_count: u32,
    pub sample_rate: u32,
    pub sample_size: u32,
    pub bit_rate: Option<u32>,
    pub init_track: String,
    pub data_track: String,
}

/// A video track as described by one catalog track object.
#[derive(Debug, Clone)]
pub struct VideoTrack {
    pub kind: TrackKind,
    pub container: String,
    pub codec: String,
    pub width: u32,
    pub height: u32,
    pub frame_rate: u32,
    pub bit_rate: Option<u32>,
    pub init_track: String,
    pub data_track: String,
}

pub struct AudioTrackView {
    pub kind: TrackKind,
    pub container: Seq<char>,
    pub codec: Seq<char>,
    pub channel_count: u32,
    pub sample_rate: u32,
    pub sample_size: u32,
    pub bit_rate: Option<u32>,
    pub init_track: Seq<char>,
    pub data_track: Seq<char>,
}

pub struct VideoTrackView {
    pub kind: TrackKind,
    pub container: Seq<char>,
    pub codec: Seq<char>,
    pub width: u32,
    pub height: u32,
    pub frame_rate: u32,
    pub bit_rate: Option<u32>,
    pub init_track: Seq<char>,
    pub data_track: Seq<char>,
}

impl View for AudioTrack {
    type V = AudioTrackView;

    open spec fn view(&self) -> AudioTrackView {
        AudioTrackView {
            kind: self.kind,
            container: self.container@,
            codec: self.codec@,
            channel_count: self.channel_count,
            sample_rate: self.sample_rate,
            sample_size: self.sample_size,
            bit_rate: self.bit_rate,
            init_track: self.init_track@,
            data_track: self.data_track@,
        }
    }
}

impl View for VideoTrack {
    type V = VideoTrackView;

    open spec fn view(&self) -> VideoTrackView {
        VideoTrackView {
            kind: self.kind,
            container: self.container@,
            codec: self.codec@,
            width: self.width,
            height: self.height,
            frame_rate: self.frame_rate,
            bit_rate: self.bit_rate,
            init_track: self.init_track@,
            data_track: self.data_track@,
        }
    }
}

/// The common face of a catalog track: its attributes and the argument
/// list of the external encoder invocation for it.
pub trait Track {
    spec fn spec_kind(&self) -> TrackKind;

    spec fn spec_container(&self) -> Seq<char>;

    spec fn spec_codec(&self) -> Seq<char>;

    spec fn spec_bit_rate(&self) -> Option<u32>;

    spec fn spec_init_track(&self) -> Seq<char>;

    spec fn spec_data_track(&self) -> Seq<char>;

    /// The exact encoder arguments for this track, reading its input from
    /// `src`.
    spec fn spec_ffmpeg_args(&self, src: Seq<char>) -> Seq<Seq<char>>;

    fn kind(&self) -> (k: TrackKind)
        ensures
            k == self.spec_kind(),
    ;

    fn container(&self) -> (s: String)
        ensures
            s@ == self.spec_container(),
    ;

    fn codec(&self) -> (s: String)
        ensures
            s@ == self.spec_codec(),
    ;

    fn bit_rate(&self) -> (b: Option<u32>)
        ensures
            b == self.spec_bit_rate(),
    ;

    fn init_track(&self) -> (s: String)
        ensures
            s@ == self.spec_init_track(),
    ;

    fn data_track(&self) -> (s: String)
        ensures
            s@ == self.spec_data_track(),
    ;

    fn ffmpeg_args(&self, src: &str) -> (args: Vec<String>)
        ensures
            args@.map_values(|a: String| a@) == self.spec_ffmpeg_args(src@),
    ;
}

impl AudioTrack {
    /// The encoder bit-rate argument for this track: its own bit rate in
    /// bits per second, or the deployment default when the catalog gave
    /// none.
    pub open spec fn spec_bit_rate_str(&self) -> Seq<char> {
        match self.bit_rate {
            Some(b) => dec_digits(b as nat),
            None => "192k"@,
        }
    }

    fn bit_rate_str(&self) -> (r: String)
        ensures
            r@ == self.spec_bit_rate_str(),
    {
        match self.bit_rate {
            Some(b) => u64_to_dec(b as u64),
            None => "192k".to_owned(),
        }
    }
}

impl VideoTrack {
    /// This track's own frame size, `{width}x{height}`.
    pub open spec fn spec_resolution(&self) -> Seq<char> {
        dec_digits(self.width as nat) + "x"@ + dec_digits(self.height as nat)
    }

    fn resolution(&self) -> (r: String)
        ensures
            r@ == self.spec_resolution(),
    {
        let mut r = u64_to_dec(self.width as u64);
        r.append("x");
        r.append(u64_to_dec(self.height as u64).as_str());
        proof {
            assert(r@ =~= self.spec_resolution());
        }
        r
    }

    /// The encoder bit-rate argument for this track: its own bit rate in
    /// bits per second, or the deployment default when the catalog gave
    /// none.
    pub open spec fn spec_bit_rate_str(&self) -> Seq<char> {
        match self.bit_rate {
            Some(b) => dec_digits(b as nat),
            None => "4.5M"@,
        }
    }

    fn bit_rate_str(&self) -> (r: String)
        ensures
            r@ == self.spec_bit_rate_str(),
    {
        match self.bit_rate {
            Some(b) => u64_to_dec(b as u64),
            None => "4.5M".to_owned(),
        }
    }
}

impl Track for AudioTrack {
    open spec fn spec_kind(&self) -> TrackKind {
        self.kind
    }

    open spec fn spec_container(&self) -> Seq<char> {
        self.container@
    }

    open spec fn spec_codec(&self) -> Seq<char> {
        self.codec@
    }

    open spec fn spec_bit_rate(&self) -> Option<u32> {
        self.bit_rate
    }

    open spec fn spec_init_track(&self) -> Seq<char> {
        self.init_track@
    }

    open spec fn spec_data_track(&self) -> Seq<char> {
        self.data_track@
    }

    open spec fn spec_ffmpeg_args(&self, src: Seq<char>) -> Seq<Seq<char>> {
        seq![
            "-i"@,
            src,
            "-c:a"@,
            "aac"@,
            "-var_stream_map"@,
            "a:0,name:a0"@,
            "-b:a"@,
            self.spec_bit_rate_str(),
        ]
    }

    fn kind(&self) -> (k: TrackKind)
        ensures
            k == self.spec_kind(),
    {
        self.kind
    }

    fn container(&self) -> (s: String)
        ensures
            s@ == self.spec_container(),
    {
        self.container.clone()
    }

    fn codec(&self) -> (s: String)
        ensures
            s@ == self.spec_codec(),
    {
        self.codec.clone()
    }

    fn bit_rate(&self) -> (b: Option<u32>)
        ensures
            b == self.spec_bit_rate(),
    {
        self.bit_rate
    }

    fn init_track(&self) -> (s: String)
        ensures
            s@ == self.spec_init_track(),
    {
        self.init_track.clone()
    }

    fn data_track(&self) -> (s: String)
        ensures
            s@ == self.spec_data_track(),
    {
        self.data_track.clone()
    }

    fn ffmpeg_args(&self, src: &str) -> (args: Vec<String>)
        ensures
            args@.map_values(|a: String| a@) == self.spec_ffmpeg_args(src@),
    {
        let mut args: Vec<String> = Vec::new();
        args.push("-i".to_owned());
        args.push(src.to_owned());
        args.push("-c:a".to_owned());
        args.push("aac".to_owned());
        args.push("-var_stream_map".to_owned());
        args.push("a:0,name:a0".to_owned());
        args.push("-b:a".to_owned());
        args.push(self.bit_rate_str());
        proof {
            assert(args@.map_values(|a: String| a@) =~= self.spec_ffmpeg_args(src@));
        }
        args
    }
}

impl Track for VideoTrack {
    open spec fn spec_kind(&self) -> TrackKind {
        self.kind
    }

    open spec fn spec_container(&self) -> Seq<char> {
        self.container@
    }

    open spec fn spec_codec(&self) -> Seq<char> {
        self.codec@
    }

    open spec fn spec_bit_rate(&self) -> Option<u32> {
        self.bit_rate
    }

    open spec fn spec_init_track(&self) -> Seq<char> {
        self.init_track@
    }

    open spec fn spec_data_track(&self) -> Seq<char> {
        self.data_track@
    }

    open spec fn spec_ffmpeg_args(&self, src: Seq<char>) -> Seq<Seq<char>> {
        seq![
            "-i"@,
            src,
            "-video_track_timescale"@,
            "90000"@,
            "-s:v"@,
            self.spec_resolution(),
            "-r"@,
            dec_digits(self.frame_rate as nat),
            "-c:v"@,
            "libx264"@,
            "-g"@,
            "160"@,
            "-var_stream_map"@,
            "v:0,name:v0"@,
            "-b:v"@,
            self.spec_bit_rate_str(),
            "-profile:v"@,
            "high"@,
            "-color_primaries"@,
            "1"@,
            "-color_trc"@,
            "1"@,
            "-colorspace"@,
            "1"@,
            "-preset"@,
            "ultrafast"@,
            "-crf"@,
            "23"@,
            "-sc_threshold"@,
            "0"@,
            "-maxrate"@,
            self.spec_bit_rate_str(),
            "-bufsize"@,
            self.spec_bit_rate_str(),
            "-level"@,
            "4.1"@,
        ]
    }

    fn kind(&self) -> (k: TrackKind)
        ensures
            k == self.spec_kind(),
    {
        self.kind
    }

    fn container(&self) -> (s: String)
        ensures
            s@ == self.spec_container(),
    {
        self.container.clone()
    }

    fn codec(&self) -> (s: String)
        ensures
            s@ == self.spec_codec(),
    {
        self.codec.clone()
    }

    fn bit_rate(&self) -> (b: Option<u32>)
        ensures
            b == self.spec_bit_rate(),
    {
        self.bit_rate
    }

    fn init_track(&self) -> (s: String)
        ensures
            s@ == self.spec_init_track(),
    {
        self.init_track.clone()
    }

    fn data_track(&self) -> (s: String)
        ensures
            s@ == self.spec_data_track(),
    {
        self.data_track.clone()
    }

    fn ffmpeg_args(&self, src: &str) -> (args: Vec<String>)
        ensures
            args@.map_values(|a: String| a@) == self.spec_ffmpeg_args(src@),
    {
        let mut args: Vec<String> = Vec::new();
        args.push("-i".to_owned());
        args.push(src.to_owned());
        args.push("-video_track_timescale".to_owned());
        args.push("90000".to_owned());
        args.push("-s:v".to_owned());
        args.push(self.resolution());
        args.push("-r".to_owned());
        args.push(u64_to_dec(self.frame_rate as u64));
        args.push("-c:v".to_owned());
        args.push("libx264".to_owned());
        args.push("-g".to_owned());
        args.push("160".to_owned());
        args.push("-var_stream_map".to_owned());
        args.push("v:0,name:v0".to_owned());
        args.push("-b:v".to_owned());
        args.push(self.bit_rate_str());
        args.push("-profile:v".to_owned());
        args.push("high".to_owned());
        args.push("-color_primaries".to_owned());
        args.push("1".to_owned());
        args.push("-color_trc".to_owned());
        args.push("1".to_owned());
        args.push("-colorspace".to_owned());
        args.push("1".to_owned());
        args.push("-preset".to_owned());
        args.push("ultrafast".to_owned());
        args.push("-crf".to_owned());
        args.push("23".to_owned());
        args.push("-sc_threshold".to_owned());
        args.push("0".to_owned());
        args.push("-maxrate".to_owned());
        args.push(self.bit_rate_str());
        args.push("-bufsize".to_owned());
        args.push(self.bit_rate_str());
        args.push("-level".to_owned());
        args.push("4.1".to_owned());
        proof {
            assert(args@.map_values(|a: String| a@) =~= self.spec_ffmpeg_args(src@));
        }
        args
    }
}

/// One catalog track: the tagged union the `kind` discriminator selects.
#[derive(Debug, Clone)]
pub enum TrackEntry {
    Audio(AudioTrack),
    Video(VideoTrack),
}

pub enum TrackView {
    Audio(AudioTrackView),
    Video(VideoTrackView),
}

impl View for TrackEntry {
    type V = TrackView;

    open spec fn view(&self) -> TrackView {
        match self {
            TrackEntry::Audio(t) => TrackView::Audio(t@),
            TrackEntry::Video(t) => TrackView::Video(t@),
        }
    }
}

impl TrackEntry {
    /// The channel count, present only on audio tracks.
    pub fn channel_count(&self) -> (r: Option<u32>)
        ensures
            r == (match self@ {
                TrackView::Audio(a) => Some(a.channel_count),
                TrackView::Video(_) => None::<u32>,
            }),
    {
        match self {
            TrackEntry::Audio(t) => Some(t.channel_count),
            TrackEntry::Video(_) => None,
        }
    }
}

impl Track for TrackEntry {
    open spec fn spec_kind(&self) -> TrackKind {
        match self {
            TrackEntry::Audio(t) => t.spec_kind(),
            TrackEntry::Video(t) => t.spec_kind(),
        }
    }

    open spec fn spec_container(&self) -> Seq<char> {
        match self {
            TrackEntry::Audio(t) => t.spec_container(),
            TrackEntry::Video(t) => t.spec_container(),
        }
    }

    open spec fn spec_codec(&self) -> Seq<char> {
        match self {
            TrackEntry::Audio(t) => t.spec_codec(),
            TrackEntry::Video(t) => t.spec_codec(),
        }
    }

    open spec fn spec_bit_rate(&self) -> Option<u32> {
        match self {
            TrackEntry::Audio(t) => t.spec_bit_rate(),
            TrackEntry::Video(t) => t.spec_bit_rate(),
        }
    }

    open spec fn spec_init_track(&self) -> Seq<char> {
        match self {
            TrackEntry::Audio(t) => t.spec_init_track(),
            TrackEntry::Video(t) => t.spec_init_track(),
        }
    }

    open spec fn spec_data_track(&self) -> Seq<char> {
        match self {
            TrackEntry::Audio(t) => t.spec_data_track(),
            TrackEntry::Video(t) => t.spec_data_track(),
        }
    }

    open spec fn spec_ffmpeg_args(&self, src: Seq<char>) -> Seq<Seq<char>> {
        match self {
            TrackEntry::Audio(t) => t.spec_ffmpeg_args(src),
            TrackEntry::Video(t) => t.spec_ffmpeg_args(src),
        }
    }

    fn kind(&self) -> (k: TrackKind)
        ensures
            k == self.spec_kind(),
    {
        match self {
            TrackEntry::Audio(t) => t.kind(),
            TrackEntry::Video(t) => t.kind(),
        }
    }

    fn container(&self) -> (s: String)
        ensures
            s@ == self.spec_container(),
    {
        match self {
            TrackEntry::Audio(t) => t.container(),
            TrackEntry::Video(t) => t.container(),
        }
    }

    fn codec(&self) -> (s: String)
        ensures
            s@ == self.spec_codec(),
    {
        match self {
            TrackEntry::Audio(t) => t.codec(),
            TrackEntry::Video(t) => t.codec(),
        }
    }

    fn bit_rate(&self) -> (b: Option<u32>)
        ensures
            b == self.spec_bit_rate(),
    {
        match self {
            TrackEntry::Audio(t) => t.bit_rate(),
            TrackEntry::Video(t) => t.bit_rate(),
        }
    }

    fn init_track(&self) -> (s: String)
        ensures
            s@ == self.spec_init_track(),
    {
        match self {
            TrackEntry::Audio(t) => t.init_track(),
            TrackEntry::Video(t) => t.init_track(),
        }
    }

    fn data_track(&self) -> (s: String)
        ensures
            s@ == self.spec_data_track(),
    {
        match self {
            TrackEntry::Audio(t) => t.data_track(),
            TrackEntry::Video(t) => t.data_track(),
        }
    }

    fn ffmpeg_args(&self, src: &str) -> (args: Vec<String>)
        ensures
            args@.map_values(|a: String| a@) == self.spec_ffmpeg_args(src@),
    {
        match self {
            TrackEntry::Audio(t) => t.ffmpeg_args(src),
            TrackEntry::Video(t) => t.ffmpeg_args(src),
        }
    }
}

/// Why a catalog document was rejected.
#[derive(Clone, Copy, Debug, PartialEq, Eq, Structural)]
pub enum ParseError {
    /// The bytes are not a JSON document.
    Syntax,
    /// The document is JSON but not a catalog: the track list or a
    /// required track field is absent, mistyped, or the `kind`
    /// discriminator is missing or unrecognized.
    Schema,
}

/// The entry of an object's field, when the model is an object holding it.
pub open spec fn obj_field(m: JsonModel, key: Seq<char>) -> Option<JsonModel> {
    match m {
        JsonModel::Obj(fields) => if fields.dom().contains(key) {
            Some(fields[key])
        } else {
            None
        },
        _ => None,
    }
}

/// A field that must be a JSON string.
pub open spec fn str_field(m: JsonModel, key: Seq<char>) -> Option<Seq<char>> {
    match obj_field(m, key) {
        Some(JsonModel::Text(s)) => Some(s),
        _ => None,
    }
}

/// A field that must be an integer representable as a `u32`.
pub open spec fn u32_field(m: JsonModel, key: Seq<char>) -> Option<u32> {
    match obj_field(m, key) {
        Some(JsonModel::Int(n)) => if 0 <= n <= u32::MAX {
            Some(n as u32)
        } else {
            None
        },
        _ => None,
    }
}

/// An optional `u32` field: absent or null stands for no value; anything
/// but an in-range integer is a parse error (`None` of the outer option).
pub open spec fn opt_u32_field(m: JsonModel, key: Seq<char>) -> Option<Option<u32>> {
    match obj_field(m, key) {
        None => Some(None),
        Some(JsonModel::Null) => Some(None),
        Some(JsonModel::Int(n)) => if 0 <= n <= u32::MAX {
            Some(Some(n as u32))
        } else {
            None
        },
        Some(_) => None,
    }
}

/// The track kind a track object's `kind` discriminator selects, when the
/// discriminator is present, a string, and recognized.
pub open spec fn kind_field(m: JsonModel) -> Option<TrackKind> {
    match str_field(m, "kind"@) {
        Some(s) => if s == "audio"@ {
            Some(TrackKind::Audio)
        } else if s == "video"@ {
            Some(TrackKind::Video)
        } else {
            None
        },
        None => None,
    }
}

/// The audio track a track object describes, when every required audio
/// field is present and well-typed.
pub open spec fn audio_track_of(m: JsonModel) -> Option<AudioTrackView> {
    if str_field(m, "container"@) is Some && str_field(m, "codec"@) is Some && u32_field(
        m,
        "channel_count"@,
    ) is Some && u32_field(m, "sample_rate"@) is Some && u32_field(m, "sample_size"@) is Some
        && opt_u32_field(m, "bit_rate"@) is Some && str_field(m, "init_track"@) is Some
        && str_field(m, "data_track"@) is Some {
        Some(
            AudioTrackView {
                kind: TrackKind::Audio,
                container: str_field(m, "container"@)->0,
                codec: str_field(m, "codec"@)->0,
                channel_count: u32_field(m, "channel_count"@)->0,
                sample_rate: u32_field(m, "sample_rate"@)->0,
                sample_size: u32_field(m, "sample_size"@)->0,
                bit_rate: opt_u32_field(m, "bit_rate"@)->0,
                init_track: str_field(m, "init_track"@)->0,
                data_track: str_field(m, "data_track"@)->0,
            },
        )
    } else {
        None
    }
}

/// The video track a track object describes, when every required video
/// field is present and well-typed.
pub open spec fn video_track_of(m: JsonModel) -> Option<VideoTrackView> {
    if str_field(m, "container"@) is Some && str_field(m, "codec"@) is Some && u32_field(
        m,
        "width"@,
    ) is Some && u32_field(m, "height"@) is Some && u32_field(m, "frame_rate"@) is Some
        && opt_u32_field(m, "bit_rate"@) is Some && str_field(m, "init_track"@) is Some
        && str_field(m, "data_track"@) is Some {
        Some(
            VideoTrackView {
                kind: TrackKind::Video,
                container: str_field(m, "container"@)->0,
                codec: str_field(m, "codec"@)->0,
                width: u32_field(m, "width"@)->0,
                height: u32_field(m, "height"@)->0,
                frame_rate: u32_field(m, "frame_rate"@)->0,
                bit_rate: opt_u32_field(m, "bit_rate"@)->0,
                init_track: str_field(m, "init_track"@)->0,
                data_track: str_field(m, "data_track"@)->0,
            },
        )
    } else {
        None
    }
}

/// The track a track object describes: the discriminator picks the
/// variant, and the variant's required fields must all be present.
pub open spec fn track_of(m: JsonModel) -> Option<TrackView> {
    match kind_field(m) {
        Some(TrackKind::Audio) => match audio_track_of(m) {
            Some(a) => Some(TrackView::Audio(a)),
            None => None,
        },
        Some(TrackKind::Video) => match video_track_of(m) {
            Some(v) => Some(TrackView::Video(v)),
            None => None,
        },
        None => None,
    }
}

/// The track list a catalog document describes: its `tracks` array, each
/// element parsed as a track, all of them well-formed.
pub open spec fn catalog_of(m: JsonModel) -> Option<Seq<TrackView>> {
    match obj_field(m, "tracks"@) {
        Some(JsonModel::Arr(elems)) => if forall|i: int|
            0 <= i < elems.len() ==> track_of(#[trigger] elems[i]) is Some {
            Some(Seq::new(elems.len(), |i: int| track_of(elems[i])->0))
        } else {
            None
        },
        _ => None,
    }
}

fn get_str_field(v: &serde_json::Value, key: &str) -> (r: Option<String>)
    ensures
        r is Some <==> str_field(val_model(*v), key@) is Some,
        r matches Some(s) ==> Some(s@) == str_field(val_model(*v), key@),
{
    match json_get(v, key) {
        None => None,
        Some(f) => match json_as_str(f) {
            None => None,
            Some(s) => Some(s.to_owned()),
        },
    }
}

fn get_u32_field(v: &serde_json::Value, key: &str) -> (r: Option<u32>)
    ensures
        r == u32_field(val_model(*v), key@),
{
    match json_get(v, key) {
        None => None,
        Some(f) => match json_as_u64(f) {
            None => None,
            Some(x) => if x <= 0xffff_ffffu64 {
                Some(x as u32)
            } else {
                None
            },
        },
    }
}

fn get_opt_u32_field(v: &serde_json::Value, key: &str) -> (r: Option<Option<u32>>)
    ensures
        r == opt_u32_field(val_model(*v), key@),
{
    match json_get(v, key) {
        None => Some(None),
        Some(f) => if json_is_null(f) {
            Some(None)
        } else {
            match json_as_u64(f) {
                None => None,
                Some(x) => if x <= 0xffff_ffffu64 {
                    Some(Some(x as u32))
                } else {
                    None
                },
            }
        },
    }
}

fn parse_audio(v: &serde_json::Value) -> (r: Result<AudioTrack, ParseError>)
    ensures
        r is Ok <==> audio_track_of(val_model(*v)) is Some,
        r matches Ok(t) ==> Some(t@) == audio_track_of(val_model(*v)),
        r matches Err(e) ==> e == ParseError::Schema,
{
    let container = match get_str_field(v, "container") {
        Some(s) => s,
        None => return Err(ParseError::Schema),
    };
    let codec = match get_str_field(v, "codec") {
        Some(s) => s,
        None => return Err(ParseError::Schema),
    };
    let channel_count = match get_u32_field(v, "channel_count") {
        Some(n) => n,
        None => return Err(ParseError::Schema),
    };
    let sample_rate = match get_u32_field(v, "sample_rate") {
        Some(n) => n,
        None => return Err(ParseError::Schema),
    };
    let sample_size = match get_u32_field(v, "sample_size") {
        Some(n) => n,
        None => return Err(ParseError::Schema),
    };
    let bit_rate = match get_opt_u32_field(v, "bit_rate") {
        Some(b) => b,
        None => return Err(ParseError::Schema),
    };
    let init_track = match get_str_field(v, "init_track") {
        Some(s) => s,
        None => return Err(ParseError::Schema),
    };
    let data_track = match get_str_field(v, "data_track") {
        Some(s) => s,
        None => return Err(ParseError::Schema),
    };
    Ok(
        AudioTrack {
            kind: TrackKind::Audio,
            container,
            codec,
            channel_count,
            sample_rate,
            sample_size,
            bit_rate,
            init_track,
            data_track,
        },
    )
}

fn parse_video(v: &serde_json::Value) -> (r: Result<VideoTrack, ParseError>)
    ensures
        r is Ok <==> video_track_of(val_model(*v)) is Some,
        r matches Ok(t) ==> Some(t@) == video_track_of(val_model(*v)),
        r matches Err(e) ==> e == ParseError::Schema,
{
    let container = match get_str_field(v, "container") {
        Some(s) => s,
        None => return Err(ParseError::Schema),
    };
    let codec = match get_str_field(v, "codec") {
        Some(s) => s,
        None => return Err(ParseError::Schema),
    };
    let width = match get_u32_field(v, "width") {
        Some(n) => n,
        None => return Err(ParseError::Schema),
    };
    let height = match get_u32_field(v, "height") {
        Some(n) => n,
        None => return Err(ParseError::Schema),
    };
    let frame_rate = match get_u32_field(v, "frame_rate") {
        Some(n) => n,
        None => return Err(ParseError::Schema),
    };
    let bit_rate = match get_opt_u32_field(v, "bit_rate") {
        Some(b) => b,
        None => return Err(ParseError::Schema),
    };
    let init_track = match get_str_field(v, "init_track") {
        Some(s) => s,
        None => return Err(ParseError::Schema),
    };
    let data_track = match get_str_field(v, "data_track") {
        Some(s) => s,
        None => return Err(ParseError::Schema),
    };
    Ok(
        VideoTrack {
            kind: TrackKind::Video,
            container,
            codec,
            width,
            height,
            frame_rate,
            bit_rate,
            init_track,
            data_track,
        },
    )
}

fn parse_track(v: &serde_json::Value) -> (r: Result<TrackEntry, ParseError>)
    ensures
        r is Ok <==> track_of(val_model(*v)) is Some,
        r matches Ok(t) ==> Some(t@) == track_of(val_model(*v)),
        r matches Err(e) ==> e == ParseError::Schema,
{
    let kind_v = match json_get(v, "kind") {
        Some(k) => k,
        None => return Err(ParseError::Schema),
    };
    let kind_s = match json_as_str(kind_v) {
        Some(s) => s,
        None => return Err(ParseError::Schema),
    };
    if str_eq(kind_s, "audio") {
        match parse_audio(v) {
            Ok(t) => Ok(TrackEntry::Audio(t)),
            Err(e) => Err(e),
        }
    } else if str_eq(kind_s, "video") {
        match parse_video(v) {
            Ok(t) => Ok(TrackEntry::Video(t)),
            Err(e) => Err(e),
        }
    } else {
        Err(ParseError::Schema)
    }
}

/// A broadcast's catalog: the ordered list of its tracks, keyed by
/// position. Constructed once per broadcast from the first catalog
/// segment, never mutated.
#[derive(Debug)]
pub struct Catalog {
    pub tracks: Vec<TrackEntry>,
}

impl View for Catalog {
    type V = Seq<TrackView>;

    open spec fn view(&self) -> Seq<TrackView> {
        self.tracks@.map_values(|t: TrackEntry| t@)
    }
}

impl Catalog {
    /// Parse catalog bytes: the track list of the document they denote.
    /// Bytes that are not JSON are a syntax error; a JSON document whose
    /// track list or track fields are malformed is a schema error.
    pub fn from_slice(slice: &[u8]) -> (r: Result<Catalog, ParseError>)
        ensures
            match r {
                Ok(c) => json_doc(slice@) matches Some(m) && catalog_of(m) is Some && c@
                    == catalog_of(m)->0,
                Err(ParseError::Syntax) => json_doc(slice@) is None,
                Err(ParseError::Schema) => json_doc(slice@) matches Some(m) && catalog_of(
                    m,
                ) is None,
            },
    {
        let v = match parse_json(slice) {
            Some(v) => v,
            None => return Err(ParseError::Syntax),
        };
        let tracks_v = match json_get(&v, "tracks") {
            Some(t) => t,
            None => return Err(ParseError::Schema),
        };
        let arr = match json_as_array(tracks_v) {
            Some(a) => a,
            None => return Err(ParseError::Schema),
        };
        let ghost elems = val_model(*tracks_v)->Arr_0;
        let n = arr.len();
        let mut tracks: Vec<TrackEntry> = Vec::new();
        let mut i: usize = 0;
        while i < n
            invariant
                0 <= i <= n,
                n == arr@.len(),
                n == elems.len(),
                json_doc(slice@) is Some,
                obj_field(json_doc(slice@)->0, "tracks"@) == Some(JsonModel::Arr(elems)),
                forall|k: int| 0 <= k < n ==> #[trigger] val_model(arr@[k]) == elems[k],
                tracks@.len() == i,
                forall|k: int| 0 <= k < i ==> track_of(#[trigger] elems[k]) is Some,
                forall|k: int| 0 <= k < i ==> Some((#[trigger] tracks@[k])@) == track_of(elems[k]),
            decreases n - i,
        {
            let elem = slice_index_get(arr.as_slice(), i);
            match parse_track(elem) {
                Ok(t) => {
                    tracks.push(t);
                },
                Err(_) => {
                    proof {
                        assert(val_model(arr@[i as int]) == elems[i as int]);
                        assert(track_of(elems[i as int]) is None);
                        assert(catalog_of(json_doc(slice@)->0) is None);
                    }
                    return Err(ParseError::Schema);
                },
            }
            i = i + 1;
        }
        let c = Catalog { tracks };
        proof {
            assert(c@ =~= catalog_of(json_doc(slice@)->0)->0);
        }
        Ok(c)
    }

    /// Parse a catalog from string text; the text's bytes must denote a
    /// catalog document exactly as in [`Catalog::from_slice`].
    pub fn from_str(slice: &str) -> (r: Result<Catalog, ParseError>)
        ensures
            match r {
                Ok(c) => json_doc(slice.spec_bytes()) matches Some(m) && catalog_of(m) is Some
                    && c@ == catalog_of(m)->0,
                Err(ParseError::Syntax) => json_doc(slice.spec_bytes()) is None,
                Err(ParseError::Schema) => json_doc(slice.spec_bytes()) matches Some(m)
                    && catalog_of(m) is None,
            },
    {
        Catalog::from_slice(slice.as_bytes())
    }
}

/// Resolve a broadcast's catalog from the one complete segment delivered
/// on the catalog track: reassemble the segment's fragments in delivery
/// order, then parse the resulting bytes as the catalog document.
pub fn resolve_catalog(fragments: &Vec<Vec<u8>>) -> (r: Result<Catalog, ParseError>)
    requires
        crate::reassembly::total_fragment_len(fragments@.map_values(|f: Vec<u8>| f@))
            <= usize::MAX,
    ensures
        ({
            let bytes = crate::reassembly::concat_fragments(
                fragments@.map_values(|f: Vec<u8>| f@),
            );
            match r {
                Ok(c) => json_doc(bytes) matches Some(m) && catalog_of(m) is Some && c@
                    == catalog_of(m)->0,
                Err(ParseError::Syntax) => json_doc(bytes) is None,
                Err(ParseError::Schema) => json_doc(bytes) matches Some(m) && catalog_of(
                    m,
                ) is None,
            }
        }),
{
    let segment = crate::reassembly::reassemble(fragments, 0);
    Catalog::from_slice(segment.data.as_slice())
}

/// For every JSON document that parses as a catalog, the track list is
/// exactly as long as the document's `tracks` array and each track's kind
/// matches its object's `kind` discriminator; a track object whose
/// discriminator is missing or unrecognized never yields a track, it makes
/// the whole catalog a parse error.
pub proof fn lemma_catalog_shape(m: JsonModel)
    ensures
        catalog_of(m) matches Some(ts) ==> {
            &&& obj_field(m, "tracks"@) matches Some(a) && a is Arr && ts.len()
                == a->Arr_0.len()
            &&& forall|i: int|
                0 <= i < ts.len() ==> (kind_field(#[trigger] obj_field(m, "tracks"@)->0->Arr_0[i])
                    matches Some(k) && track_view_kind(ts[i]) == k)
        },
        obj_field(m, "tracks"@) matches Some(a) && a is Arr && (exists|i: int|
            0 <= i < a->Arr_0.len() && kind_field(#[trigger] a->Arr_0[i]) is None)
            ==> catalog_of(m) is None,
{
    if catalog_of(m) is Some {
        let elems = obj_field(m, "tracks"@)->0->Arr_0;
        let ts = catalog_of(m)->0;
        assert forall|i: int| 0 <= i < ts.len() implies kind_field(
            #[trigger] obj_field(m, "tracks"@)->0->Arr_0[i],
        ) matches Some(k) && track_view_kind(ts[i]) == k by {
            assert(track_of(elems[i]) is Some);
            assert(ts[i] == track_of(elems[i])->0);
        }
    }
}

/// The kind a parsed track view carries.
pub open spec fn track_view_kind(t: TrackView) -> TrackKind {
    match t {
        TrackView::Audio(_) => TrackKind::Audio,
        TrackView::Video(_) => TrackKind::Video,
    }
}

} // verus!
