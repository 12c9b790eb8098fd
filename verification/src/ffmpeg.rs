//! Exact argument lists for the external encoder and remux processes.
//! Building them is pure; spawning and waiting belong to the caller.

use vstd::prelude::*;
use vstd::string::*;
use crate::catalog::{spec_kind_short_str, Track, TrackKind};

verus! {

/// The numbered output pattern one track's encoder writes
/// (`%d-a0.mp4` / `%d-v0.mp4`).
pub open spec fn spec_output_pattern(k: TrackKind) -> Seq<char> {
    "%d-"@ + spec_kind_short_str(k) + "0.mp4"@
}

/// The numbered output pattern for segment files of this track kind.
pub fn output_pattern(kind: TrackKind) -> (r: String)
    ensures
        r@ == spec_output_pattern(kind),
{
    let mut r = String::new();
    r.append("%d-");
    r.append(kind.as_short_str());
    r.append("0.mp4");
    proof {
        assert(r@ =~= spec_output_pattern(kind));
    }
    r
}

/// The full encoder invocation for one track: quiet preamble, the
/// track's own parameters reading from standard input, fixed-length
/// segmenting, and the numbered output pattern.
pub open spec fn spec_encoder_args<T: Track>(track: T) -> Seq<Seq<char>> {
    seq!["-y"@, "-hide_banner"@, "-loglevel"@, "error"@] + track.spec_ffmpeg_args("pipe:0"@)
        + seq![
        "-muxdelay"@,
        "0"@,
        "-f"@,
        "segment"@,
        "-segment_time"@,
        "3.2"@,
        "-break_non_keyframes"@,
        "1"@,
    ] + seq![spec_output_pattern(track.spec_kind())]
}

/// Build the complete encoder argument list for one track.
pub fn args<T: Track>(track: &T) -> (r: Vec<String>)
    ensures
        r@.map_values(|a: String| a@) == spec_encoder_args(*track),
{
    let mut r: Vec<String> = Vec::new();
    r.push("-y".to_owned());
    r.push("-hide_banner".to_owned());
    r.push("-loglevel".to_owned());
    r.push("error".to_owned());
    let mut mid = track.ffmpeg_args("pipe:0");
    r.append(&mut mid);
    r.push("-muxdelay".to_owned());
    r.push("0".to_owned());
    r.push("-f".to_owned());
    r.push("segment".to_owned());
    r.push("-segment_time".to_owned());
    r.push("3.2".to_owned());
    r.push("-break_non_keyframes".to_owned());
    r.push("1".to_owned());
    r.push(output_pattern(track.kind()));
    proof {
        assert(r@.map_values(|a: String| a@) =~= spec_encoder_args(*track));
    }
    r
}

/// Arguments of the remux invocation that corrects a finalized video
/// segment's container time-scale while copying its streams from `src`
/// to `dst`.
pub open spec fn spec_remux_args(src: Seq<char>, dst: Seq<char>) -> Seq<Seq<char>> {
    seq![
        "-y"@,
        "-hide_banner"@,
        "-i"@,
        src,
        "-c"@,
        "copy"@,
        "-loglevel"@,
        "error"@,
        "-reset_timestamps"@,
        "1"@,
        "-video_track_timescale"@,
        "90000"@,
        dst,
    ]
}

/// Build the remux argument list moving `src` to `dst` with a corrected
/// time-scale.
pub fn remux_args(src: &str, dst: &str) -> (r: Vec<String>)
    ensures
        r@.map_values(|a: String| a@) == spec_remux_args(src@, dst@),
{
    let mut r: Vec<String> = Vec::new();
    r.push("-y".to_owned());
    r.push("-hide_banner".to_owned());
    r.push("-i".to_owned());
    r.push(src.to_owned());
    r.push("-c".to_owned());
    r.push("copy".to_owned());
    r.push("-loglevel".to_owned());
    r.push("error".to_owned());
    r.push("-reset_timestamps".to_owned());
    r.push("1".to_owned());
    r.push("-video_track_timescale".to_owned());
    r.push("90000".to_owned());
    r.push(dst.to_owned());
    proof {
        assert(r@.map_values(|a: String| a@) =~= spec_remux_args(src@, dst@));
    }
    r
}

/// Arguments of the container-rewrite invocation that re-stamps `src`
/// (with `ext` appended) to a 90000 time-scale at `dst`.
pub open spec fn spec_rescale_args(src: Seq<char>, dst: Seq<char>, ext: Seq<char>) -> Seq<
    Seq<char>,
> {
    seq!["-add"@, src + ext + ":timescale=90000"@, dst]
}

/// Build the container-rewrite argument list for `src` + `ext` to `dst`.
pub fn rescale_args(src: &str, dst: &str, ext: &str) -> (r: Vec<String>)
    ensures
        r@.map_values(|a: String| a@) == spec_rescale_args(src@, dst@, ext@),
{
    let mut r: Vec<String> = Vec::new();
    r.push("-add".to_owned());
    let mut spec_arg = src.to_owned();
    spec_arg.append(ext);
    spec_arg.append(":timescale=90000");
    r.push(spec_arg);
    r.push(dst.to_owned());
    proof {
        assert(r@.map_values(|a: String| a@) =~= spec_rescale_args(src@, dst@, ext@));
    }
    r
}

/// Arguments of the first process of the audio pipeline: decode the
/// piped-in track to signed 16-bit little-endian samples on standard
/// output.
pub open spec fn spec_audio_decode_args() -> Seq<Seq<char>> {
    seq![
        "-y"@,
        "-hide_banner"@,
        "-i"@,
        "pipe:0"@,
        "-f"@,
        "s16le"@,
        "-c:a"@,
        "pcm_s16le"@,
        "-ac"@,
        "2"@,
        "-ar"@,
        "48000"@,
        "-"@,
    ]
}

/// Build the audio-decode argument list.
pub fn audio_decode_args() -> (r: Vec<String>)
    ensures
        r@.map_values(|a: String| a@) == spec_audio_decode_args(),
{
    let mut r: Vec<String> = Vec::new();
    r.push("-y".to_owned());
    r.push("-hide_banner".to_owned());
    r.push("-i".to_owned());
    r.push("pipe:0".to_owned());
    r.push("-f".to_owned());
    r.push("s16le".to_owned());
    r.push("-c:a".to_owned());
    r.push("pcm_s16le".to_owned());
    r.push("-ac".to_owned());
    r.push("2".to_owned());
    r.push("-ar".to_owned());
    r.push("48000".to_owned());
    r.push("-".to_owned());
    proof {
        assert(r@.map_values(|a: String| a@) =~= spec_audio_decode_args());
    }
    r
}

/// Arguments of the second process of the audio pipeline: read raw
/// samples from standard input, encode to AAC, and write fixed-length
/// numbered audio segments under the working directory.
pub open spec fn spec_audio_encode_args() -> Seq<Seq<char>> {
    seq![
        "-y"@,
        "-hide_banner"@,
        "-f"@,
        "s16le"@,
        "-c:a"@,
        "pcm_s16le"@,
        "-ac"@,
        "2"@,
        "-ar"@,
        "48000"@,
        "-i"@,
        "pipe:0"@,
        "-c:a"@,
        "aac"@,
        "-ac"@,
        "2"@,
        "-ar"@,
        "48000"@,
        "-f"@,
        "segment"@,
        "-reset_timestamps"@,
        "1"@,
        "-segment_time"@,
        "3.2"@,
        "dump/%d-a0.mp4"@,
    ]
}

/// Build the audio-encode argument list.
pub fn audio_encode_args() -> (r: Vec<String>)
    ensures
        r@.map_values(|a: String| a@) == spec_audio_encode_args(),
{
    let mut r: Vec<String> = Vec::new();
    r.push("-y".to_owned());
    r.push("-hide_banner".to_owned());
    r.push("-f".to_owned());
    r.push("s16le".to_owned());
    r.push("-c:a".to_owned());
    r.push("pcm_s16le".to_owned());
    r.push("-ac".to_owned());
    r.push("2".to_owned());
    r.push("-ar".to_owned());
    r.push("48000".to_owned());
    r.push("-i".to_owned());
    r.push("pipe:0".to_owned());
    r.push("-c:a".to_owned());
    r.push("aac".to_owned());
    r.push("-ac".to_owned());
    r.push("2".to_owned());
    r.push("-ar".to_owned());
    r.push("48000".to_owned());
    r.push("-f".to_owned());
    r.push("segment".to_owned());
    r.push("-reset_timestamps".to_owned());
    r.push("1".to_owned());
    r.push("-segment_time".to_owned());
    r.push("3.2".to_owned());
    r.push("dump/%d-a0.mp4".to_owned());
    proof {
        assert(r@.map_values(|a: String| a@) =~= spec_audio_encode_args());
    }
    r
}

} // verus!
