//! The live scheduler's decisions: which channel a broadcast's track
//! list selects, where that channel's output goes, and the containerized
//! subscriber invocation started for an announced event.

use vstd::prelude::*;
use vstd::string::*;
use crate::catalog::{TrackEntry, TrackView};

verus! {

/// Whether a track is a single-channel (silent-interpreted) audio track.
pub open spec fn spec_is_mono_audio(t: TrackView) -> bool {
    t matches TrackView::Audio(a) && a.channel_count == 1
}

/// The channel a track list selects: the silent variant as soon as any
/// track is single-channel audio, the main channel otherwise.
pub open spec fn spec_select_channel(tracks: Seq<TrackView>) -> Seq<char> {
    if exists|i: int| 0 <= i < tracks.len() && spec_is_mono_audio(#[trigger] tracks[i]) {
        "GLAS_TILL_GLAS_TYST"@
    } else {
        "GLAS_TILL_GLAS"@
    }
}

/// Select the channel for a broadcast from its parsed track list.
pub fn select_channel(tracks: &Vec<TrackEntry>) -> (r: String)
    ensures
        r@ == spec_select_channel(tracks@.map_values(|t: TrackEntry| t@)),
{
    let ghost model = tracks@.map_values(|t: TrackEntry| t@);
    let n = tracks.len();
    let mut i: usize = 0;
    while i < n
        invariant
            0 <= i <= n,
            n == tracks@.len(),
            model == tracks@.map_values(|t: TrackEntry| t@),
            forall|k: int| 0 <= k < i ==> !spec_is_mono_audio(#[trigger] model[k]),
        decreases n - i,
    {
        let t = vstd::slice::slice_index_get(tracks.as_slice(), i);
        let mono = match t {
            TrackEntry::Audio(a) => a.channel_count == 1,
            TrackEntry::Video(_) => false,
        };
        if mono {
            proof {
                assert(spec_is_mono_audio(model[i as int]));
            }
            return "GLAS_TILL_GLAS_TYST".to_owned();
        }
        i = i + 1;
    }
    "GLAS_TILL_GLAS".to_owned()
}

/// The output tree and the working directory of a channel: the silent
/// variant keeps its own pair so that two broadcasts never share a
/// filename namespace.
pub open spec fn spec_channel_target(channel: Seq<char>) -> Seq<char> {
    if channel == "GLAS_TILL_GLAS"@ {
        "/output/glas_till_glas/noencoder"@
    } else {
        "/output/glas_till_glas_tyst/noencoder"@
    }
}

pub open spec fn spec_channel_work_dir(channel: Seq<char>) -> Seq<char> {
    if channel == "GLAS_TILL_GLAS"@ {
        "dump"@
    } else {
        "dump/tyst"@
    }
}

pub open spec fn spec_channel_container_name(channel: Seq<char>) -> Seq<char> {
    if channel == "GLAS_TILL_GLAS"@ {
        "moq-sub-g2g"@
    } else {
        "moq-sub-g2g-tyst"@
    }
}

/// The output tree a channel's timestamped files are placed under.
pub fn channel_target(channel: &str) -> (r: &'static str)
    ensures
        r@ == spec_channel_target(channel@),
{
    if crate::text::str_eq(channel, "GLAS_TILL_GLAS") {
        "/output/glas_till_glas/noencoder"
    } else {
        "/output/glas_till_glas_tyst/noencoder"
    }
}

/// The working directory a channel's encoders write numbered segments
/// into.
pub fn channel_work_dir(channel: &str) -> (r: &'static str)
    ensures
        r@ == spec_channel_work_dir(channel@),
{
    if crate::text::str_eq(channel, "GLAS_TILL_GLAS") {
        "dump"
    } else {
        "dump/tyst"
    }
}

/// The container name the channel's subscriber runs under.
pub fn channel_container_name(channel: &str) -> (r: &'static str)
    ensures
        r@ == spec_channel_container_name(channel@),
{
    if crate::text::str_eq(channel, "GLAS_TILL_GLAS") {
        "moq-sub-g2g"
    } else {
        "moq-sub-g2g-tyst"
    }
}

/// The containerized subscriber invocation for one announced event: an
/// ephemeral named container with a private working directory, running
/// the subscriber against the event's location.
pub open spec fn spec_container_args(name: Seq<char>, target: Seq<char>, url: Seq<char>) -> Seq<
    Seq<char>,
> {
    seq![
        "run"@,
        "--rm"@,
        "--name"@,
        name,
        "--tmpfs"@,
        "/dump"@,
        "--user"@,
        "10002:10002"@,
        "moq-rs"@,
        "moq-sub"@,
        "--output"@,
        target,
        "--tls-disable-verify"@,
        url,
    ]
}

/// Build the containerized subscriber argument list.
pub fn container_args(name: &str, target: &str, url: &str) -> (r: Vec<String>)
    ensures
        r@.map_values(|a: String| a@) == spec_container_args(name@, target@, url@),
{
    let mut r: Vec<String> = Vec::new();
    r.push("run".to_owned());
    r.push("--rm".to_owned());
    r.push("--name".to_owned());
    r.push(name.to_owned());
    r.push("--tmpfs".to_owned());
    r.push("/dump".to_owned());
    r.push("--user".to_owned());
    r.push("10002:10002".to_owned());
    r.push("moq-rs".to_owned());
    r.push("moq-sub".to_owned());
    r.push("--output".to_owned());
    r.push(target.to_owned());
    r.push("--tls-disable-verify".to_owned());
    r.push(url.to_owned());
    proof {
        assert(r@.map_values(|a: String| a@) =~= spec_container_args(name@, target@, url@));
    }
    r
}

/// What the scheduler needs to run: where the event announcements come
/// from and how the transport's certificates are checked.
#[derive(Debug, Clone)]
pub struct SchedulerConfig {
    /// Location of the event announcement service.
    pub redis_url: String,
    /// Paths of the root certificates to trust; empty means the
    /// platform's own roots.
    pub tls_root: Vec<String>,
    /// Disable TLS verification altogether.
    pub tls_disable_verify: bool,
}

/// The live scheduler: listens for announced events and starts one
/// containerized subscriber per event, on the channel the event's track
/// list selects.
#[derive(Debug, Clone)]
pub struct LiveScheduler {
    pub config: SchedulerConfig,
}

impl LiveScheduler {
    pub fn new(config: SchedulerConfig) -> (s: LiveScheduler)
        ensures
            s.config == config,
    {
        LiveScheduler { config }
    }
}

} // verus!
