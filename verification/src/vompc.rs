//! The episode-recording control client's bookkeeping: episode numbering
//! and the request paths and bodies it derives. Sending the requests over
//! the network belongs to the caller; failures there are non-fatal to
//! media flow.

use vstd::prelude::*;
use vstd::string::*;
use crate::digits::{dec_digits, dec_digits_pad3, u64_pad3, u64_to_dec};

verus! {

/// The fixed programme every episode is created under.
pub const DEFAULT_PROGRAM_ID: u32 = 9123400;

/// Relies on `rand::thread_rng` and `Rng::gen_range`: a draw from the
/// inclusive range. Nothing more is promised of a random value.
#[verifier::external_body]
fn gen_range_u32(lo: u32, hi: u32) -> (r: u32)
    requires
        lo <= hi,
    ensures
        lo <= r <= hi,
{
    rand::Rng::gen_range(&mut rand::thread_rng(), lo..=hi)
}

/// The body of an episode-creation request, as plain values.
#[derive(Debug, Clone)]
pub struct CreateRequest {
    pub channel: String,
    pub title_svt_id: String,
    pub program_id: u32,
    pub episode: u32,
    pub start_delay_seconds: u32,
    pub duration: usize,
    pub encrypted: bool,
    pub sign_interpreted: bool,
    pub audio_described: bool,
    pub start: bool,
}

/// The request path of one episode action: the fixed programme id, the
/// episode number padded to three digits with an `A` suffix, then the
/// action word (`9123400/042A/start`).
pub open spec fn spec_episode_path(ep: u32, action: Seq<char>) -> Seq<char> {
    "9123400/"@ + dec_digits_pad3(ep as nat) + "A/"@ + action
}

/// Build one episode action path.
pub fn episode_path(ep: u32, action: &str) -> (r: String)
    ensures
        r@ == spec_episode_path(ep, action@),
{
    let mut r = String::new();
    r.append("9123400/");
    r.append(u64_pad3(ep as u64).as_str());
    r.append("A/");
    r.append(action);
    proof {
        reveal_strlit("9123400/");
        reveal_strlit("A/");
        assert(r@ =~= spec_episode_path(ep, action@));
    }
    r
}

/// The resource name of the episode last created: the fixed programme id
/// and the unpadded episode number.
pub open spec fn spec_resource_name(ep: u32) -> Seq<char> {
    "9123400/"@ + dec_digits(ep as nat)
}

/// Episode-recording control state: the service base location and the
/// episode numbering of this broadcast session.
#[derive(Debug, Clone)]
pub struct Client {
    url: String,
    episodes_offset: u32,
    episodes_created: u32,
}

impl Client {
    pub closed spec fn spec_url(&self) -> Seq<char> {
        self.url@
    }

    pub closed spec fn spec_episodes_offset(&self) -> u32 {
        self.episodes_offset
    }

    pub closed spec fn spec_episodes_created(&self) -> u32 {
        self.episodes_created
    }

    /// The episode number the next action addresses.
    pub open spec fn spec_episode_number(&self) -> int {
        self.spec_episodes_offset() + self.spec_episodes_created()
    }

    /// A fresh client with a random episode offset, so that concurrent
    /// sessions do not collide on episode numbers.
    pub fn new(url: String) -> (c: Client)
        ensures
            c.spec_url() == url@,
            1 <= c.spec_episodes_offset() <= 900,
            c.spec_episodes_created() == 0,
    {
        let episodes_offset = gen_range_u32(1, 900);
        Client { url, episodes_offset, episodes_created: 0 }
    }

    /// A fresh client with a chosen episode offset.
    pub fn new_with_offset(url: String, episodes_offset: u32) -> (c: Client)
        ensures
            c.spec_url() == url@,
            c.spec_episodes_offset() == episodes_offset,
            c.spec_episodes_created() == 0,
    {
        Client { url, episodes_offset, episodes_created: 0 }
    }

    pub fn url(&self) -> (r: &str)
        ensures
            r@ == self.spec_url(),
    {
        self.url.as_str()
    }

    pub fn episodes_offset(&self) -> (n: u32)
        ensures
            n == self.spec_episodes_offset(),
    {
        self.episodes_offset
    }

    pub fn episodes_created(&self) -> (n: u32)
        ensures
            n == self.spec_episodes_created(),
    {
        self.episodes_created
    }

    /// The path that starts the current episode.
    pub fn start_path(&self) -> (r: String)
        requires
            self.spec_episode_number() <= u32::MAX,
        ensures
            r@ == spec_episode_path(self.spec_episode_number() as u32, "start"@),
    {
        episode_path(self.episodes_offset + self.episodes_created, "start")
    }

    /// The path that stops the current episode.
    pub fn stop_path(&self) -> (r: String)
        requires
            self.spec_episode_number() <= u32::MAX,
        ensures
            r@ == spec_episode_path(self.spec_episode_number() as u32, "stop"@),
    {
        episode_path(self.episodes_offset + self.episodes_created, "stop")
    }

    /// The path that deletes the current episode.
    pub fn delete_path(&self) -> (r: String)
        requires
            self.spec_episode_number() <= u32::MAX,
        ensures
            r@ == spec_episode_path(self.spec_episode_number() as u32, "delete"@),
    {
        episode_path(self.episodes_offset + self.episodes_created, "delete")
    }

    /// The resource name of the episode addressed now.
    pub fn resource_name(&self) -> (r: String)
        requires
            self.spec_episode_number() <= u32::MAX,
        ensures
            r@ == spec_resource_name(self.spec_episode_number() as u32),
    {
        let ep = self.episodes_offset + self.episodes_created;
        let mut r = String::new();
        r.append("9123400/");
        r.append(u64_to_dec(ep as u64).as_str());
        proof {
            reveal_strlit("9123400/");
            assert(r@ =~= spec_resource_name(ep));
        }
        r
    }

    /// Count one created episode and build its creation request: the
    /// fixed programme, the next episode number, no start delay, and all
    /// flags off.
    pub fn create_req(&mut self, channel: String, title_svt_id: &str, duration: usize) -> (r:
        CreateRequest)
        requires
            old(self).spec_episode_number() + 1 <= u32::MAX,
        ensures
            final(self).spec_url() == old(self).spec_url(),
            final(self).spec_episodes_offset() == old(self).spec_episodes_offset(),
            final(self).spec_episodes_created() == old(self).spec_episodes_created() + 1,
            r.channel@ == channel@,
            r.title_svt_id@ == title_svt_id@,
            r.program_id == DEFAULT_PROGRAM_ID,
            r.episode == final(self).spec_episode_number(),
            r.start_delay_seconds == 0,
            r.duration == duration,
            !r.encrypted,
            !r.sign_interpreted,
            !r.audio_described,
            !r.start,
    {
        self.episodes_created = self.episodes_created + 1;
        let episode = self.episodes_offset + self.episodes_created;
        CreateRequest {
            channel,
            title_svt_id: title_svt_id.to_owned(),
            program_id: 9123400,
            episode,
            start_delay_seconds: 0,
            duration,
            encrypted: false,
            sign_interpreted: false,
            audio_described: false,
            start: false,
        }
    }
}

} // verus!
