//! Relay session decisions: the broadcast name inside a request path,
//! role-based dispatch, the spawned subscriber's invocation, and the
//! episode id derived for a subscribed broadcast.

use vstd::prelude::*;
use vstd::string::*;
use crate::text::{prefix_chars, spec_prefix_chars, spec_trim_slashes, trim_slashes};

verus! {

/// The role the peer announced during setup.
#[derive(Clone, Copy, Debug, PartialEq, Eq, Structural)]
pub enum SessionRole {
    Publisher,
    Subscriber,
    Both,
}

/// How a session request is dispatched by role. A peer claiming both
/// roles is rejected with the fixed code 300.
#[derive(Clone, Copy, Debug, PartialEq, Eq, Structural)]
pub enum RoleDecision {
    ServePublisher,
    ServeSubscriber,
    Reject { code: u64 },
}

pub open spec fn spec_dispatch_role(r: SessionRole) -> RoleDecision {
    match r {
        SessionRole::Publisher => RoleDecision::ServePublisher,
        SessionRole::Subscriber => RoleDecision::ServeSubscriber,
        SessionRole::Both => RoleDecision::Reject { code: 300 },
    }
}

/// Decide how to serve a session from its announced role.
pub fn dispatch_role(r: SessionRole) -> (d: RoleDecision)
    ensures
        d == spec_dispatch_role(r),
{
    match r {
        SessionRole::Publisher => RoleDecision::ServePublisher,
        SessionRole::Subscriber => RoleDecision::ServeSubscriber,
        SessionRole::Both => RoleDecision::Reject { code: 300 },
    }
}

/// The broadcast name of a request: its path with leading and trailing
/// slashes stripped.
pub fn broadcast_path(url_path: &str) -> (r: String)
    ensures
        r@ == spec_trim_slashes(url_path@),
{
    trim_slashes(url_path).to_owned()
}

/// The episode id a subscribed broadcast is recorded under: the first
/// ten characters of its path.
pub fn episode_id(path: &str) -> (r: String)
    ensures
        r@ == spec_prefix_chars(path@, 10),
{
    prefix_chars(path, 10).to_owned()
}

/// The location a spawned subscriber connects back to for a published
/// broadcast.
pub open spec fn spec_subscriber_url(path: Seq<char>) -> Seq<char> {
    "https://localhost/"@ + path
}

/// Build the local subscriber location for a broadcast path.
pub fn subscriber_url(path: &str) -> (r: String)
    ensures
        r@ == spec_subscriber_url(path@),
{
    let mut r = String::new();
    r.append("https://localhost/");
    r.append(path);
    proof {
        assert(r@ =~= spec_subscriber_url(path@));
    }
    r
}

/// The invocation of the subscriber process spawned for a published
/// broadcast: where to write output, no certificate verification against
/// the local relay, and the broadcast's location.
pub open spec fn spec_subscriber_args(output: Seq<char>, url: Seq<char>) -> Seq<Seq<char>> {
    seq!["--output"@, output, "--tls-disable-verify"@, url]
}

/// Build the subscriber process argument list.
pub fn subscriber_args(output: &str, url: &str) -> (r: Vec<String>)
    ensures
        r@.map_values(|a: String| a@) == spec_subscriber_args(output@, url@),
{
    let mut r: Vec<String> = Vec::new();
    r.push("--output".to_owned());
    r.push(output.to_owned());
    r.push("--tls-disable-verify".to_owned());
    r.push(url.to_owned());
    proof {
        assert(r@.map_values(|a: String| a@) =~= spec_subscriber_args(output@, url@));
    }
    r
}

/// One accepted relay connection's session state: where a subscriber
/// spawned for published broadcasts writes its output, if one is spawned
/// at all.
#[derive(Debug, Clone)]
pub struct Session {
    pub subscriber_output: Option<String>,
}

impl Session {
    pub fn new(subscriber_output: Option<String>) -> (s: Session)
        ensures
            s.subscriber_output == subscriber_output,
    {
        Session { subscriber_output }
    }
}

/// Marker for running with server certificate verification disabled; the
/// caller installs it into its TLS configuration.
pub struct NoCertificateVerification {}

} // verus!
