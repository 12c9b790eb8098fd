//! The shared wall-clock timeline: a broadcast's anchored start time and
//! the timestamp every sequence-numbered segment maps to.

use vstd::prelude::*;
use vstd::string::*;
use crate::digits::{dec_digits, dec_digits_pad3, u64_pad3, u64_to_dec};

verus! {

/// Duration of one encoded media segment, in milliseconds. Matches the
/// segment length the encoder is configured with (`-segment_time 3.2`).
pub const SEGMENT_DURATION_MS: u64 = 3200;

/// Milliseconds between the NTP epoch (1900) and the Unix epoch (1970).
/// The broadcast's reference clock counts from the NTP epoch.
pub const NTP_EPOCH_OFFSET_MS: u64 = 2208988800000;

/// Largest start time an anchor may hold so that every segment timestamp,
/// up to the largest sequence number, still fits in a `u64`.
pub const MAX_ANCHOR_MS: u64 = u64::MAX - 3200u64 * 0xffff_ffffu64;

/// Epoch timestamp in milliseconds of segment `segment_no` on the timeline
/// that starts at epoch millisecond `start`.
pub open spec fn spec_segment_ms(start: u64, segment_no: u32) -> int {
    start + segment_no * SEGMENT_DURATION_MS
}

/// Millisecond timestamp of segment `segment_no` on the timeline that
/// starts at epoch millisecond `start`.
pub fn segment_ms(start: u64, segment_no: u32) -> (r: u64)
    requires
        spec_segment_ms(start, segment_no) <= u64::MAX,
    ensures
        r == spec_segment_ms(start, segment_no),
{
    start + segment_no as u64 * SEGMENT_DURATION_MS
}

/// The timestamp of a segment never moves once the start time is fixed,
/// and it never decreases as the sequence number grows.
pub proof fn lemma_timestamp_monotonic(start: u64, s1: u32, s2: u32)
    requires
        s1 <= s2,
    ensures
        spec_segment_ms(start, s1) <= spec_segment_ms(start, s2),
{
    assert(s1 * SEGMENT_DURATION_MS <= s2 * SEGMENT_DURATION_MS) by (nonlinear_arith)
        requires
            s1 <= s2,
    ;
}

/// Round an epoch millisecond value to the nearest point of the 100 ms
/// grid, to dampen wall-clock jitter when an anchor is set.
pub open spec fn spec_round_to_grid(ms: u64) -> int {
    ((ms + 50) / 100) * 100
}

pub proof fn lemma_round_to_grid_bounds(ms: u64)
    ensures
        spec_round_to_grid(ms) % 100 == 0,
        ms <= spec_round_to_grid(ms) + 50,
        spec_round_to_grid(ms) <= ms + 50,
{
    let q = (ms + 50) / 100;
    assert(q * 100 % 100 == 0) by (nonlinear_arith);
    assert(q * 100 <= ms + 50 < q * 100 + 100) by (nonlinear_arith)
        requires
            q == (ms + 50) / 100,
    ;
}

pub fn round_to_grid(ms: u64) -> (r: u64)
    requires
        ms + 50 <= u64::MAX,
    ensures
        r == spec_round_to_grid(ms),
{
    proof {
        lemma_round_to_grid_bounds(ms);
    }
    ((ms + 50) / 100) * 100
}

/// The character form of a segment timestamp: seconds, a dot, then the
/// millisecond remainder padded to three digits (`1700000000.000`).
pub open spec fn spec_timestamp_chars(start: u64, segment_no: u32) -> Seq<char> {
    let ms = spec_segment_ms(start, segment_no);
    dec_digits((ms / 1000) as nat) + seq!['.'] + dec_digits_pad3((ms % 1000) as nat)
}

/// Timestamp name prefix of segment `segment_no` on the timeline starting
/// at `start`: seconds and milliseconds separated by a dot.
pub fn segment_timestamp(start: u64, segment_no: u32) -> (r: String)
    requires
        spec_segment_ms(start, segment_no) <= u64::MAX,
    ensures
        r@ == spec_timestamp_chars(start, segment_no),
{
    let ms = segment_ms(start, segment_no);
    let mut r = u64_to_dec(ms / 1000);
    r.append(".");
    r.append(u64_pad3(ms % 1000).as_str());
    proof {
        reveal_strlit(".");
        assert(r@ =~= spec_timestamp_chars(start, segment_no));
    }
    r
}

/// Relies on `chrono::Utc::now` and `DateTime::timestamp_millis`: the
/// current wall-clock time as milliseconds since the Unix epoch. `now`
/// refuses a system clock reading before the Unix epoch (it panics
/// there), so a normal return is never negative; beyond that the result
/// depends on the clock, and nothing more is promised of it.
#[verifier::external_body]
fn unix_now_ms() -> (r: i64)
    ensures
        r >= 0,
{
    chrono::Utc::now().timestamp_millis()
}

/// A Unix-epoch millisecond time expressed on the broadcast's reference
/// clock, which counts from the NTP epoch: shifted by the epoch offset.
/// Times before the Unix epoch have no reference-clock form.
pub fn ntp_of(t: i64) -> (r: Option<u64>)
    ensures
        r is None <==> t < 0,
        r matches Some(u) ==> u == t + NTP_EPOCH_OFFSET_MS,
{
    if t < 0 {
        None
    } else {
        Some(t as u64 + NTP_EPOCH_OFFSET_MS)
    }
}

/// The current wall-clock time on the broadcast's reference clock: Unix
/// milliseconds shifted to the NTP epoch.
pub fn ntp_now_ms() -> (r: u64)
    ensures
        r >= NTP_EPOCH_OFFSET_MS,
{
    let t = unix_now_ms();
    match ntp_of(t) {
        Some(u) => u,
        None => vstd::pervasive::unreached(),
    }
}

} // verus!
