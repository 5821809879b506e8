//! Time as the server sees it and as the local clock sees it.
//!
//! The server stamps every response with its own time, and the times that
//! it sends for the end of a quest or of a build are times of its own
//! clock. The two clocks are not assumed to agree. The state keeps the
//! offset between them, and every time that is left until some server time
//! is computed through that offset.

use vstd::prelude::*;
use crate::assemble::drift_between;
use crate::state::GameState;

verus! {

/// The seconds that are left, at local time `local_now`, until the server's
/// clock shows `until`, where `drift` is server time minus local time.
pub open spec fn remaining_spec(drift: int, until: int, local_now: int) -> int {
    until - (local_now + drift)
}

/// `v`, or the nearest `i64` where `v` is outside the range of `i64`.
pub open spec fn clamp_i64(v: int) -> i64 {
    if v < i64::MIN {
        i64::MIN
    } else if v > i64::MAX {
        i64::MAX
    } else {
        v as i64
    }
}

/// What is left until a time that the server has set does not depend on how
/// far the clocks are apart. When a response arrives at local time
/// `received_at` and carries the server time `server_now`, the offset kept
/// is such that a time which the server sets `span` seconds after its own
/// now is, `elapsed` local seconds after the receipt, still `span - elapsed`
/// seconds away: neither more nor less by the offset.
pub proof fn lemma_remaining_is_server_relative(
    server_now: i64,
    received_at: i64,
    span: int,
    elapsed: int,
)
    requires
        drift_between(server_now, received_at) is Some,
    ensures
        remaining_spec(
            drift_between(server_now, received_at)->0 as int,
            server_now + span,
            received_at + elapsed,
        ) == span - elapsed,
{
}

/// Brings a number into the range of `i64`.
fn clamp(v: i128) -> (out: i64)
    ensures
        out == clamp_i64(v as int),
{
    if v < i64::MIN as i128 {
        i64::MIN
    } else if v > i64::MAX as i128 {
        i64::MAX
    } else {
        v as i64
    }
}

impl GameState {
    /// The seconds that are left, at local time `local_now`, until the
    /// server's clock shows `until`. The result is negative when that time
    /// has passed, and is cut to the range of `i64`.
    pub fn time_remaining(&self, until: i64, local_now: i64) -> (left: i64)
        ensures
            left == clamp_i64(remaining_spec(self@.drift as int, until as int, local_now as int)),
    {
        let drift = self.drift();
        clamp(until as i128 - (local_now as i128 + drift as i128))
    }

    /// The local time at which the server's clock shows `server_time`, cut
    /// to the range of `i64`.
    pub fn local_time_of(&self, server_time: i64) -> (local: i64)
        ensures
            local == clamp_i64(server_time - self@.drift),
    {
        let drift = self.drift();
        clamp(server_time as i128 - drift as i128)
    }

    /// What the server's clock shows at local time `local_now`, cut to the
    /// range of `i64`.
    pub fn server_time_at(&self, local_now: i64) -> (server: i64)
        ensures
            server == clamp_i64(local_now + self@.drift),
    {
        let drift = self.drift();
        clamp(local_now as i128 + drift as i128)
    }
}

} // verus!
