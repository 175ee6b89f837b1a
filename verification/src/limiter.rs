//! Sliding time-window admission control, owned by a single connection.

use vstd::prelude::*;

verus! {

/// A recorded admission at time `t` still counts against the cap at time
/// `now_ms` when its age is strictly less than the window.
pub open spec fn in_window(t: u64, now_ms: u64, window_ms: u64) -> bool {
    (if now_ms >= t {
        now_ms - t
    } else {
        0
    }) < window_ms
}

/// The admission timestamps that survive pruning at time `now_ms`: exactly
/// those still inside the trailing window, in their original order.
pub open spec fn retained(s: Seq<u64>, now_ms: u64, window_ms: u64) -> Seq<u64> {
    s.filter(|t: u64| in_window(t, now_ms, window_ms))
}

/// Per-connection sliding-window rate limiter: at most `cap()` admissions
/// within any trailing window of `window_ms()` milliseconds. Never shared
/// across connections.
pub struct RateLimiter {
    admissions: Vec<u64>,
    max_events: usize,
    window_ms: u64,
}

impl RateLimiter {
    /// The recorded admission timestamps, oldest first.
    pub closed spec fn admissions_seq(&self) -> Seq<u64> {
        self.admissions@
    }

    /// The maximum number of admissions allowed inside one window.
    pub closed spec fn cap(&self) -> usize {
        self.max_events
    }

    /// The window length in milliseconds.
    pub closed spec fn window_ms(&self) -> u64 {
        self.window_ms
    }

    pub fn new(max_events: usize, window_secs: u64) -> (r: Self)
        requires
            window_secs <= u64::MAX / 1000,
        ensures
            r.admissions_seq() == Seq::<u64>::empty(),
            r.cap() == max_events,
            r.window_ms() == window_secs * 1000,
    {
        RateLimiter { admissions: Vec::new(), max_events, window_ms: window_secs * 1000 }
    }

    /// One admission attempt at time `now_ms`. Timestamps that have aged out
    /// of the window are dropped; the attempt is admitted exactly when fewer
    /// than `cap()` admissions remain, and only an admitted attempt is
    /// recorded. A hard cap: excess attempts are rejected, never delayed.
    pub fn check_and_record(&mut self, now_ms: u64) -> (admitted: bool)
        ensures
            final(self).cap() == old(self).cap(),
            final(self).window_ms() == old(self).window_ms(),
            admitted <==> retained(old(self).admissions_seq(), now_ms, old(self).window_ms()).len()
                < old(self).cap(),
            admitted ==> final(self).admissions_seq() == retained(
                old(self).admissions_seq(),
                now_ms,
                old(self).window_ms(),
            ).push(now_ms),
            !admitted ==> final(self).admissions_seq() == retained(
                old(self).admissions_seq(),
                now_ms,
                old(self).window_ms(),
            ),
    {
        let ghost all = self.admissions@;
        let ghost w = self.window_ms;
        let mut kept: Vec<u64> = Vec::new();
        let mut i: usize = 0;
        proof {
            reveal(Seq::filter);
            assert(all.take(0) =~= Seq::<u64>::empty());
            assert(retained(all.take(0), now_ms, w) =~= Seq::<u64>::empty());
        }
        while i < self.admissions.len()
            invariant
                i <= self.admissions@.len(),
                self.admissions@ == all,
                self.window_ms == w,
                kept@ == retained(all.take(i as int), now_ms, w),
            decreases self.admissions@.len() - i,
        {
            let t = self.admissions[i];
            proof {
                reveal(Seq::filter);
                assert(all.take(i + 1).drop_last() =~= all.take(i as int));
                assert(all.take(i + 1).last() == all[i as int]);
            }
            let age: u64 = if now_ms >= t {
                now_ms - t
            } else {
                0
            };
            if age < self.window_ms {
                kept.push(t);
            }
            i = i + 1;
        }
        proof {
            assert(all.take(all.len() as int) =~= all);
        }
        if kept.len() >= self.max_events {
            self.admissions = kept;
            false
        } else {
            kept.push(now_ms);
            self.admissions = kept;
            true
        }
    }
}

} // verus!
