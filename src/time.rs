//! Durations and ages as short human-readable texts.

use vstd::prelude::*;
use crate::text::{decimal_of, push_decimal, push_signed_decimal, push_str, signed_decimal_of};
use crate::video::Video;

verus! {

/// How much of a video was watched, e.g. `1h2m3s Watched`; zero or less
/// shows only the (truncated) seconds.
pub open spec fn watched_text(t: int) -> Seq<char> {
    if t <= 0 {
        signed_decimal_of(-((-t) % 60)) + "s Watched"@
    } else {
        let h = t / 3600;
        let m = (t % 3600) / 60;
        let s = t % 60;
        (if h > 0 { decimal_of(h as nat) + "h"@ } else { Seq::empty() })
            + (if m > 0 { decimal_of(m as nat) + "m"@ } else { Seq::empty() })
            + decimal_of(s as nat) + "s"@ + " Watched"@
    }
}

pub open spec fn short_time_text(time_second: Option<i32>) -> Seq<char> {
    match time_second {
        Some(t) => watched_text(t as int),
        None => "Not Watched"@,
    }
}

/// How much of a video was watched, or that it was not.
pub fn time_formatted_short(time_second: Option<i32>) -> (r: String)
    ensures
        r@ == short_time_text(time_second),
{
    proof {
        reveal_strlit("");
        reveal_strlit("h");
        reveal_strlit("m");
        reveal_strlit("s");
        reveal_strlit(" Watched");
        reveal_strlit("s Watched");
        reveal_strlit("Not Watched");
    }
    let mut formatted = String::new();
    match time_second {
        None => {
            push_str(&mut formatted, "Not Watched");
        },
        Some(t) => {
            if t <= 0 {
                let seconds: i64 = -(((-(t as i64)) % 60));
                push_signed_decimal(&mut formatted, seconds);
                push_str(&mut formatted, "s Watched");
            } else {
                let t = t as u64;
                let hours = t / 3600;
                let minutes = (t % 3600) / 60;
                let seconds = t % 60;
                if hours > 0 {
                    push_decimal(&mut formatted, hours);
                    push_str(&mut formatted, "h");
                }
                let ghost after_hours = formatted@;
                if minutes > 0 {
                    push_decimal(&mut formatted, minutes);
                    push_str(&mut formatted, "m");
                }
                let ghost after_minutes = formatted@;
                push_decimal(&mut formatted, seconds);
                push_str(&mut formatted, "s");
                push_str(&mut formatted, " Watched");
                assert(after_hours =~= (if hours > 0 { decimal_of(hours as nat) + "h"@ } else { Seq::empty() }));
                assert(after_minutes =~= after_hours + (if minutes > 0 { decimal_of(minutes as nat) + "m"@ } else { Seq::empty() }));
            }
        },
    }
    assert(formatted@ =~= short_time_text(time_second));
    formatted
}

/// `n` followed by a unit, singular for one.
pub open spec fn count_text(n: nat, singular: Seq<char>, plural: Seq<char>) -> Seq<char> {
    if n > 1 { decimal_of(n) + plural } else { "1"@ + singular }
}

/// The age of something uploaded `days` whole days ago.
pub open spec fn age_text(days: int) -> Seq<char> {
    if days >= 365 {
        count_text((days / 365) as nat, " Year Ago"@, " Years Ago"@)
    } else if days >= 28 {
        count_text((days / 28) as nat, " Month Ago"@, " Months Ago"@)
    } else if days >= 7 {
        count_text((days / 7) as nat, " Week Ago"@, " Weeks Ago"@)
    } else if days > 0 {
        count_text(days as nat, " Day Ago"@, " Days Ago"@)
    } else {
        "Today"@
    }
}

fn push_count(s: &mut String, n: u64, singular: &str, plural: &str)
    requires
        n >= 1,
    ensures
        final(s)@ == old(s)@ + count_text(n as nat, singular@, plural@),
{
    proof { reveal_strlit("1"); }
    if n > 1 {
        push_decimal(s, n);
        push_str(s, plural);
    } else {
        push_str(s, "1");
        push_str(s, singular);
    }
    assert(final(s)@ =~= old(s)@ + count_text(n as nat, singular@, plural@));
}

/// The age of something uploaded `days` whole days ago, e.g. `3 Weeks Ago`.
pub fn age_formatted(days: i64) -> (r: String)
    ensures
        r@ == age_text(days as int),
{
    proof { reveal_strlit(""); reveal_strlit("Today"); }
    let mut r = String::new();
    if days >= 365 {
        push_count(&mut r, (days / 365) as u64, " Year Ago", " Years Ago");
    } else if days >= 28 {
        push_count(&mut r, (days / 28) as u64, " Month Ago", " Months Ago");
    } else if days >= 7 {
        push_count(&mut r, (days / 7) as u64, " Week Ago", " Weeks Ago");
    } else if days > 0 {
        push_count(&mut r, days as u64, " Day Ago", " Days Ago");
    } else {
        push_str(&mut r, "Today");
    }
    proof {
        reveal_strlit(" Year Ago");
        reveal_strlit(" Years Ago");
        reveal_strlit(" Month Ago");
        reveal_strlit(" Months Ago");
        reveal_strlit(" Week Ago");
        reveal_strlit(" Weeks Ago");
        reveal_strlit(" Day Ago");
        reveal_strlit(" Days Ago");
    }
    assert(r@ =~= age_text(days as int));
    r
}

/// Whole days between an upload at `upload` and `now` (both in seconds
/// since the epoch), counting the upload as one day earlier: feed dates are
/// estimated and mostly rounded down. Truncated towards zero.
pub open spec fn days_since(upload: int, now: int) -> int {
    let span = now - (upload - 86400);
    if span >= 0 { span / 86400 } else { -((-span) / 86400) }
}

/// Whole days from an upload at `upload` to `now`; see [`days_since`].
pub fn days_between(upload: i64, now: i64) -> (r: i64)
    ensures
        r == days_since(upload as int, now as int),
{
    let span: i128 = (now as i128) - ((upload as i128) - 86400);
    let days: i128 = if span >= 0 { span / 86400 } else { -((-span) / 86400) };
    proof {
        if span >= 0 {
            assert(span / 86400 <= span) by (nonlinear_arith) requires span >= 0;
            assert(span / 86400 >= 0) by (nonlinear_arith) requires span >= 0;
        } else {
            assert((-span) / 86400 <= -span) by (nonlinear_arith) requires -span >= 0;
            assert((-span) / 86400 >= 0) by (nonlinear_arith) requires -span >= 0;
        }
    }
    days as i64
}

/// Relies on chrono's `Local::now` and `DateTime::timestamp`: the current
/// time in seconds since the epoch. Nothing is known of its value.
#[verifier::external_body]
pub(crate) fn now_timestamp() -> (r: i64)
{
    chrono::Local::now().timestamp()
}

/// The age of something uploaded at `upload`, relative to the time now.
pub fn time_since_formatted(upload: i64) -> (r: String)
    ensures
        exists|now: i64| r@ == age_text(days_since(upload as int, now as int)),
{
    let now = now_timestamp();
    let days = days_between(upload, now);
    age_formatted(days)
}

impl Video {
    /// How long ago the video was uploaded.
    pub fn date_relative_str(&self) -> (r: String)
        ensures
            exists|now: i64| r@ == age_text(days_since(self.upload as int, now as int)),
    {
        time_since_formatted(self.upload)
    }
}

} // verus!
