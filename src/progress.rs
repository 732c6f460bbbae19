//! Live playback progress: the requests sent to the player over its IPC
//! socket, and the progress built from its answers.

use vstd::prelude::*;
use crate::text::{decimal_of, push_char, push_decimal, push_str};
use crate::video::WatchProgress;

verus! {

/// The property of the player holding the playback position.
pub open spec fn position_property() -> Seq<char> {
    "playback-time"@
}

/// The property of the player holding the duration.
pub open spec fn duration_property() -> Seq<char> {
    "duration"@
}

/// The one-line JSON request for a property of the player.
pub open spec fn request_text(property: Seq<char>) -> Seq<char> {
    "{\"command\":[\"get_property\",\""@ + property + "\"]}"@
}

/// The one-line JSON request for `property`, without the final newline.
pub fn property_request(property: &str) -> (r: String)
    ensures
        r@ == request_text(property@),
{
    let mut r = String::new();
    push_str(&mut r, "{\"command\":[\"get_property\",\"");
    push_str(&mut r, property);
    push_str(&mut r, "\"]}");
    proof {
        reveal_strlit("");
        reveal_strlit("{\"command\":[\"get_property\",\"");
        reveal_strlit("\"]}");
    }
    assert(r@ =~= request_text(property@));
    r
}

/// The request for the playback position.
pub fn position_request() -> (r: String)
    ensures
        r@ == request_text(position_property()),
{
    property_request("playback-time")
}

/// The request for the duration.
pub fn duration_request() -> (r: String)
    ensures
        r@ == request_text(duration_property()),
{
    property_request("duration")
}

/// The progress from the two answers of the player, each already read as
/// whole seconds; an answer that is missing or could not be read gives no
/// progress.
pub fn progress_from_seconds(current: Option<u32>, duration: Option<u32>) -> (r: Option<WatchProgress>)
    ensures
        r == (match (current, duration) {
            (Some(c), Some(d)) => Some(WatchProgress { current: c, duration: d }),
            _ => None,
        }),
{
    match (current, duration) {
        (Some(c), Some(d)) => Some(WatchProgress::new(c, d)),
        _ => None,
    }
}

/// A number of seconds as `M:SS`, or `H:MM:SS` from one hour on.
pub open spec fn clock_text(seconds: nat) -> Seq<char> {
    let h = seconds / 3600;
    let m = (seconds % 3600) / 60;
    let s = seconds % 60;
    if h > 0 {
        decimal_of(h) + seq![':'] + two_digits(m) + seq![':'] + two_digits(s)
    } else {
        decimal_of(m) + seq![':'] + two_digits(s)
    }
}

/// `n < 100` with at least two digits.
pub open spec fn two_digits(n: nat) -> Seq<char> {
    if n < 10 { seq!['0'] + decimal_of(n) } else { decimal_of(n) }
}

fn push_two_digits(s: &mut String, n: u64)
    requires
        n < 100,
    ensures
        final(s)@ == old(s)@ + two_digits(n as nat),
{
    if n < 10 {
        push_char(s, '0');
        push_decimal(s, n);
        assert(final(s)@ =~= old(s)@ + two_digits(n as nat));
    } else {
        push_decimal(s, n);
    }
}

/// Appends `seconds` as a clock reading.
fn push_clock(s: &mut String, seconds: u32)
    ensures
        final(s)@ == old(s)@ + clock_text(seconds as nat),
{
    let t = seconds as u64;
    let h = t / 3600;
    let m = (t % 3600) / 60;
    let sec = t % 60;
    let ghost start = s@;
    if h > 0 {
        push_decimal(s, h);
        push_char(s, ':');
        push_two_digits(s, m);
        push_char(s, ':');
        push_two_digits(s, sec);
    } else {
        push_decimal(s, m);
        push_char(s, ':');
        push_two_digits(s, sec);
    }
    assert(s@ =~= start + clock_text(seconds as nat));
}

impl WatchProgress {
    /// The progress as `current / duration`, each as a clock reading.
    pub fn formatted(&self) -> (r: String)
        ensures
            r@ == clock_text(self.current as nat) + " / "@ + clock_text(self.duration as nat),
    {
        let mut r = String::new();
        push_clock(&mut r, self.current);
        push_str(&mut r, " / ");
        push_clock(&mut r, self.duration);
        proof {
            reveal_strlit("");
            reveal_strlit(" / ");
        }
        assert(r@ =~= clock_text(self.current as nat) + " / "@ + clock_text(self.duration as nat));
        r
    }
}

} // verus!
