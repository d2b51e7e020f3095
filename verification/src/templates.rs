//! The values behind the rendered pages, and the display helpers the pages
//! use: how long a broadcast has been running, and thumbnail URLs with their
//! size placeholders filled in.

use vstd::prelude::*;
use vstd::string::StringExecFns;

use crate::text::{dec_rep, replace, replace_seq, u64_to_string};
use crate::twitch::Stream;

verus! {

/// The landing page.
pub struct Index;

/// The page describing the JSON search route.
pub struct ApiInfo;

/// The search results page: the words that were searched for, the streams
/// that matched, and whether the upstream fetch failed.
pub struct Results {
    pub query_words: Vec<String>,
    pub streams: Vec<Stream>,
    pub error: bool,
}

impl Results {
    /// A successful result set.
    pub fn new(query_words: Vec<String>, streams: Vec<Stream>) -> (r: Results)
        ensures
            r.query_words == query_words,
            r.streams == streams,
            !r.error,
    {
        Results { query_words, streams, error: false }
    }

    /// The page shown when the upstream fetch failed: no words, no streams.
    pub fn error() -> (r: Results)
        ensures
            r.query_words@.len() == 0,
            r.streams@.len() == 0,
            r.error,
    {
        Results { query_words: Vec::new(), streams: Vec::new(), error: true }
    }
}

/// Seconds elapsed from `t` to `now`, zero when `now` lies before `t`.
pub open spec fn spec_elapsed(t: int, now: int) -> nat {
    if now >= t {
        (now - t) as nat
    } else {
        0
    }
}

/// The whole-days component of a running time.
pub open spec fn days_part(d: nat) -> Seq<char> {
    if d == 0 {
        Seq::empty()
    } else if d == 1 {
        "1 day"@
    } else {
        dec_rep(d) + " days"@
    }
}

/// The hours component, with its separating space.
pub open spec fn hours_part(h: nat) -> Seq<char> {
    if h == 0 {
        Seq::empty()
    } else if h == 1 {
        " 1 hour"@
    } else {
        " "@ + dec_rep(h) + " hours"@
    }
}

/// The minutes component, with its separating space.
pub open spec fn minutes_part(m: nat) -> Seq<char> {
    if m == 0 {
        Seq::empty()
    } else if m == 1 {
        " 1 minute"@
    } else {
        " "@ + dec_rep(m) + " minutes"@
    }
}

/// A running time of `secs` seconds rendered as days, hours and minutes,
/// each component omitted when zero.
pub open spec fn duration_text(secs: nat) -> Seq<char> {
    days_part(secs / 86400) + hours_part((secs / 3600) % 24) + minutes_part((secs / 60) % 60)
}

/// What [`since_now`] renders: nothing without a start time, else the
/// elapsed time as text.
pub open spec fn spec_since_now(started_at: Option<i64>, now: int) -> Seq<char> {
    match started_at {
        None => Seq::empty(),
        Some(t) => duration_text(spec_elapsed(t as int, now)),
    }
}

fn days_str(d: u64) -> (r: String)
    ensures
        r@ == days_part(d as nat),
{
    if d == 0 {
        String::new()
    } else if d == 1 {
        String::from_str("1 day")
    } else {
        let mut s = u64_to_string(d);
        s.append(" days");
        s
    }
}

fn hours_str(h: u64) -> (r: String)
    ensures
        r@ == hours_part(h as nat),
{
    if h == 0 {
        String::new()
    } else if h == 1 {
        String::from_str(" 1 hour")
    } else {
        let mut s = String::from_str(" ");
        s.append(u64_to_string(h).as_str());
        s.append(" hours");
        s
    }
}

fn minutes_str(m: u64) -> (r: String)
    ensures
        r@ == minutes_part(m as nat),
{
    if m == 0 {
        String::new()
    } else if m == 1 {
        String::from_str(" 1 minute")
    } else {
        let mut s = String::from_str(" ");
        s.append(u64_to_string(m).as_str());
        s.append(" minutes");
        s
    }
}

/// Renders how long a broadcast started at `started_at` has been running as
/// of `now` (both Unix seconds): an empty string when no start time is
/// known or it lies in the future.
pub fn since_now(started_at: &Option<i64>, now: i64) -> (r: String)
    ensures
        r@ == spec_since_now(*started_at, now as int),
{
    match started_at {
        None => String::new(),
        Some(t) => {
            let wide: i128 = now as i128 - *t as i128;
            let secs: u64 = if wide <= 0 {
                0
            } else {
                wide as u64
            };
            proof {
                assert(secs as nat == spec_elapsed(*t as int, now as int));
            }
            let d = secs / 86400;
            let h = (secs / 3600) % 24;
            let m = (secs / 60) % 60;
            let mut out = days_str(d);
            out.append(hours_str(h).as_str());
            out.append(minutes_str(m).as_str());
            out
        },
    }
}

/// Fills the size placeholders of a thumbnail URL template with concrete
/// pixel sizes.
pub fn sized(value: &str, width: u32, height: u32) -> (r: String)
    ensures
        r@ == replace_seq(
            replace_seq(value@, "{width}"@, dec_rep(width as nat)),
            "{height}"@,
            dec_rep(height as nat),
        ),
{
    proof {
        reveal_strlit("{width}");
        reveal_strlit("{height}");
    }
    let w = u64_to_string(width as u64);
    let first = replace(value, "{width}", w.as_str());
    let h = u64_to_string(height as u64);
    replace(first.as_str(), "{height}", h.as_str())
}

} // verus!
