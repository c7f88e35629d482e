//! Moments as the database stores them, and the text chrono writes for them.

use vstd::prelude::*;

verus! {

/// The text chrono writes for the moment `secs` seconds and `nanos`
/// nanoseconds after 1970-01-01 00:00:00 UTC, or `None` where chrono has no
/// such moment.
pub uninterp spec fn chrono_moment_text(secs: i64, nanos: u32) -> Option<Seq<char>>;

/// Makes the moment with `chrono::DateTime::from_timestamp` and writes its
/// naive UTC date and time with the `Display` of `chrono::NaiveDateTime`
/// (`YYYY-MM-DD hh:mm:ss` and a fraction when there is one).
/// Claimed of chrono: the result is `chrono_moment_text(secs, nanos)`, and a
/// text that exists is at least 19 characters long (ten or more of date, a
/// space, eight or more of time). Left unsaid: which moments chrono has.
#[verifier::external_body]
fn moment_text(secs: i64, nanos: u32) -> (r: Option<String>)
    ensures
        match r {
            Some(t) => chrono_moment_text(secs, nanos) == Some(t@) && t@.len() >= 19,
            None => chrono_moment_text(secs, nanos) is None,
        },
{
    match chrono::DateTime::from_timestamp(secs, nanos) {
        Some(d) => Some(d.naive_utc().to_string()),
        None => None,
    }
}

/// A moment of the database (a `timestamptz` column), held as seconds and
/// nanoseconds since the epoch, together with the text chrono writes for it.
pub struct PostedAt {
    secs: i64,
    nanos: u32,
    text: String,
}

impl PostedAt {
    /// The seconds since the epoch.
    pub closed spec fn seconds(self) -> i64 {
        self.secs
    }

    /// The nanoseconds past the second.
    pub closed spec fn nanoseconds(self) -> u32 {
        self.nanos
    }

    /// The text chrono writes for the moment.
    pub closed spec fn shown(self) -> Seq<char> {
        self.text@
    }

    /// The date part of that text: its first ten characters.
    pub open spec fn day_shown(self) -> Seq<char> {
        self.shown().take(10)
    }

    #[verifier::type_invariant]
    spec fn chrono_knows(self) -> bool {
        &&& chrono_moment_text(self.secs, self.nanos) == Some(self.text@)
        &&& self.text@.len() >= 19
    }

    /// The moment `secs` seconds and `nanos` nanoseconds after the epoch, or
    /// `None` where chrono has no such moment.
    pub fn from_timestamp(secs: i64, nanos: u32) -> (r: Option<PostedAt>)
        ensures
            r is Some <==> chrono_moment_text(secs, nanos) is Some,
            r matches Some(p) ==> p.seconds() == secs && p.nanoseconds() == nanos && Some(
                p.shown(),
            ) == chrono_moment_text(secs, nanos),
    {
        match moment_text(secs, nanos) {
            Some(text) => Some(PostedAt { secs, nanos, text }),
            None => None,
        }
    }

    /// The seconds since the epoch.
    pub fn secs(&self) -> (s: i64)
        ensures
            s == self.seconds(),
    {
        self.secs
    }

    /// The nanoseconds past the second.
    pub fn nanos(&self) -> (n: u32)
        ensures
            n == self.nanoseconds(),
    {
        self.nanos
    }

    /// The full text chrono writes for the moment.
    pub fn text(&self) -> (t: String)
        ensures
            t@ == self.shown(),
            chrono_moment_text(self.seconds(), self.nanoseconds()) == Some(t@),
    {
        proof {
            use_type_invariant(self);
        }
        self.text.clone()
    }

    /// The first ten characters of that text: the date, `YYYY-MM-DD`.
    pub fn day_text(&self) -> (t: String)
        ensures
            t@ == self.day_shown(),
            t@.len() == 10,
    {
        proof {
            use_type_invariant(self);
        }
        self.text.as_str().substring_char(0, 10).to_owned()
    }
}

} // verus!
