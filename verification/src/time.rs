//! Instants of UTC, as seconds and nanoseconds since the first of January
//! 1970, and their RFC 3339 text as `chrono` writes and reads it.

use vstd::prelude::*;

verus! {

/// The text that `chrono` writes for the instant, with as many digits of the
/// fraction as it needs and `Z` for the offset; `None` where `chrono` has no
/// such instant.
pub uninterp spec fn utc_text(seconds: i64, nanos: u32) -> Option<Seq<char>>;

/// The instant that `chrono` reads from a text; `None` where it rejects the text.
pub uninterp spec fn utc_instant(text: Seq<char>) -> Option<(i64, u32)>;

/// `chrono` has the instant, which leaves its nanoseconds under two seconds,
/// and reads the text that it writes for it back as the same instant.
pub open spec fn is_instant(seconds: i64, nanos: u32) -> bool {
    &&& nanos < 2_000_000_000
    &&& match utc_text(seconds, nanos) {
        Some(text) => utc_instant(text) == Some((seconds, nanos)),
        None => false,
    }
}

/// `chrono::DateTime::from_timestamp`: whether there is such an instant. The
/// contract adds what the crate documents of one: that its nanoseconds stay
/// under two seconds, and that its text reads back as that instant.
#[verifier::external_body]
fn exists_outside(seconds: i64, nanos: u32) -> (exists: bool)
    ensures
        exists == (utc_text(seconds, nanos) is Some),
        exists ==> is_instant(seconds, nanos),
{
    chrono::DateTime::from_timestamp(seconds, nanos).is_some()
}

/// `chrono::DateTime::to_rfc3339_opts` with `SecondsFormat::AutoSi` and `Z`,
/// which is what the type's `Serialize` writes.
#[verifier::external_body]
fn write_outside(seconds: i64, nanos: u32) -> (text: String)
    requires
        utc_text(seconds, nanos) is Some,
    ensures
        Some(text@) == utc_text(seconds, nanos),
{
    chrono::DateTime::from_timestamp(seconds, nanos).unwrap().to_rfc3339_opts(
        chrono::SecondsFormat::AutoSi,
        true,
    )
}

/// `str::parse` to a `chrono::DateTime<FixedOffset>`, which is what the
/// `Deserialize` of `DateTime<Utc>` reads, then the instant in UTC as
/// `timestamp` and `timestamp_subsec_nanos` give it. The contract adds that
/// the instant is one that `chrono` writes and reads back.
#[verifier::external_body]
fn read_outside(text: &str) -> (instant: Option<(i64, u32)>)
    ensures
        instant == utc_instant(text@),
        instant matches Some((seconds, nanos)) ==> is_instant(seconds, nanos),
{
    text.parse::<chrono::DateTime<chrono::FixedOffset>>().ok().map(
        |moment| (moment.timestamp(), moment.timestamp_subsec_nanos()),
    )
}

/// `chrono::Utc::now`, as seconds and nanoseconds. Whatever the clock says,
/// it is an instant that `chrono` writes and reads back.
#[verifier::external_body]
fn now_outside() -> (instant: (i64, u32))
    ensures
        is_instant(instant.0, instant.1),
{
    let moment = chrono::Utc::now();
    (moment.timestamp(), moment.timestamp_subsec_nanos())
}

/// The mathematical value of a [`Timestamp`].
pub ghost struct Instant {
    pub seconds: i64,
    pub nanos: u32,
}

impl Instant {
    /// See [`is_instant`].
    pub open spec fn wf(self) -> bool {
        is_instant(self.seconds, self.nanos)
    }

    /// The RFC 3339 text of the instant.
    pub open spec fn text(self) -> Seq<char> {
        utc_text(self.seconds, self.nanos).unwrap()
    }
}

/// The instant that a text denotes.
pub open spec fn instant_of_text(text: Seq<char>) -> Option<Instant> {
    match utc_instant(text) {
        Some((seconds, nanos)) => Some(Instant { seconds, nanos }),
        None => None,
    }
}

/// An instant of UTC.
#[derive(Clone, Copy, Debug)]
pub struct Timestamp {
    seconds: i64,
    nanos: u32,
}

impl View for Timestamp {
    type V = Instant;

    closed spec fn view(&self) -> Instant {
        Instant { seconds: self.seconds, nanos: self.nanos }
    }
}

impl DeepView for Timestamp {
    type V = Instant;

    open spec fn deep_view(&self) -> Instant {
        self@
    }
}

impl Timestamp {
    #[verifier::type_invariant]
    spec fn well_formed(&self) -> bool {
        is_instant(self.seconds, self.nanos)
    }

    /// The instant `seconds` and `nanos` after the first of January 1970;
    /// `None` exactly where `chrono` has no such instant.
    pub fn new(seconds: i64, nanos: u32) -> (made: Option<Timestamp>)
        ensures
            match made {
                Some(stamp) => stamp@ == (Instant { seconds, nanos }) && stamp@.wf(),
                None => utc_text(seconds, nanos) is None,
            },
    {
        if exists_outside(seconds, nanos) {
            Some(Timestamp { seconds, nanos })
        } else {
            None
        }
    }

    /// The present instant, as the system's clock gives it.
    pub fn now() -> (stamp: Timestamp)
        ensures
            stamp@.wf(),
    {
        let (seconds, nanos) = now_outside();
        Timestamp { seconds, nanos }
    }

    /// Reads an RFC 3339 text; `None` exactly where `chrono` rejects it.
    pub fn parse(text: &str) -> (read: Option<Timestamp>)
        ensures
            read.deep_view() == instant_of_text(text@),
            read matches Some(stamp) ==> stamp@.wf(),
    {
        match read_outside(text) {
            Some((seconds, nanos)) => Some(Timestamp { seconds, nanos }),
            None => None,
        }
    }

    /// The RFC 3339 text of the instant.
    pub fn to_text(&self) -> (text: String)
        ensures
            text@ == self@.text(),
            self@.wf(),
    {
        proof {
            use_type_invariant(self);
        }
        write_outside(self.seconds, self.nanos)
    }

    /// Whole seconds since the first of January 1970.
    pub fn seconds(&self) -> (seconds: i64)
        ensures
            seconds == self@.seconds,
            self@.wf(),
    {
        proof {
            use_type_invariant(self);
        }
        self.seconds
    }

    /// Nanoseconds since the last whole second.
    pub fn nanos(&self) -> (nanos: u32)
        ensures
            nanos == self@.nanos,
            self@.wf(),
    {
        proof {
            use_type_invariant(self);
        }
        self.nanos
    }
}

} // verus!
