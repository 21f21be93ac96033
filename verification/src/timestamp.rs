//! Instants in UTC, held as plain numbers and printed through chrono.

use chrono::DateTime;
use chrono::Utc;
use vstd::prelude::*;

verus! {

/// The text that chrono prints for the UTC instant `secs` seconds and `nanos`
/// nanoseconds after the Unix epoch (`DateTime<Utc>` as `Display` shows it),
/// or `None` where `DateTime::<Utc>::from_timestamp` refuses the two numbers.
pub uninterp spec fn utc_instant_text(secs: i64, nanos: u32) -> Option<Seq<char>>;

/// Reads the system clock through `chrono::Utc::now` and returns the instant as
/// `DateTime::timestamp` and `DateTime::timestamp_subsec_nanos` give it.
/// The contract claims only that chrono can rebuild and print that instant:
/// chrono documents that `from_timestamp` round-trips with these two accessors.
/// Which instant comes back depends on the clock and is not stated.
#[verifier::external_body]
fn utc_now() -> (r: (i64, u32))
    ensures
        utc_instant_text(r.0, r.1) is Some,
{
    let now = Utc::now();
    (now.timestamp(), now.timestamp_subsec_nanos())
}

/// Builds the instant with `chrono::DateTime::<Utc>::from_timestamp` and prints it
/// with chrono's `Display`. The contract claims that the result is exactly the
/// named text `utc_instant_text(secs, nanos)`, `None` where chrono refuses the
/// numbers; what that text looks like is left to chrono and not stated here.
#[verifier::external_body]
fn print_utc_instant(secs: i64, nanos: u32) -> (r: Option<String>)
    ensures
        match r {
            Some(text) => utc_instant_text(secs, nanos) == Some(text@),
            None => utc_instant_text(secs, nanos) is None,
        },
{
    match DateTime::<Utc>::from_timestamp(secs, nanos) {
        Some(instant) => Some(instant.to_string()),
        None => None,
    }
}

/// An instant in UTC: whole seconds since the Unix epoch and the nanoseconds
/// since the last whole second, and whether it was read from the system clock.
/// Every value is one that chrono can represent.
#[derive(Clone, Copy, Debug)]
pub struct Timestamp {
    secs: i64,
    nanos: u32,
    from_clock: bool,
}

impl Timestamp {
    #[verifier::type_invariant]
    spec fn representable(self) -> bool {
        utc_instant_text(self.secs, self.nanos) is Some
    }

    /// Seconds since the Unix epoch.
    pub closed spec fn spec_secs(self) -> i64 {
        self.secs
    }

    /// Nanoseconds since the last whole second.
    pub closed spec fn spec_nanos(self) -> u32 {
        self.nanos
    }

    /// Whether the instant was read from the system clock by `Timestamp::now`,
    /// rather than given as numbers.
    pub closed spec fn read_from_clock(self) -> bool {
        self.from_clock
    }

    /// The text chrono prints for this instant.
    pub open spec fn text(self) -> Seq<char> {
        utc_instant_text(self.spec_secs(), self.spec_nanos())->0
    }

    /// The instant `secs` seconds and `nanos` nanoseconds after the Unix epoch,
    /// or `None` where chrono cannot represent it.
    pub fn from_unix(secs: i64, nanos: u32) -> (r: Option<Timestamp>)
        ensures
            r is Some <==> utc_instant_text(secs, nanos) is Some,
            r matches Some(t) ==> t.spec_secs() == secs && t.spec_nanos() == nanos
                && !t.read_from_clock(),
    {
        match print_utc_instant(secs, nanos) {
            Some(_) => Some(Timestamp { secs, nanos, from_clock: false }),
            None => None,
        }
    }

    /// The current instant, read from the system clock; which instant that is
    /// depends on the clock, but chrono can always print it.
    pub fn now() -> (r: Timestamp)
        ensures
            utc_instant_text(r.spec_secs(), r.spec_nanos()) is Some,
            r.read_from_clock(),
    {
        let (secs, nanos) = utc_now();
        Timestamp { secs, nanos, from_clock: true }
    }

    pub fn secs(&self) -> (r: i64)
        ensures
            r == self.spec_secs(),
    {
        self.secs
    }

    pub fn nanos(&self) -> (r: u32)
        ensures
            r == self.spec_nanos(),
    {
        self.nanos
    }

    /// The instant as chrono prints it, such as `2015-05-15 00:00:00 UTC`.
    pub fn to_text(&self) -> (r: String)
        ensures
            r@ == self.text(),
            utc_instant_text(self.spec_secs(), self.spec_nanos()) is Some,
    {
        proof {
            use_type_invariant(self);
        }
        match print_utc_instant(self.secs, self.nanos) {
            Some(text) => text,
            None => {
                proof {
                    assert(false);
                }
                String::new()
            },
        }
    }
}

} // verus!
