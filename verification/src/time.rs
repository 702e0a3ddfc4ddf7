use vstd::prelude::*;

verus! {

/// A point in time (UTC), held as whole seconds since the Unix epoch and the
/// nanoseconds past that second.
#[derive(Debug, Clone, Copy, PartialEq, Eq)]
pub struct Timestamp {
    pub secs: i64,
    pub nanos: u32,
}

/// The RFC 3339 text chrono writes for the time `secs` seconds and `nanos`
/// nanoseconds after the Unix epoch in UTC; none when chrono cannot
/// represent that time.
pub uninterp spec fn rfc3339_text(secs: i64, nanos: u32) -> Option<Seq<char>>;

/// `chrono::DateTime::<Utc>::from_timestamp(secs, nanos)` written with
/// `to_rfc3339`.
#[verifier::external_body]
fn rfc3339(secs: i64, nanos: u32) -> (r: Option<String>)
    ensures
        r is Some <==> rfc3339_text(secs, nanos) is Some,
        r matches Some(t) ==> rfc3339_text(secs, nanos) == Some(t@),
{
    match chrono::DateTime::<chrono::Utc>::from_timestamp(secs, nanos) {
        Some(d) => Some(d.to_rfc3339()),
        None => None,
    }
}

/// `chrono::Utc::now()`, as whole seconds and subsecond nanoseconds. Which
/// time it reads is left unsaid: it is the system clock's. As chrono's source
/// shows, it reads the clock as a duration since the Unix epoch (so the
/// seconds are not negative and the nanoseconds are under one second) and
/// builds the date with `DateTime::from_timestamp` on those two values,
/// which therefore succeeds on them.
#[verifier::external_body]
fn utc_now() -> (r: (i64, u32))
    ensures
        r.0 >= 0,
        r.1 < 1_000_000_000,
        rfc3339_text(r.0, r.1) is Some,
{
    let now = chrono::Utc::now();
    (now.timestamp(), now.timestamp_subsec_nanos())
}

impl Timestamp {
    /// The RFC 3339 text of the time; empty for a time chrono cannot
    /// represent.
    pub open spec fn spec_text(self) -> Seq<char> {
        match rfc3339_text(self.secs, self.nanos) {
            Some(t) => t,
            None => Seq::empty(),
        }
    }

    /// Whether the time lies at or after the Unix epoch, with a nanosecond
    /// part under one second, and chrono can represent it.
    pub open spec fn is_current_form(self) -> bool {
        &&& self.secs >= 0
        &&& self.nanos < 1_000_000_000
        &&& rfc3339_text(self.secs, self.nanos) is Some
    }

    /// The current time: the system clock read as seconds and nanoseconds
    /// since the Unix epoch; its RFC 3339 text is never empty.
    pub fn now() -> (r: Timestamp)
        ensures
            r.is_current_form(),
            r.spec_text() == rfc3339_text(r.secs, r.nanos)->0,
    {
        let (secs, nanos) = utc_now();
        Timestamp { secs, nanos }
    }

    pub fn to_rfc3339(&self) -> (r: String)
        ensures
            r@ == self.spec_text(),
    {
        match rfc3339(self.secs, self.nanos) {
            Some(t) => t,
            None => String::new(),
        }
    }
}

/// The text of a time that may be missing: empty when it is.
pub open spec fn optional_text(t: Option<Timestamp>) -> Seq<char> {
    match t {
        Some(t) => t.spec_text(),
        None => Seq::empty(),
    }
}

pub fn optional_rfc3339(t: Option<Timestamp>) -> (r: String)
    ensures
        r@ == optional_text(t),
{
    match t {
        Some(t) => t.to_rfc3339(),
        None => String::new(),
    }
}

} // verus!
