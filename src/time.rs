//! Instants in UTC, as seconds and nanoseconds since the Unix epoch.
use chrono::{DateTime, FixedOffset, SecondsFormat, Utc};
use vstd::prelude::*;

verus! {

/// Whether chrono's `DateTime::from_timestamp(secs, nanos)` yields an instant.
pub uninterp spec fn representable(secs: int, nanos: int) -> bool;

/// The RFC 3339 text that chrono writes for an instant (its serde form).
pub uninterp spec fn rfc3339_text(secs: int, nanos: int) -> Seq<char>;

/// The text that chrono's `Display` writes for an instant in UTC.
pub uninterp spec fn display_text(secs: int, nanos: int) -> Seq<char>;

/// The instant, as (seconds, nanoseconds), that chrono reads from a date and time text.
pub uninterp spec fn instant_of_text(s: Seq<char>) -> Option<(int, int)>;

/// Relies on chrono's `DateTime::from_timestamp`: whether the pair names an instant.
#[verifier::external_body]
fn chrono_representable(secs: i64, nanos: u32) -> (r: bool)
    ensures
        r == representable(secs as int, nanos as int),
{
    DateTime::from_timestamp(secs, nanos).is_some()
}

/// Relies on chrono's `Utc::now`, which builds its result with `from_timestamp`
/// from the seconds and sub-second nanoseconds since the epoch.
#[verifier::external_body]
fn chrono_now() -> (r: (i64, u32))
    ensures
        representable(r.0 as int, r.1 as int),
        r.0 >= 0,
        r.1 < 1_000_000_000,
{
    let now = Utc::now();
    (now.timestamp(), now.timestamp_subsec_nanos())
}

/// Relies on chrono's `FromStr` for `DateTime<FixedOffset>` (what its serde form
/// reads), taken to UTC; the instant it gives came from `from_timestamp`.
#[verifier::external_body]
fn chrono_parse(s: &str) -> (r: Option<(i64, u32)>)
    ensures
        instant_of_text(s@) == (match r {
            Some(p) => Some((p.0 as int, p.1 as int)),
            None => None::<(int, int)>,
        }),
        r is Some ==> representable((r->0).0 as int, (r->0).1 as int),
{
    s.parse::<DateTime<FixedOffset>>().ok().map(|d| {
        let u = d.with_timezone(&Utc);
        (u.timestamp(), u.timestamp_subsec_nanos())
    })
}

/// Relies on chrono's `DateTime::to_rfc3339_opts` with automatic sub-second
/// digits and a `Z` suffix, which is how chrono serialises a `DateTime<Utc>`.
#[verifier::external_body]
fn chrono_rfc3339(secs: i64, nanos: u32) -> (r: String)
    requires
        representable(secs as int, nanos as int),
    ensures
        r@ == rfc3339_text(secs as int, nanos as int),
{
    DateTime::from_timestamp(secs, nanos).unwrap().to_rfc3339_opts(SecondsFormat::AutoSi, true)
}

/// Relies on chrono's `Display` for `DateTime<Utc>`.
#[verifier::external_body]
fn chrono_display(secs: i64, nanos: u32) -> (r: String)
    requires
        representable(secs as int, nanos as int),
    ensures
        r@ == display_text(secs as int, nanos as int),
{
    DateTime::from_timestamp(secs, nanos).unwrap().to_string()
}

/// An instant that chrono can represent, kept as seconds and nanoseconds
/// since 1970-01-01T00:00:00Z.
#[derive(Clone, Copy, Debug, PartialEq, Eq)]
pub struct Timestamp {
    secs: i64,
    nanos: u32,
}

impl View for Timestamp {
    type V = (int, int);

    closed spec fn view(&self) -> (int, int) {
        (self.secs as int, self.nanos as int)
    }
}

impl Timestamp {
    #[verifier::type_invariant]
    spec fn inv(self) -> bool {
        representable(self.secs as int, self.nanos as int)
    }

    /// The instant named by `secs` and `nanos`, if chrono can represent it.
    pub fn from_parts(secs: i64, nanos: u32) -> (r: Option<Timestamp>)
        ensures
            r is Some <==> representable(secs as int, nanos as int),
            r is Some ==> r->0@ == (secs as int, nanos as int),
    {
        if chrono_representable(secs, nanos) {
            Some(Timestamp { secs, nanos })
        } else {
            None
        }
    }

    /// The current instant.
    pub fn now() -> (r: Timestamp)
        ensures
            r@.0 >= 0,
            0 <= r@.1 < 1_000_000_000,
            representable(r@.0, r@.1),
    {
        let (secs, nanos) = chrono_now();
        Timestamp { secs, nanos }
    }

    /// Reads a date and time text as chrono does (RFC 3339, any offset).
    pub fn parse(s: &str) -> (r: Option<Timestamp>)
        ensures
            instant_of_text(s@) == (match r {
                Some(t) => Some(t@),
                None => None::<(int, int)>,
            }),
    {
        match chrono_parse(s) {
            Some((secs, nanos)) => Some(Timestamp { secs, nanos }),
            None => None,
        }
    }

    pub fn secs(&self) -> (r: i64)
        ensures
            r as int == self@.0,
    {
        self.secs
    }

    pub fn nanos(&self) -> (r: u32)
        ensures
            r as int == self@.1,
    {
        self.nanos
    }

    /// The RFC 3339 form that the document stores.
    pub fn to_rfc3339(&self) -> (r: String)
        ensures
            r@ == rfc3339_text(self@.0, self@.1),
    {
        proof {
            use_type_invariant(self);
        }
        chrono_rfc3339(self.secs, self.nanos)
    }

    /// The form shown to a reader.
    pub fn to_display(&self) -> (r: String)
        ensures
            r@ == display_text(self@.0, self@.1),
    {
        proof {
            use_type_invariant(self);
        }
        chrono_display(self.secs, self.nanos)
    }
}

} // verus!
