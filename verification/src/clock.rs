//! Instants in UTC, held as a Unix timestamp, written and read as RFC 3339
//! text by the `chrono` crate.
use vstd::prelude::*;

verus! {

/// What chrono's `DateTime::parse_from_rfc3339` makes of the text `s`: the
/// instant as seconds and nanoseconds since the Unix epoch (`timestamp`,
/// `timestamp_subsec_nanos`), or the message of the error it reports.
pub uninterp spec fn rfc3339_parse(s: Seq<char>) -> Result<(i64, u32), Seq<char>>;

/// The text that chrono's `DateTime::<Utc>::to_rfc3339` gives for the instant
/// `DateTime::from_timestamp(secs, nanos)`; `None` when `from_timestamp`
/// rejects the timestamp.
pub uninterp spec fn rfc3339_text(secs: i64, nanos: u32) -> Option<Seq<char>>;

/// The first second of year 0 and the first second of year 10000: chrono
/// writes the years between with four digits, the form its RFC 3339 parser
/// reads.
pub open spec fn four_digit_year(secs: i64) -> bool {
    -62167219200 <= secs < 253402300800
}

/// Calls chrono's `DateTime::parse_from_rfc3339`. Claimed: the outcome is
/// `rfc3339_parse` of the text, and an instant it reads is one that
/// `DateTime::from_timestamp` accepts (chrono documents that timestamps round
/// trip through `from_timestamp`). Which texts parse is left unsaid.
#[verifier::external_body]
fn parse_rfc3339(s: &str) -> (r: Result<(i64, u32), String>)
    ensures
        match rfc3339_parse(s@) {
            Ok(t) => r is Ok && r->Ok_0 == t && rfc3339_text(t.0, t.1) is Some,
            Err(m) => r matches Err(e) && e@ == m,
        },
{
    match chrono::DateTime::parse_from_rfc3339(s) {
        Ok(d) => Ok((d.timestamp(), d.timestamp_subsec_nanos())),
        Err(e) => Err(e.to_string()),
    }
}

/// Calls chrono's `DateTime::from_timestamp` and `to_rfc3339`. Claimed: the
/// text is `rfc3339_text` of the timestamp, and for a year written with four
/// digits the RFC 3339 parser reads it back to the same timestamp (the writer
/// puts out the date, the time with the digits of the fraction it needs, and
/// the offset `+00:00`, all of which the parser reads).
#[verifier::external_body]
fn format_rfc3339(secs: i64, nanos: u32) -> (r: Option<String>)
    ensures
        match rfc3339_text(secs, nanos) {
            Some(t) => r matches Some(x) && x@ == t,
            None => r is None,
        },
        r is Some && four_digit_year(secs) ==> rfc3339_parse(r->Some_0@) is Ok && rfc3339_parse(
            r->Some_0@,
        )->Ok_0 == (secs, nanos),
{
    chrono::DateTime::from_timestamp(secs, nanos).map(|d| d.to_rfc3339())
}

/// The system clock's time type, carried through from one call to the
/// next without being looked into.
#[verifier::external_type_specification]
#[verifier::external_body]
pub struct ExSystemTime(std::time::SystemTime);

/// Calls `std::time::SystemTime::now`. Which instant the clock reads
/// depends on the moment of the call: nothing is claimed of it.
#[verifier::external_body]
fn system_now() -> (r: std::time::SystemTime) {
    std::time::SystemTime::now()
}

/// Calls `SystemTime::duration_since` with the Unix epoch and takes the
/// duration's whole seconds and its nanoseconds; an instant before the
/// epoch is the call's error, given as `None`. Claimed: the nanoseconds of
/// a duration are below one second, as `Duration::subsec_nanos` documents.
/// Which readings lie before the epoch is left unsaid.
#[verifier::external_body]
fn since_epoch(t: &std::time::SystemTime) -> (r: Option<(u64, u32)>)
    ensures
        r is Some ==> r->Some_0.1 < 1_000_000_000,
{
    t.duration_since(std::time::UNIX_EPOCH).ok().map(|d| (d.as_secs(), d.subsec_nanos()))
}

/// An instant in UTC: seconds and nanoseconds since the Unix epoch, within
/// the range chrono can represent.
#[derive(Debug, Clone, Copy, PartialEq, Eq)]
pub struct UtcTime {
    secs: i64,
    nanos: u32,
}

impl UtcTime {
    #[verifier::type_invariant]
    closed spec fn representable(self) -> bool {
        rfc3339_text(self.secs, self.nanos) is Some
    }
}

impl View for UtcTime {
    type V = (i64, u32);

    closed spec fn view(&self) -> (i64, u32) {
        (self.secs, self.nanos)
    }
}

/// The instant `t` can stand in a [`UtcTime`].
pub open spec fn representable_time(t: (i64, u32)) -> bool {
    rfc3339_text(t.0, t.1) is Some
}

impl UtcTime {
    /// The instant `secs` seconds and `nanos` nanoseconds after the epoch, if
    /// chrono can represent it.
    pub fn from_timestamp(secs: i64, nanos: u32) -> (r: Option<UtcTime>)
        ensures
            match r {
                Some(t) => t@ == (secs, nanos) && representable_time((secs, nanos)),
                None => !representable_time((secs, nanos)),
            },
    {
        match format_rfc3339(secs, nanos) {
            Some(_) => Some(UtcTime { secs, nanos }),
            None => None,
        }
    }

    /// The instant a clock reading names: `reading` is the whole seconds
    /// and nanoseconds since the epoch, or `None` for a clock set before
    /// the epoch. Gives `None` where there is no reading, where the seconds
    /// exceed `i64::MAX`, or where chrono cannot represent the instant.
    pub fn from_epoch_reading(reading: Option<(u64, u32)>) -> (r: Option<UtcTime>)
        ensures
            match epoch_reading_time(reading) {
                Some(t) => r matches Some(x) && x@ == t,
                None => r is None,
            },
    {
        match reading {
            Some((secs, nanos)) => {
                if secs <= i64::MAX as u64 {
                    UtcTime::from_timestamp(secs as i64, nanos)
                } else {
                    None
                }
            },
            None => None,
        }
    }

    /// The current instant, as the system clock reads it: an instant at or
    /// after the epoch, within its second; `None` for a clock set before the
    /// epoch, or for a reading that chrono cannot represent (see
    /// [`UtcTime::from_epoch_reading`], which decides each reading).
    pub fn now() -> (r: Option<UtcTime>)
        ensures
            r is Some ==> r->Some_0@.0 >= 0 && r->Some_0@.1 < 1_000_000_000,
    {
        UtcTime::from_epoch_reading(epoch_reading())
    }

    /// Seconds since the epoch.
    pub fn timestamp(&self) -> (r: i64)
        ensures
            r == self@.0,
    {
        self.secs
    }

    /// Nanoseconds past the second.
    pub fn timestamp_subsec_nanos(&self) -> (r: u32)
        ensures
            r == self@.1,
    {
        self.nanos
    }

    /// The instant as RFC 3339 text.
    pub fn to_rfc3339(&self) -> (r: String)
        ensures
            rfc3339_text(self@.0, self@.1) == Some(r@),
            four_digit_year(self@.0) ==> rfc3339_parse(r@) == Ok::<(i64, u32), Seq<char>>(self@),
    {
        proof {
            use_type_invariant(self);
        }
        match format_rfc3339(self.secs, self.nanos) {
            Some(s) => s,
            None => {
                proof {
                    assert(false);
                }
                String::new()
            },
        }
    }

    /// Reads an instant from RFC 3339 text; the parser's message on failure.
    pub fn parse_from_rfc3339(s: &str) -> (r: Result<UtcTime, String>)
        ensures
            match rfc3339_parse(s@) {
                Ok(t) => r matches Ok(x) && x@ == t,
                Err(m) => r matches Err(e) && e@ == m,
            },
    {
        match parse_rfc3339(s) {
            Ok((secs, nanos)) => Ok(UtcTime { secs, nanos }),
            Err(e) => Err(e),
        }
    }
}

/// The instant a clock reading names, as [`UtcTime::from_epoch_reading`]
/// decides it.
pub open spec fn epoch_reading_time(reading: Option<(u64, u32)>) -> Option<(i64, u32)> {
    match reading {
        Some((secs, nanos)) => if secs <= i64::MAX && representable_time((secs as i64, nanos)) {
            Some((secs as i64, nanos))
        } else {
            None
        },
        None => None,
    }
}

/// The system clock's reading: whole seconds and nanoseconds since the
/// epoch, `None` for a clock set before it.
fn epoch_reading() -> (r: Option<(u64, u32)>)
    ensures
        r is Some ==> r->Some_0.1 < 1_000_000_000,
{
    since_epoch(&system_now())
}

/// The second a clock reading stamps a record with: the seconds of the
/// instant it names, as an unsigned number.
pub fn timestamp_from_reading(reading: Option<(u64, u32)>) -> (r: Option<u64>)
    ensures
        match epoch_reading_time(reading) {
            Some(t) => r == Some(t.0 as u64),
            None => r is None,
        },
{
    match UtcTime::from_epoch_reading(reading) {
        Some(t) => Some(t.timestamp() as u64),
        None => None,
    }
}

/// The current second since the epoch as an unsigned number, the way the
/// worker stamps its records: the seconds of [`UtcTime::now`], within the
/// range of `i64`; `None` where the clock gives no instant (see
/// [`timestamp_from_reading`], which decides each reading).
pub fn timestamp() -> (r: Option<u64>)
    ensures
        r is Some ==> r->Some_0 <= i64::MAX,
{
    timestamp_from_reading(epoch_reading())
}

} // verus!
