//! Service configuration: its fields, their defaults, and how a shutdown
//! timeout is read from a number or a duration string.

use vstd::prelude::*;

use fundu::{DurationParser, TimeUnit};

verus! {

/// A length of time: whole seconds plus a nanosecond part below one second.
#[derive(Clone, Copy, Debug, PartialEq, Eq, Structural)]
pub struct TimeSpan {
    pub secs: u64,
    pub nanos: u32,
}

impl TimeSpan {
    pub open spec fn wf(self) -> bool {
        self.nanos < 1_000_000_000
    }

    /// The span of `secs` whole seconds.
    pub fn from_secs(secs: u64) -> (r: TimeSpan)
        ensures
            r == (TimeSpan { secs, nanos: 0 }),
            r.wf(),
    {
        TimeSpan { secs, nanos: 0 }
    }
}

/// Main application configuration.
#[derive(Clone, Debug)]
pub struct Config {
    /// Log level: "trace", "debug", "info", "warn" or "error".
    pub log_level: String,
    /// Port of the web server.
    pub port: u16,
    /// Database connection URL.
    pub database_url: String,
    /// How long a graceful shutdown may take.
    pub shutdown_timeout: TimeSpan,
    /// Secret key for session encryption.
    pub session_secret: String,
}

/// Default log level, "info".
pub fn default_log_level() -> (r: String)
    ensures
        r@ == seq!['i', 'n', 'f', 'o'],
{
    proof {
        reveal_strlit("info");
    }
    String::from_str("info")
}

/// Default port, 8080.
pub fn default_port() -> (r: u16)
    ensures
        r == 8080,
{
    8080
}

/// Default shutdown timeout, eight seconds.
pub fn default_shutdown_timeout() -> (r: TimeSpan)
    ensures
        r == (TimeSpan { secs: 8, nanos: 0 }),
{
    TimeSpan::from_secs(8)
}

/// Why a configured duration was refused.
#[derive(Clone, Debug, PartialEq, Eq)]
pub enum DurationError {
    /// The text is no duration that the parser accepts; the parser's message.
    Invalid(String),
    /// A negative number of seconds.
    Negative,
}

/// What the duration parser makes of a text: seconds and nanoseconds, or
/// nothing when it refuses the text.
pub uninterp spec fn parsed_duration(text: Seq<char>) -> Option<(u64, u32)>;

/// Relies on `fundu::DurationParser::parse`, set up for seconds, milliseconds
/// and minutes with seconds as the default unit, several terms, a delimiter
/// allowed before the unit, and no infinity, fraction or exponent; then on
/// fundu's `TryFrom` into `std::time::Duration`, whose sub-second part is
/// below one second. The outcome depends on the text alone.
#[verifier::external_body]
fn parse_duration_text(value: &str) -> (r: Result<(u64, u32), String>)
    ensures
        match r {
            Ok(v) => parsed_duration(value@) == Some(v) && v.1 < 1_000_000_000,
            Err(_) => parsed_duration(value@) is None,
        },
{
    let parser = DurationParser::builder()
        .time_units(&[TimeUnit::Second, TimeUnit::MilliSecond, TimeUnit::Minute])
        .parse_multiple(None).allow_time_unit_delimiter()
        .disable_infinity().disable_fraction().disable_exponent()
        .default_unit(TimeUnit::Second).build();
    let d = parser.parse(value).map_err(|e| e.to_string())?;
    let d = std::time::Duration::try_from(d).map_err(|e| e.to_string())?;
    Ok((d.as_secs(), d.subsec_nanos()))
}

/// A duration written as text: a number of seconds, or terms such as
/// `3500ms`, `30s`, `2m`.
pub fn duration_from_text(value: &str) -> (r: Result<TimeSpan, DurationError>)
    ensures
        match parsed_duration(value@) {
            Some(v) => r == Ok::<TimeSpan, DurationError>(TimeSpan { secs: v.0, nanos: v.1 }),
            None => r matches Err(DurationError::Invalid(_)),
        },
        r matches Ok(t) ==> t.wf(),
{
    match parse_duration_text(value) {
        Ok(v) => Ok(TimeSpan { secs: v.0, nanos: v.1 }),
        Err(message) => Err(DurationError::Invalid(message)),
    }
}

/// A duration given as an unsigned number of seconds.
pub fn duration_from_unsigned(value: u64) -> (r: TimeSpan)
    ensures
        r == (TimeSpan { secs: value, nanos: 0 }),
{
    TimeSpan::from_secs(value)
}

/// A duration given as a signed number of seconds; negative ones are refused.
pub fn duration_from_signed(value: i64) -> (r: Result<TimeSpan, DurationError>)
    ensures
        value < 0 ==> r == Err::<TimeSpan, DurationError>(DurationError::Negative),
        value >= 0 ==> r == Ok::<TimeSpan, DurationError>(TimeSpan { secs: value as u64, nanos: 0 }),
{
    if value < 0 {
        Err(DurationError::Negative)
    } else {
        Ok(TimeSpan::from_secs(value as u64))
    }
}

} // verus!
