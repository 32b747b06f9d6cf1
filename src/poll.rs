//! The interval between two battery polls.
use crate::cfg::Config;
use vstd::prelude::*;

verus! {

/// Declares `parse_duration::parse::Error`, carried opaque to be reported.
#[verifier::external_type_specification]
#[verifier::external_body]
pub struct ExDurationError(parse_duration::parse::Error);

/// The duration, as whole seconds and sub-second nanoseconds, that a duration
/// text denotes, if it denotes one.
pub uninterp spec fn duration_of(s: Seq<char>) -> Option<(u64, u32)>;

/// Relies on `parse_duration::parse`: the result depends on the text alone, and
/// a `Duration`'s sub-second part is below one second.
#[verifier::external_body]
fn parse_duration_text(s: &str) -> (r: Result<(u64, u32), parse_duration::parse::Error>)
    ensures
        match r {
            Ok(d) => duration_of(s@) == Some(d) && d.1 < 1_000_000_000,
            Err(_) => duration_of(s@) is None,
        },
{
    match parse_duration::parse(s) {
        Ok(d) => Ok((d.as_secs(), d.subsec_nanos())),
        Err(e) => Err(e),
    }
}

/// Time between two polls.
#[derive(PartialEq, Eq, Structural, Clone, Copy, Debug)]
pub struct PollPeriod {
    pub secs: u64,
    pub nanos: u32,
}

/// Seconds between polls when the configured interval cannot be read.
pub const DEFAULT_POLL_SECS: u64 = 120;

/// The period for a parsed interval: the parsed one, or two minutes, handing
/// back the parse error to be reported.
pub fn poll_period_from(parsed: Result<(u64, u32), parse_duration::parse::Error>) -> (r: (
    PollPeriod,
    Option<parse_duration::parse::Error>,
))
    ensures
        match parsed {
            Ok(d) => r.0 == (PollPeriod { secs: d.0, nanos: d.1 }) && r.1 is None,
            Err(e) => r.0 == (PollPeriod { secs: DEFAULT_POLL_SECS, nanos: 0 }) && r.1 == Some(e),
        },
{
    match parsed {
        Ok(d) => (PollPeriod { secs: d.0, nanos: d.1 }, None),
        Err(e) => (PollPeriod { secs: DEFAULT_POLL_SECS, nanos: 0 }, Some(e)),
    }
}

/// The period that the configuration asks for, read afresh on each cycle; an
/// unreadable interval falls back to two minutes and yields the error.
pub fn poll_period(config: &Config) -> (r: (PollPeriod, Option<parse_duration::parse::Error>))
    ensures
        match duration_of(config.poll@) {
            Some(d) => r.0 == (PollPeriod { secs: d.0, nanos: d.1 }) && r.1 is None,
            None => r.0 == (PollPeriod { secs: DEFAULT_POLL_SECS, nanos: 0 }) && r.1 is Some,
        },
{
    poll_period_from(parse_duration_text(config.poll.as_str()))
}

} // verus!
